use vstd::prelude::*;
use vstd::string::*;

verus! {

/// Relies on `json::JsonValue`, a parsed JSON document.
#[verifier::external_type_specification]
#[verifier::external_body]
pub struct ExJsonValue(json::JsonValue);

/// Relies on `json::Error`, the parser's error.
#[verifier::external_type_specification]
#[verifier::external_body]
pub struct ExJsonError(json::Error);

/// A JSON document as plain values. A number is kept as its sign, mantissa
/// and decimal exponent; an object's keys are unique, in document order.
#[derive(Debug, PartialEq, Eq)]
pub enum Json {
    Null,
    Bool(bool),
    Number(bool, u64, i16),
    Str(String),
    Array(Vec<Json>),
    Object(Vec<(String, Json)>),
}

/// The document that the json crate's parser reads out of a text, if any.
pub uninterp spec fn json_of(text: Seq<char>) -> Option<Json>;

/// Relies on `json::parse`: the document a text holds, or an error; the
/// result depends on the text alone.
#[verifier::external_body]
fn parse_json(text: &str) -> (r: Result<Json, json::Error>)
    ensures
        match r {
            Ok(v) => json_of(text@) == Some(v),
            Err(_) => json_of(text@) is None,
        },
{
    json::parse(text).map(|doc| plain_json(&doc))
}

/// Relies on `json::JsonValue`'s variants and `Number::as_parts`: copies a
/// document into `Json` one value for one, short and long strings alike.
#[verifier::external_body]
fn plain_json(v: &json::JsonValue) -> Json {
    match v {
        json::JsonValue::Null => Json::Null,
        json::JsonValue::Boolean(b) => Json::Bool(*b),
        json::JsonValue::Number(n) => {
            let (positive, mantissa, exponent) = n.as_parts();
            Json::Number(positive, mantissa, exponent)
        },
        json::JsonValue::Short(s) => Json::Str(s.as_str().to_string()),
        json::JsonValue::String(s) => Json::Str(s.clone()),
        json::JsonValue::Array(a) => Json::Array(a.iter().map(plain_json).collect()),
        json::JsonValue::Object(o) => Json::Object(
            o.iter().map(|(k, x)| (k.to_string(), plain_json(x))).collect(),
        ),
    }
}

/// The value under `key` among an object's entries, null where there is none.
pub open spec fn lookup(entries: Seq<(String, Json)>, key: Seq<char>) -> Json
    decreases entries.len(),
{
    if entries.len() == 0 {
        Json::Null
    } else if entries[0].0@ == key {
        entries[0].1
    } else {
        lookup(entries.drop_first(), key)
    }
}

/// `v[key]`: the member of an object, null otherwise.
pub open spec fn member_of(v: Json, key: Seq<char>) -> Json {
    match v {
        Json::Object(entries) => lookup(entries@, key),
        _ => Json::Null,
    }
}

/// `v[i]`: the element of an array, null otherwise.
pub open spec fn element_of(v: Json, i: int) -> Json {
    match v {
        Json::Array(a) => if 0 <= i < a@.len() {
            a@[i]
        } else {
            Json::Null
        },
        _ => Json::Null,
    }
}

/// The length of an array or object, 0 for any other value.
pub open spec fn len_of(v: Json) -> usize {
    match v {
        Json::Array(a) => a.len(),
        Json::Object(entries) => entries.len(),
        _ => 0,
    }
}

pub open spec fn str_of(v: Json) -> Option<String> {
    match v {
        Json::Str(s) => Some(s),
        _ => None,
    }
}

pub open spec fn bool_of(v: Json) -> Option<bool> {
    match v {
        Json::Bool(b) => Some(b),
        _ => None,
    }
}

/// What the zone/record backend's replies carry: the number of entries under
/// `result`, the first entry's `id`, `type`, `name` and `proxied`, and `success`.
#[derive(Debug, Clone, PartialEq, Eq)]
pub struct Reply {
    pub count: usize,
    pub id: Option<String>,
    pub kind: Option<String>,
    pub name: Option<String>,
    pub proxied: Option<bool>,
    pub success: Option<bool>,
}

/// The reply that a parsed document gives.
pub open spec fn reply_of(doc: Json) -> Reply {
    let result = member_of(doc, "result"@);
    let first = element_of(result, 0);
    Reply {
        count: len_of(result),
        id: str_of(member_of(first, "id"@)),
        kind: str_of(member_of(first, "type"@)),
        name: str_of(member_of(first, "name"@)),
        proxied: bool_of(member_of(first, "proxied"@)),
        success: bool_of(member_of(doc, "success"@)),
    }
}

/// The member under `key`; `None` stands for null.
fn member<'a>(v: Option<&'a Json>, key: &str) -> (r: Option<&'a Json>)
    ensures
        match v {
            Some(x) => match r {
                Some(y) => *y == member_of(*x, key@),
                None => member_of(*x, key@) == Json::Null,
            },
            None => r is None,
        },
{
    match v {
        Some(Json::Object(entries)) => {
            let k = String::from_str(key);
            assert(member_of(*v->0, key@) == lookup(entries@, key@));
            let mut i: usize = 0;
            assert(entries@.subrange(0, entries@.len() as int) =~= entries@);
            while i < entries.len()
                invariant
                    i <= entries@.len(),
                    k@ == key@,
                    v is Some && member_of(*v->0, key@) == lookup(entries@, key@),
                    lookup(entries@, key@) == lookup(entries@.subrange(i as int, entries@.len() as int), key@),
                decreases entries@.len() - i,
            {
                let ghost rest = entries@.subrange(i as int, entries@.len() as int);
                assert(rest.drop_first() =~= entries@.subrange(i + 1, entries@.len() as int));
                assert(rest[0] == entries@[i as int]);
                if entries[i].0 == k {
                    return Some(&entries[i].1);
                }
                i = i + 1;
            }
            assert(entries@.subrange(i as int, entries@.len() as int).len() == 0);
            None
        },
        _ => None,
    }
}

/// The first element of an array; `None` stands for null.
fn first_element<'a>(v: Option<&'a Json>) -> (r: Option<&'a Json>)
    ensures
        match v {
            Some(x) => match r {
                Some(y) => *y == element_of(*x, 0),
                None => element_of(*x, 0) == Json::Null,
            },
            None => r is None,
        },
{
    match v {
        Some(Json::Array(a)) => if a.len() > 0 {
            Some(&a[0])
        } else {
            None
        },
        _ => None,
    }
}

fn length(v: Option<&Json>) -> (r: usize)
    ensures
        match v {
            Some(x) => r == len_of(*x),
            None => r == 0,
        },
{
    match v {
        Some(Json::Array(a)) => a.len(),
        Some(Json::Object(entries)) => entries.len(),
        _ => 0,
    }
}

fn text_of(v: Option<&Json>) -> (r: Option<String>)
    ensures
        match v {
            Some(x) => r == str_of(*x),
            None => r is None,
        },
{
    match v {
        Some(Json::Str(s)) => Some(s.clone()),
        _ => None,
    }
}

fn flag_of(v: Option<&Json>) -> (r: Option<bool>)
    ensures
        match v {
            Some(x) => r == bool_of(*x),
            None => r is None,
        },
{
    match v {
        Some(Json::Bool(b)) => Some(*b),
        _ => None,
    }
}

/// The reply that a parsed document gives.
pub fn reply_from(doc: &Json) -> (r: Reply)
    ensures
        r == reply_of(*doc),
{
    let result = member(Some(doc), "result");
    let first = first_element(result);
    Reply {
        count: length(result),
        id: text_of(member(first, "id")),
        kind: text_of(member(first, "type")),
        name: text_of(member(first, "name")),
        proxied: flag_of(member(first, "proxied")),
        success: flag_of(member(Some(doc), "success")),
    }
}

/// The backend's reply was not a JSON document.
#[derive(Debug, Clone, Copy, PartialEq, Eq, Structural)]
pub struct Unparsable;

/// Reads a reply of the zone/record backend out of its body.
pub fn read_reply(text: &str) -> (r: Result<Reply, Unparsable>)
    ensures
        r is Ok <==> json_of(text@) is Some,
        r is Ok ==> r->Ok_0 == reply_of(json_of(text@)->0),
{
    match parse_json(text) {
        Ok(doc) => Ok(reply_from(&doc)),
        Err(_) => Err(Unparsable),
    }
}

} // verus!
