use vstd::prelude::*;
use vstd::string::*;
use crate::domain::DecomposedDomain;
use crate::reply::{json_of, read_reply, reply_of, Reply};
use crate::report::Outcome;

verus! {

/// A request to the zone/record backend, or the end of one subdomain's update.
#[derive(Debug, Clone, PartialEq, Eq)]
pub enum Action {
    Get(String),
    Put(String, String),
    Finish(Outcome),
}

/// Where one subdomain's update stands.
#[derive(Debug, Clone, PartialEq, Eq)]
pub enum Stage {
    Zone,
    Record(String),
    Update,
    Done,
}

/// The reply broke the backend's documented shape: a field that the next
/// step needs is absent.
#[derive(Debug, Clone, Copy, PartialEq, Eq, Structural)]
pub enum ProtocolError {
    Unparsable,
    MissingField,
}

pub open spec fn zones_url(apex: Seq<char>) -> Seq<char> {
    "https://api.cloudflare.com/client/v4/zones?name="@ + apex + "&status=active&per_page=1&page=1"@
}

pub open spec fn records_url(zone_id: Seq<char>, name: Seq<char>) -> Seq<char> {
    "https://api.cloudflare.com/client/v4/zones/"@ + zone_id + "/dns_records?name="@ + name
}

pub open spec fn record_url(zone_id: Seq<char>, record_id: Seq<char>) -> Seq<char> {
    "https://api.cloudflare.com/client/v4/zones/"@ + zone_id + "/dns_records/"@ + record_id
}

pub open spec fn bool_text(b: bool) -> Seq<char> {
    if b {
        "true"@
    } else {
        "false"@
    }
}

/// The JSON body that rewrites a record's content, with its type set to `A`
/// and its name and proxied flag as given.
pub open spec fn update_body(
    record_id: Seq<char>,
    ip: Seq<char>,
    name: Seq<char>,
    proxied: bool,
) -> Seq<char> {
    "{\"id\":\""@ + record_id + "\",\"content\":\""@ + ip + "\",\"type\":\"A\",\"name\":\""@ + name
        + "\",\"proxied\":"@ + bool_text(proxied) + "}"@
}

pub open spec fn is_address_type(kind: Option<Seq<char>>) -> bool {
    kind == Some("A"@) || kind == Some("AAAA"@)
}

pub open spec fn kind_view(kind: Option<String>) -> Option<Seq<char>> {
    match kind {
        Some(k) => Some(k@),
        None => None,
    }
}

pub open spec fn is_get(a: Action, url: Seq<char>) -> bool {
    a is Get && a->Get_0@ == url
}

pub open spec fn is_put(a: Action, url: Seq<char>, body: Seq<char>) -> bool {
    a is Put && a->Put_0@ == url && a->Put_1@ == body
}

pub open spec fn finishes(r: Result<Action, ProtocolError>, o: Outcome) -> bool {
    r == Ok::<Action, ProtocolError>(Action::Finish(o))
}

pub open spec fn missing(r: Result<Action, ProtocolError>) -> bool {
    r == Err::<Action, ProtocolError>(ProtocolError::MissingField)
}

/// One subdomain's update against the zone/record backend: find the zone,
/// find the record, and rewrite the content of an address record.
pub struct CloudflareExchange {
    pub domain: DecomposedDomain,
    pub ip: String,
    pub stage: Stage,
}

/// How the exchange moves from `pre` to `post` on `reply`, and what it asks
/// for next.
pub open spec fn reply_step(
    pre: CloudflareExchange,
    post: CloudflareExchange,
    reply: Reply,
    r: Result<Action, ProtocolError>,
) -> bool {
    &&& post.domain == pre.domain
    &&& post.ip == pre.ip
    &&& match pre.stage {
        Stage::Zone => if reply.count == 0 {
            finishes(r, Outcome::Skipped) && post.stage is Done
        } else if reply.id is None {
            missing(r) && post.stage is Done
        } else {
            &&& r is Ok
            &&& is_get(r->Ok_0, records_url(reply.id->0@, pre.domain.full_name()))
            &&& post.stage is Record
            &&& post.stage->Record_0@ == reply.id->0@
        },
        Stage::Record(zone_id) => if reply.count == 0 {
            finishes(r, Outcome::Skipped) && post.stage is Done
        } else if !is_address_type(kind_view(reply.kind)) {
            finishes(r, Outcome::Skipped) && post.stage is Done
        } else if reply.proxied is None || reply.id is None || reply.name is None {
            missing(r) && post.stage is Done
        } else {
            &&& r is Ok
            &&& is_put(
                r->Ok_0,
                record_url(zone_id@, reply.id->0@),
                update_body(reply.id->0@, pre.ip@, reply.name->0@, reply.proxied->0),
            )
            &&& post.stage is Update
        },
        Stage::Update => post.stage is Done && match reply.success {
            Some(true) => finishes(r, Outcome::Success),
            Some(false) => finishes(r, Outcome::Fail),
            None => missing(r),
        },
        Stage::Done => false,
    }
}

fn bool_string(b: bool) -> (r: String)
    ensures
        r@ == bool_text(b),
{
    proof {
        reveal_strlit("true");
        reveal_strlit("false");
    }
    if b {
        String::from_str("true")
    } else {
        String::from_str("false")
    }
}

fn is_address_kind(kind: &Option<String>) -> (r: bool)
    ensures
        r == is_address_type(kind_view(*kind)),
{
    proof {
        reveal_strlit("A");
        reveal_strlit("AAAA");
    }
    match kind {
        Some(k) => {
            let a = String::from_str("A");
            let aaaa = String::from_str("AAAA");
            *k == a || *k == aaaa
        },
        None => false,
    }
}

impl CloudflareExchange {
    /// Starts the update of `domain`'s record to `ip`, at the zone lookup.
    pub fn new(domain: DecomposedDomain, ip: String) -> (r: CloudflareExchange)
        ensures
            r.domain == domain,
            r.ip == ip,
            r.stage is Zone,
    {
        CloudflareExchange { domain, ip, stage: Stage::Zone }
    }

    /// The zone lookup: the active zone named after the apex, one result at most.
    pub fn zone_request(&self) -> (r: Action)
        ensures
            is_get(r, zones_url(self.domain.apex())),
    {
        let apex = self.domain.apex_name();
        let url = String::from_str("https://api.cloudflare.com/client/v4/zones?name=").concat(
            apex.as_str(),
        ).concat("&status=active&per_page=1&page=1");
        Action::Get(url)
    }

    /// Takes the reply to the request last asked for and gives the next one.
    pub fn on_reply(&mut self, reply: &Reply) -> (r: Result<Action, ProtocolError>)
        requires
            !(old(self).stage is Done),
        ensures
            reply_step(*old(self), *final(self), *reply, r),
    {
        match &self.stage {
            Stage::Zone => {
                if reply.count == 0 {
                    self.stage = Stage::Done;
                    Ok(Action::Finish(Outcome::Skipped))
                } else {
                    match &reply.id {
                        None => {
                            self.stage = Stage::Done;
                            Err(ProtocolError::MissingField)
                        },
                        Some(zone_id) => {
                            let name = self.domain.full_name_string();
                            let url = String::from_str(
                                "https://api.cloudflare.com/client/v4/zones/",
                            ).concat(zone_id.as_str()).concat("/dns_records?name=").concat(
                                name.as_str(),
                            );
                            self.stage = Stage::Record(zone_id.clone());
                            Ok(Action::Get(url))
                        },
                    }
                }
            },
            Stage::Record(zone_id) => {
                if reply.count == 0 {
                    self.stage = Stage::Done;
                    Ok(Action::Finish(Outcome::Skipped))
                } else if !is_address_kind(&reply.kind) {
                    self.stage = Stage::Done;
                    Ok(Action::Finish(Outcome::Skipped))
                } else {
                    match (&reply.proxied, &reply.id, &reply.name) {
                        (Some(proxied), Some(record_id), Some(name)) => {
                            let url = String::from_str(
                                "https://api.cloudflare.com/client/v4/zones/",
                            ).concat(zone_id.as_str()).concat("/dns_records/").concat(
                                record_id.as_str(),
                            );
                            let flag = bool_string(*proxied);
                            let body = String::from_str("{\"id\":\"").concat(
                                record_id.as_str(),
                            ).concat("\",\"content\":\"").concat(self.ip.as_str()).concat(
                                "\",\"type\":\"A\",\"name\":\"",
                            ).concat(name.as_str()).concat("\",\"proxied\":").concat(
                                flag.as_str(),
                            ).concat("}");
                            self.stage = Stage::Update;
                            Ok(Action::Put(url, body))
                        },
                        _ => {
                            self.stage = Stage::Done;
                            Err(ProtocolError::MissingField)
                        },
                    }
                }
            },
            Stage::Update => {
                self.stage = Stage::Done;
                match reply.success {
                    Some(true) => Ok(Action::Finish(Outcome::Success)),
                    Some(false) => Ok(Action::Finish(Outcome::Fail)),
                    None => Err(ProtocolError::MissingField),
                }
            },
            Stage::Done => Err(ProtocolError::MissingField),
        }
    }

    /// Takes the body of the reply to the request last asked for and gives
    /// the next request; a body that is no JSON document ends the update.
    pub fn feed(&mut self, body: &str) -> (r: Result<Action, ProtocolError>)
        requires
            !(old(self).stage is Done),
        ensures
            r == Err::<Action, ProtocolError>(ProtocolError::Unparsable) <==> json_of(body@) is None,
            json_of(body@) is None ==> final(self).stage is Done && final(self).domain == old(
                self,
            ).domain && final(self).ip == old(self).ip,
            json_of(body@) is Some ==> reply_step(
                *old(self),
                *final(self),
                reply_of(json_of(body@)->0),
                r,
            ),
    {
        match read_reply(body) {
            Ok(reply) => self.on_reply(&reply),
            Err(_) => {
                self.stage = Stage::Done;
                Err(ProtocolError::Unparsable)
            },
        }
    }
}

/// Once an update is done, no reply moves it on: it asks for nothing more.
pub proof fn lemma_done_is_final(
    pre: CloudflareExchange,
    post: CloudflareExchange,
    reply: Reply,
    r: Result<Action, ProtocolError>,
)
    requires
        pre.stage is Done,
    ensures
        !reply_step(pre, post, reply, r),
{
}

/// A zone lookup with no result ends the update as skipped: neither a record
/// lookup nor an update is asked for.
pub proof fn lemma_no_zone_skips(
    pre: CloudflareExchange,
    post: CloudflareExchange,
    reply: Reply,
    r: Result<Action, ProtocolError>,
)
    requires
        pre.stage is Zone,
        reply.count == 0,
        reply_step(pre, post, reply, r),
    ensures
        finishes(r, Outcome::Skipped),
        post.stage is Done,
        forall|p: CloudflareExchange, rep: Reply, a: Result<Action, ProtocolError>|
            !reply_step(post, p, rep, a),
{
}

/// A record that is neither `A` nor `AAAA` ends the update as skipped: no
/// update is asked for, so no record is ever retyped.
pub proof fn lemma_other_type_skips(
    pre: CloudflareExchange,
    post: CloudflareExchange,
    reply: Reply,
    r: Result<Action, ProtocolError>,
)
    requires
        pre.stage is Record,
        reply.count > 0,
        !is_address_type(kind_view(reply.kind)),
        reply_step(pre, post, reply, r),
    ensures
        finishes(r, Outcome::Skipped),
        post.stage is Done,
        forall|p: CloudflareExchange, rep: Reply, a: Result<Action, ProtocolError>|
            !reply_step(post, p, rep, a),
{
}

/// The only write of the protocol targets the record that was found, sends
/// back its own name and proxied flag, and sets only its content to the IP and
/// its type to `A`.
pub proof fn lemma_update_preserves_record(
    pre: CloudflareExchange,
    post: CloudflareExchange,
    reply: Reply,
    r: Result<Action, ProtocolError>,
)
    requires
        reply_step(pre, post, reply, r),
        r is Ok,
        r->Ok_0 is Put,
    ensures
        pre.stage is Record,
        reply.id is Some && reply.proxied is Some && reply.name is Some,
        is_address_type(kind_view(reply.kind)),
        r->Ok_0->Put_0@ == record_url(pre.stage->Record_0@, reply.id->0@),
        r->Ok_0->Put_1@ == update_body(reply.id->0@, pre.ip@, reply.name->0@, reply.proxied->0),
        post.stage is Update,
{
}

} // verus!
