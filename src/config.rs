use vstd::prelude::*;
use vstd::string::*;

verus! {

/// Where the configuration file is looked for, in order.
pub open spec fn candidate_paths() -> Seq<Seq<char>> {
    seq![".config.toml"@, "config.toml"@, "/etc/dnsupdate.toml"@]
}

/// The configuration file's candidate paths, in the order they are tried.
pub fn config_candidates() -> (r: Vec<String>)
    ensures
        r@.len() == candidate_paths().len(),
        forall|i: int| 0 <= i < r@.len() ==> #[trigger] r@[i]@ == candidate_paths()[i],
{
    proof {
        reveal_strlit(".config.toml");
        reveal_strlit("config.toml");
        reveal_strlit("/etc/dnsupdate.toml");
    }
    let mut r: Vec<String> = Vec::new();
    r.push(String::from_str(".config.toml"));
    r.push(String::from_str("config.toml"));
    r.push(String::from_str("/etc/dnsupdate.toml"));
    r
}

/// The first candidate that is present; none when no candidate is, and then
/// nothing may run.
pub fn first_present(present: &Vec<bool>) -> (r: Option<usize>)
    ensures
        r is None <==> forall|i: int| 0 <= i < present@.len() ==> !#[trigger] present@[i],
        r is Some ==> r->0 < present@.len() && present@[r->0 as int] && forall|j: int|
            0 <= j < r->0 ==> !#[trigger] present@[j],
{
    let mut i: usize = 0;
    while i < present.len()
        invariant
            i <= present@.len(),
            forall|j: int| 0 <= j < i ==> !#[trigger] present@[j],
        decreases present@.len() - i,
    {
        if present[i] {
            return Some(i);
        }
        i = i + 1;
    }
    None
}

} // verus!
