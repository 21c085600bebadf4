use vstd::prelude::*;
use vstd::string::*;
use crate::report::Outcome;

verus! {

/// The single-call backend's update request for `host` and `ip`.
pub open spec fn ydns_url(host: Seq<char>, ip: Seq<char>) -> Seq<char> {
    "https://ydns.io/api/v1/update/?host="@ + host + "&ip="@ + ip
}

/// The URL of the request that points `host` at `ip`.
pub fn update_url(host: &str, ip: &str) -> (r: String)
    ensures
        r@ == ydns_url(host@, ip@),
{
    String::from_str("https://ydns.io/api/v1/update/?host=").concat(host).concat("&ip=").concat(ip)
}

/// The outcome that the backend's HTTP status stands for: success on 200 only.
pub fn outcome_for_status(status: u16) -> (r: Outcome)
    ensures
        (r == Outcome::Success) <==> status == 200,
        r != Outcome::Success ==> r == Outcome::Fail,
{
    if status == 200 {
        Outcome::Success
    } else {
        Outcome::Fail
    }
}

} // verus!
