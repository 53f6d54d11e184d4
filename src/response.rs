//! The classification of the core's replies that every operation shares.
use vstd::prelude::*;
use vstd::string::*;

verus! {

/// What the HTTP status of a reply, or its absence, says before any
/// operation-specific reading of the body.
#[derive(Clone, Copy, Debug, PartialEq, Eq, Structural)]
pub enum StatusClass {
    /// 200: the body decides between success and a domain failure.
    Success,
    /// 400
    BadRequest,
    /// 401
    InvalidApiKey,
    /// 404
    NotFound,
    /// 500
    Internal,
    /// Any other status, or no status at all (connection failure, timeout).
    Unknown,
}

/// The class of an HTTP status; `None` stands for a transport failure.
pub open spec fn status_class(status: Option<u16>) -> StatusClass {
    match status {
        Some(200) => StatusClass::Success,
        Some(400) => StatusClass::BadRequest,
        Some(401) => StatusClass::InvalidApiKey,
        Some(404) => StatusClass::NotFound,
        Some(500) => StatusClass::Internal,
        _ => StatusClass::Unknown,
    }
}

/// Classifies the HTTP status of a reply (`None`: no reply came).
pub fn classify_status(status: Option<u16>) -> (r: StatusClass)
    ensures
        r == status_class(status),
{
    match status {
        Some(code) => {
            if code == 200 {
                StatusClass::Success
            } else if code == 400 {
                StatusClass::BadRequest
            } else if code == 401 {
                StatusClass::InvalidApiKey
            } else if code == 404 {
                StatusClass::NotFound
            } else if code == 500 {
                StatusClass::Internal
            } else {
                StatusClass::Unknown
            }
        },
        None => StatusClass::Unknown,
    }
}

/// Every reply, and every failure to get one, falls in exactly one class;
/// a status outside 200, 400, 401, 404 and 500, or none at all, is unknown.
pub proof fn lemma_unlisted_status_is_unknown(status: Option<u16>)
    ensures
        (status is None || !(status->Some_0 == 200 || status->Some_0 == 400 || status->Some_0 == 401
            || status->Some_0 == 404 || status->Some_0 == 500)) <==> status_class(status)
            == StatusClass::Unknown,
{
}

/// The body status that signals domain success.
pub open spec fn is_ok_status(s: Seq<char>) -> bool {
    s == "OK"@
}

/// Whether the `status` field of a reply body signals domain success.
pub fn body_status_is_ok(status: &String) -> (r: bool)
    ensures
        r == is_ok_status(status@),
{
    let ok = String::from_str("OK");
    *status == ok
}

} // verus!
