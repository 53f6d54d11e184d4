//! Email/password sign-in: the request's place and the reading of the reply.
use crate::response::{classify_status, is_ok_status, status_class, StatusClass};
use vstd::prelude::*;
use vstd::string::*;

verus! {

#[verifier::external_type_specification]
#[verifier::external_body]
pub struct ExReqwestError(reqwest::Error);

/// Why a sign-in failed.
#[derive(Debug)]
pub enum SignInError {
    /// The core refused the request; carries the body of its reply.
    BadRequest(String),
    /// The reply was 200 but its body status was not `"OK"`.
    WrongCredentials,
    InvalidApiKey,
    NotFound,
    InternalError,
    Unknown,
}

/// A transport failure carries nothing the sign-in can tell apart.
impl From<reqwest::Error> for SignInError {
    fn from(_value: reqwest::Error) -> (r: Self)
        ensures
            r == SignInError::Unknown,
    {
        SignInError::Unknown
    }
}

impl vstd::std_specs::convert::FromSpecImpl<reqwest::Error> for SignInError {
    open spec fn obeys_from_spec() -> bool {
        true
    }

    open spec fn from_spec(v: reqwest::Error) -> SignInError {
        SignInError::Unknown
    }
}

/// The body of a 200 reply to a sign-in.
#[derive(Debug, Clone)]
pub struct SignInResponseRaw {
    pub status: String,
    pub user: Option<User>,
    pub recipe_user_id: Option<String>,
}

/// A signed-in user.
pub struct SignInSuccess {
    pub user: User,
    pub user_id: String,
}

/// A user as the core describes it.
#[derive(Debug, Clone)]
pub struct User {
    pub id: String,
    pub is_primary_user: bool,
    pub tenant_ids: Vec<String>,
    pub time_joined: i64,
    pub emails: Vec<String>,
    pub phone_numbers: Vec<String>,
    pub third_party: Vec<ThirdParty>,
    pub login_methods: Vec<LoginMethod>,
}

/// One way in which a user can sign in.
#[derive(Debug, Clone)]
pub struct LoginMethod {
    pub tenant_ids: Vec<String>,
    pub recipe_user_id: String,
    pub verified: bool,
    pub time_joined: i64,
    pub recipe_id: String,
    pub email: String,
    pub phone_number: String,
    pub third_party: ThirdParty,
}

/// A third-party identity of a user.
#[derive(Debug, Clone)]
pub struct ThirdParty {
    pub id: String,
    pub user_id: String,
}

/// The error that a sign-in gives for a reply that was not 200 (`status`
/// is `None` when no reply came); `text` is the body of a 400 reply, when it
/// could be read.
pub open spec fn is_sign_in_error_for(r: SignInError, status: Option<u16>, text: Option<String>) -> bool {
    match status_class(status) {
        StatusClass::BadRequest => r is BadRequest && r->BadRequest_0@ == match text {
            Some(t) => t@,
            None => "Bad Request"@,
        },
        StatusClass::InvalidApiKey => r == SignInError::InvalidApiKey,
        StatusClass::NotFound => r == SignInError::NotFound,
        StatusClass::Internal => r == SignInError::InternalError,
        _ => r == SignInError::Unknown,
    }
}

/// The error of a sign-in whose reply was not 200 (`status` is `None` when
/// no reply came). `text` is the body of a 400 reply, when it could be read.
pub fn sign_in_error(status: Option<u16>, text: Option<String>) -> (r: SignInError)
    requires
        status != Some(200u16),
    ensures
        is_sign_in_error_for(r, status, text),
{
    match classify_status(status) {
        StatusClass::BadRequest => SignInError::BadRequest(
            match text {
                Some(t) => t,
                None => String::from_str("Bad Request"),
            },
        ),
        StatusClass::InvalidApiKey => SignInError::InvalidApiKey,
        StatusClass::NotFound => SignInError::NotFound,
        StatusClass::Internal => SignInError::InternalError,
        _ => SignInError::Unknown,
    }
}

/// A body that the core may send with a 200 reply: when its status is
/// `"OK"` it describes the user.
pub open spec fn is_complete_sign_in_body(raw: SignInResponseRaw) -> bool {
    is_ok_status(raw.status@) ==> raw.user.is_some() && raw.recipe_user_id.is_some()
}

/// The outcome of a sign-in whose reply was 200: success only when the body
/// status is `"OK"`, wrong credentials otherwise.
pub fn sign_in_from_body(raw: SignInResponseRaw) -> (r: Result<SignInSuccess, SignInError>)
    requires
        is_complete_sign_in_body(raw),
    ensures
        is_ok_status(raw.status@) ==> r is Ok && r->Ok_0.user_id == raw.recipe_user_id->Some_0
            && r->Ok_0.user == raw.user->Some_0,
        !is_ok_status(raw.status@) ==> r == Err::<SignInSuccess, SignInError>(
            SignInError::WrongCredentials,
        ),
{
    if !crate::response::body_status_is_ok(&raw.status) {
        return Err(SignInError::WrongCredentials);
    }
    match (raw.user, raw.recipe_user_id) {
        (Some(user), Some(user_id)) => Ok(SignInSuccess { user, user_id }),
        _ => Err(SignInError::Unknown),
    }
}

/// The outcome of a sign-in from what came back: the HTTP status (`None`
/// when no reply came), the decoded body of a 200 reply, and the text of a
/// 400 reply, when it could be read.
pub fn sign_in_outcome(
    status: Option<u16>,
    body: Option<SignInResponseRaw>,
    text: Option<String>,
) -> (r: Result<SignInSuccess, SignInError>)
    requires
        status == Some(200u16) ==> body is Some && is_complete_sign_in_body(body->Some_0),
    ensures
        status == Some(200u16) && is_ok_status(body->Some_0.status@) ==> r is Ok
            && r->Ok_0.user_id == body->Some_0.recipe_user_id->Some_0 && r->Ok_0.user
            == body->Some_0.user->Some_0,
        status == Some(200u16) && !is_ok_status(body->Some_0.status@) ==> r == Err::<
            SignInSuccess,
            SignInError,
        >(SignInError::WrongCredentials),
        status != Some(200u16) ==> r is Err && is_sign_in_error_for(r->Err_0, status, text),
{
    match body {
        Some(raw) => {
            if status == Some(200u16) {
                return sign_in_from_body(raw);
            }
        },
        None => {},
    }
    Err(sign_in_error(status, text))
}

} // verus!
