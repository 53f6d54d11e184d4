//! Role assignment: the request and the reading of the reply.
use crate::constants::ENDPOINT_ADD_ROLE_TO_USER;
use crate::response::{classify_status, is_ok_status, status_class, StatusClass};
use vstd::prelude::*;
use vstd::string::*;

verus! {

/// Body of a request that adds a role to a user.
pub struct AddRoleToUserRequest {
    pub user_id: String,
    pub role: String,
}

impl AddRoleToUserRequest {
    pub fn new(role: &str, user_id: &str) -> (r: Self)
        ensures
            r.role@ == role@,
            r.user_id@ == user_id@,
    {
        Self { role: String::from_str(role), user_id: String::from_str(user_id) }
    }
}

/// Body of a 200 reply to a role assignment.
pub struct AddRoleToUserResponse {
    pub status: String,
    pub did_user_already_have_role: Option<bool>,
}

/// Why a role assignment failed.
#[derive(Debug)]
pub enum AddRoleToUserError {
    /// Carries the body of the core's reply.
    BadRequest(String),
    InvalidApiKey,
    UserNotFound,
    /// The reply was 200 but its body status was not `"OK"`.
    UnknownRole,
    InternalError,
    Unknown,
}

/// Url of role assignment, appended to the core's raw base url.
pub fn add_role_url(core_url: &str) -> (r: String)
    ensures
        r@ == core_url@ + "recipe/user/role"@,
{
    let mut url = String::from_str(core_url);
    url.append(ENDPOINT_ADD_ROLE_TO_USER);
    url
}

/// The error that a role assignment gives for a reply that was not 200
/// (`status` is `None` when no reply came); `text` is the body of a 400
/// reply, when it could be read.
pub open spec fn is_add_role_error_for(
    r: AddRoleToUserError,
    status: Option<u16>,
    text: Option<String>,
) -> bool {
    match status_class(status) {
        StatusClass::BadRequest => r is BadRequest && r->BadRequest_0@ == match text {
            Some(t) => t@,
            None => "Bad Request"@,
        },
        StatusClass::InvalidApiKey => r == AddRoleToUserError::InvalidApiKey,
        StatusClass::NotFound => r == AddRoleToUserError::UserNotFound,
        StatusClass::Internal => r == AddRoleToUserError::InternalError,
        _ => r == AddRoleToUserError::Unknown,
    }
}

/// The error of a role assignment whose reply was not 200, or that got no
/// reply (`status` is `None`); `text` is the body of a 400 reply, when it
/// could be read.
pub fn add_role_error(status: Option<u16>, text: Option<String>) -> (r: AddRoleToUserError)
    ensures
        is_add_role_error_for(r, status, text),
{
    match classify_status(status) {
        StatusClass::BadRequest => AddRoleToUserError::BadRequest(
            match text {
                Some(t) => t,
                None => String::from_str("Bad Request"),
            },
        ),
        StatusClass::InvalidApiKey => AddRoleToUserError::InvalidApiKey,
        StatusClass::NotFound => AddRoleToUserError::UserNotFound,
        StatusClass::Internal => AddRoleToUserError::InternalError,
        _ => AddRoleToUserError::Unknown,
    }
}

/// A body that the core may send with a 200 reply: when its status is
/// `"OK"` it tells whether the user had the role.
pub open spec fn is_complete_role_body(resp: AddRoleToUserResponse) -> bool {
    is_ok_status(resp.status@) ==> resp.did_user_already_have_role.is_some()
}

/// The outcome of a role assignment whose reply was 200: whether the user
/// already had the role when the body status is `"OK"`, an unknown role
/// otherwise.
pub fn add_role_from_body(resp: AddRoleToUserResponse) -> (r: Result<bool, AddRoleToUserError>)
    requires
        is_complete_role_body(resp),
    ensures
        is_ok_status(resp.status@) ==> r == Ok::<bool, AddRoleToUserError>(
            resp.did_user_already_have_role->Some_0,
        ),
        !is_ok_status(resp.status@) ==> r == Err::<bool, AddRoleToUserError>(
            AddRoleToUserError::UnknownRole,
        ),
{
    if !crate::response::body_status_is_ok(&resp.status) {
        return Err(AddRoleToUserError::UnknownRole);
    }
    match resp.did_user_already_have_role {
        Some(had) => Ok(had),
        None => Err(AddRoleToUserError::Unknown),
    }
}

/// The outcome of a role assignment from what came back: the HTTP status
/// (`None` when no reply came), the decoded body of a 200 reply, and the
/// text of a 400 reply, when it could be read.
pub fn add_role_outcome(
    status: Option<u16>,
    body: Option<AddRoleToUserResponse>,
    text: Option<String>,
) -> (r: Result<bool, AddRoleToUserError>)
    requires
        status == Some(200u16) ==> body is Some && is_complete_role_body(body->Some_0),
    ensures
        status == Some(200u16) && is_ok_status(body->Some_0.status@) ==> r == Ok::<
            bool,
            AddRoleToUserError,
        >(body->Some_0.did_user_already_have_role->Some_0),
        status == Some(200u16) && !is_ok_status(body->Some_0.status@) ==> r == Err::<
            bool,
            AddRoleToUserError,
        >(AddRoleToUserError::UnknownRole),
        status != Some(200u16) ==> r is Err && is_add_role_error_for(r->Err_0, status, text),
{
    match body {
        Some(resp) => {
            if status == Some(200u16) {
                return add_role_from_body(resp);
            }
        },
        None => {},
    }
    Err(add_role_error(status, text))
}

} // verus!
