//! Token issuance and key retrieval: the requests and the reading of replies.
use crate::config::{app_url, SuperTokens};
use crate::constants::{DEFAULT_JWT_EXPIRATION_SECS, ENDPOINT_CORE_JWKS, ENDPOINT_JWT};
use crate::response::{classify_status, is_ok_status, status_class, StatusClass};
use vstd::prelude::*;
use vstd::string::*;

verus! {

/// Body of a token issuance request, with the custom claims type `T`.
pub struct JwtCreationRequest<T> {
    /// The claims of the token, a JSON object once serialised.
    pub payload: T,
    /// The signing algorithm.
    pub algorithm: String,
    /// The issuer claim of the token.
    pub jwks_domain: String,
    /// Seconds from issuance until the token expires.
    pub validity: u32,
    /// Whether the token is signed with a static key rather than a dynamic one.
    pub use_static_signing_key: bool,
}

impl<T> JwtCreationRequest<T> {
    /// A request signed with RS256 and a static key.
    pub fn new(payload: T, domain: &str, expiration_time_seconds: u32) -> (r: Self)
        ensures
            r.payload == payload,
            r.algorithm@ == "RS256"@,
            r.jwks_domain@ == domain@,
            r.validity == expiration_time_seconds,
            r.use_static_signing_key,
    {
        Self {
            algorithm: String::from_str("RS256"),
            validity: expiration_time_seconds,
            jwks_domain: String::from_str(domain),
            use_static_signing_key: true,
            payload,
        }
    }
}

/// The validity sent for an optional expiration, in seconds: the default
/// when none is given, else the seconds given, held at the largest `u32`.
pub open spec fn validity_spec(expiration_secs: Option<u64>) -> u32 {
    match expiration_secs {
        Some(s) => if s <= u32::MAX {
            s as u32
        } else {
            u32::MAX
        },
        None => 86400,
    }
}

/// The validity to send for an optional expiration given in seconds.
pub fn validity_seconds(expiration_secs: Option<u64>) -> (r: u32)
    ensures
        r == validity_spec(expiration_secs),
{
    let secs = match expiration_secs {
        Some(s) => s,
        None => DEFAULT_JWT_EXPIRATION_SECS,
    };
    if secs <= u32::MAX as u64 {
        secs as u32
    } else {
        u32::MAX
    }
}

/// The body of a token issuance for `payload`: issued by the configured
/// domain, valid for the given seconds or by default for a day.
pub fn token_request<T>(st: &SuperTokens, payload: T, expiration_secs: Option<u64>) -> (r:
    JwtCreationRequest<T>)
    ensures
        r.payload == payload,
        r.algorithm@ == "RS256"@,
        r.jwks_domain@ == st.core_domain@,
        r.validity == validity_spec(expiration_secs),
        r.use_static_signing_key,
{
    JwtCreationRequest::new(payload, st.core_domain.as_str(), validity_seconds(expiration_secs))
}

/// Url of token issuance for a configuration.
pub fn token_url(st: &SuperTokens) -> (r: String)
    ensures
        r@ == app_url(st.core_domain@, st.app_id@, "recipe/jwt"@),
{
    proof {
        reveal_strlit("recipe/jwt");
    }
    st.get_url(ENDPOINT_JWT)
}

/// Why a token issuance failed.
#[derive(Debug)]
pub enum JwtCreationError {
    BadRequest(String),
    /// The reply was 200 but its body status was not `"OK"`.
    UnsupportedAlgorithm,
    NotFound,
    InternalError,
    Unknown,
}

/// Body of a 200 reply to a token issuance.
#[derive(Debug)]
pub struct JwtResponsePayload {
    pub status: String,
    pub jwt: Option<String>,
}

/// The error that a token issuance gives for a reply that was not 200
/// (`status` is `None` when no reply came); `text` is the body of a 400
/// reply, when it could be read. Unlike the other operations, a 401 here is
/// unknown.
pub open spec fn is_jwt_error_for(
    r: JwtCreationError,
    status: Option<u16>,
    text: Option<String>,
) -> bool {
    match status_class(status) {
        StatusClass::BadRequest => r is BadRequest && r->BadRequest_0@ == match text {
            Some(t) => t@,
            None => "Bad Request"@,
        },
        StatusClass::NotFound => r == JwtCreationError::NotFound,
        StatusClass::Internal => r == JwtCreationError::InternalError,
        _ => r == JwtCreationError::Unknown,
    }
}

/// The error of a token issuance whose reply was not 200, or that got no
/// reply (`status` is `None`); `text` is the body of a 400 reply, when it
/// could be read.
pub fn jwt_error_from_status(status: Option<u16>, text: Option<String>) -> (r: JwtCreationError)
    ensures
        is_jwt_error_for(r, status, text),
{
    match classify_status(status) {
        StatusClass::BadRequest => JwtCreationError::BadRequest(
            match text {
                Some(t) => t,
                None => String::from_str("Bad Request"),
            },
        ),
        StatusClass::NotFound => JwtCreationError::NotFound,
        StatusClass::Internal => JwtCreationError::InternalError,
        _ => JwtCreationError::Unknown,
    }
}

/// A body that the core may send with a 200 reply: when its status is
/// `"OK"` it holds the token.
pub open spec fn is_complete_jwt_body(raw: JwtResponsePayload) -> bool {
    is_ok_status(raw.status@) ==> raw.jwt.is_some()
}

/// The outcome of a token issuance whose reply was 200: the token when the
/// body status is `"OK"`, an unsupported algorithm otherwise.
pub fn jwt_from_body(raw: JwtResponsePayload) -> (r: Result<String, JwtCreationError>)
    requires
        is_complete_jwt_body(raw),
    ensures
        is_ok_status(raw.status@) ==> r == Ok::<String, JwtCreationError>(raw.jwt->Some_0),
        !is_ok_status(raw.status@) ==> r == Err::<String, JwtCreationError>(
            JwtCreationError::UnsupportedAlgorithm,
        ),
{
    if !crate::response::body_status_is_ok(&raw.status) {
        return Err(JwtCreationError::UnsupportedAlgorithm);
    }
    match raw.jwt {
        Some(jwt) => Ok(jwt),
        None => Err(JwtCreationError::Unknown),
    }
}

/// The outcome of a token issuance from what came back: the HTTP status
/// (`None` when no reply came), the decoded body of a 200 reply, and the
/// text of a 400 reply, when it could be read.
pub fn token_outcome(
    status: Option<u16>,
    body: Option<JwtResponsePayload>,
    text: Option<String>,
) -> (r: Result<String, JwtCreationError>)
    requires
        status == Some(200u16) ==> body is Some && is_complete_jwt_body(body->Some_0),
    ensures
        status == Some(200u16) && is_ok_status(body->Some_0.status@) ==> r == Ok::<
            String,
            JwtCreationError,
        >(body->Some_0.jwt->Some_0),
        status == Some(200u16) && !is_ok_status(body->Some_0.status@) ==> r == Err::<
            String,
            JwtCreationError,
        >(JwtCreationError::UnsupportedAlgorithm),
        status != Some(200u16) ==> r is Err && is_jwt_error_for(r->Err_0, status, text),
{
    match body {
        Some(raw) => {
            if status == Some(200u16) {
                return jwt_from_body(raw);
            }
        },
        None => {},
    }
    Err(jwt_error_from_status(status, text))
}

/// The published key set of the core.
#[derive(Debug, Clone)]
pub struct Jwks {
    pub keys: Vec<Jwk>,
}

/// A key that can verify a token.
#[derive(Debug, Clone)]
pub struct Jwk {
    /// The algorithm used with the key, usually RS256.
    pub alg: String,
    /// The family of algorithms used with the key.
    pub kty: String,
    /// What the key is for; `sig` is signing.
    pub key_use: String,
    /// The key's identifier.
    pub kid: String,
    /// The x.509 certificate chain; the first entry verifies tokens, the
    /// others verify the first.
    pub x5c: Vec<String>,
}

/// Why retrieving the key set failed.
#[derive(Debug, Clone, Copy, PartialEq, Eq, Structural)]
pub enum JwksError {
    NotFound,
    /// The core answered 500.
    Internal,
    /// The reply body did not describe a key set.
    ResponseFormat,
    Unknown,
}

/// Url of the key set, appended to the core's raw base url.
pub fn jwks_url(core_url: &str) -> (r: String)
    ensures
        r@ == core_url@ + ".well-known/jwks.json"@,
{
    let mut url = String::from_str(core_url);
    url.append(ENDPOINT_CORE_JWKS);
    url
}

/// The outcome of a key retrieval from what came back: the HTTP status
/// (`None` when no reply came) and, for a 200 reply, its body decoded as a
/// key set (`None` when it is not one). Only 500 is internal.
pub fn jwks_outcome(status: Option<u16>, decoded: Option<Jwks>) -> (r: Result<Jwks, JwksError>)
    ensures
        status == Some(200u16) && decoded is Some ==> r == Ok::<Jwks, JwksError>(
            decoded->Some_0,
        ),
        status == Some(200u16) && decoded is None ==> r == Err::<Jwks, JwksError>(
            JwksError::ResponseFormat,
        ),
        status == Some(500u16) ==> r == Err::<Jwks, JwksError>(JwksError::Internal),
        status != Some(200u16) && status != Some(500u16) ==> r == Err::<Jwks, JwksError>(
            JwksError::Unknown,
        ),
{
    match classify_status(status) {
        StatusClass::Success => match decoded {
            Some(keys) => Ok(keys),
            None => Err(JwksError::ResponseFormat),
        },
        StatusClass::Internal => Err(JwksError::Internal),
        _ => Err(JwksError::Unknown),
    }
}

} // verus!
