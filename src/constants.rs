//! Endpoint paths, policy values and header names used by the client.
use vstd::prelude::*;

verus! {

/// Path of the published key set, relative to the core's base url.
pub const ENDPOINT_CORE_JWKS: &'static str = ".well-known/jwks.json";

/// Path of token issuance, relative to the application-scoped url.
pub const ENDPOINT_JWT: &'static str = "recipe/jwt";

/// Path of email/password sign-in, relative to the tenant-scoped url.
pub const ENDPOINT_RECIPE_SIGNIN: &'static str = "recipe/signin";

/// Path of role assignment, relative to the core's base url.
pub const ENDPOINT_ADD_ROLE_TO_USER: &'static str = "recipe/user/role";

/// Token validity, in seconds, when the caller gives none.
pub const DEFAULT_JWT_EXPIRATION_SECS: u64 = 86400;

/// Header naming the recipe that a request belongs to.
pub const HEADER_RID: &'static str = "rid";

/// Header carrying the core's API key.
pub const HEADER_API_KEY: &'static str = "api-key";

/// Header carrying the protocol version spoken with the core.
pub const HEADER_CDI_VERSION: &'static str = "cdi-version";

} // verus!
