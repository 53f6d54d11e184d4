use supertokens_rust::config::{Recipe, SuperTokens};
use supertokens_rust::headers::is_valid_header_value;
use supertokens_rust::recipe::email_password::{
    sign_in_error, sign_in_from_body, sign_in_outcome, SignInError, SignInResponseRaw, ThirdParty, User,
};
use supertokens_rust::recipe::jwt::{
    jwks_outcome, jwks_url, jwt_error_from_status, jwt_from_body, token_outcome, token_request,
    token_url,
    validity_seconds, Jwk, Jwks, JwksError, JwtCreationError, JwtCreationRequest,
    JwtResponsePayload,
};
use supertokens_rust::response::{body_status_is_ok, classify_status, StatusClass};
use supertokens_rust::roles::{
    add_role_error, add_role_from_body, add_role_outcome, add_role_url, AddRoleToUserError, AddRoleToUserRequest,
    AddRoleToUserResponse,
};

fn config() -> SuperTokens {
    SuperTokens {
        app_id: "app1".to_string(),
        tenant_id: "tenant1".to_string(),
        core_domain: "http://localhost:3567".to_string(),
        api_key: "key-123".to_string(),
        cdi_version: "4.0".to_string(),
    }
}

fn user(id: &str) -> User {
    User {
        id: id.to_string(),
        is_primary_user: false,
        tenant_ids: vec!["public".to_string()],
        time_joined: 1700000000000,
        emails: vec!["hello@mail.com".to_string()],
        phone_numbers: vec![],
        third_party: vec![ThirdParty { id: "google".to_string(), user_id: "g1".to_string() }],
        login_methods: vec![],
    }
}

#[test]
fn default_config_values() {
    let st = SuperTokens::default();
    assert_eq!(st.app_id, "public");
    assert_eq!(st.tenant_id, "public");
    assert_eq!(st.core_domain, "");
    assert_eq!(st.api_key, "");
    assert_eq!(st.cdi_version, "4.0");
}

#[test]
fn application_scoped_url() {
    assert_eq!(config().get_url("recipe/jwt"), "http://localhost:3567/appid-app1/recipe/jwt");
}

#[test]
fn tenant_scoped_url() {
    assert_eq!(
        config().get_url_with_tenant("recipe/signin"),
        "http://localhost:3567/appid-app1/tenant1/recipe/signin"
    );
}

#[test]
fn default_tenant_scoped_url() {
    let st = SuperTokens::default();
    assert_eq!(
        st.get_url_with_tenant("recipe/user/metadata"),
        "/appid-public/public/recipe/user/metadata"
    );
}

#[test]
fn headers_with_recipe() {
    let h = config().get_headers(Some(Recipe::EmailPassword));
    assert_eq!(h.len(), 3);
    assert_eq!(h.get("rid").unwrap(), "emailpassword");
    assert_eq!(h.get("api-key").unwrap(), "key-123");
    assert_eq!(h.get("cdi-version").unwrap(), "4.0");
}

#[test]
fn headers_name_each_recipe() {
    let st = config();
    let cases = [
        (Recipe::EmailPassword, "emailpassword"),
        (Recipe::PasswordLess, "passwordless"),
        (Recipe::ThirdParty, "thirdparty"),
        (Recipe::Jwt, "jwt"),
    ];
    for (recipe, rid) in cases {
        assert_eq!(recipe.rid(), rid);
        assert_eq!(st.get_headers(Some(recipe)).get("rid").unwrap(), rid);
    }
}

#[test]
fn headers_without_recipe() {
    let h = config().get_headers(None);
    assert_eq!(h.len(), 2);
    assert!(h.get("rid").is_none());
    assert_eq!(h.get("api-key").unwrap(), "key-123");
    assert_eq!(h.get("cdi-version").unwrap(), "4.0");
}

#[test]
fn header_value_validity() {
    assert!(is_valid_header_value("key-123 with space\tand tab"));
    assert!(is_valid_header_value(""));
    assert!(!is_valid_header_value("line\nbreak"));
    assert!(!is_valid_header_value("del\u{7f}"));
    let mut st = config();
    assert!(st.has_valid_header_values());
    st.api_key = "bad\rkey".to_string();
    assert!(!st.has_valid_header_values());
}

#[test]
fn status_classes() {
    assert_eq!(classify_status(Some(200)), StatusClass::Success);
    assert_eq!(classify_status(Some(400)), StatusClass::BadRequest);
    assert_eq!(classify_status(Some(401)), StatusClass::InvalidApiKey);
    assert_eq!(classify_status(Some(404)), StatusClass::NotFound);
    assert_eq!(classify_status(Some(500)), StatusClass::Internal);
    for code in [201u16, 204, 301, 403, 418, 502, 503] {
        assert_eq!(classify_status(Some(code)), StatusClass::Unknown);
    }
    assert_eq!(classify_status(None), StatusClass::Unknown);
}

#[test]
fn body_status_ok_is_exact() {
    assert!(body_status_is_ok(&"OK".to_string()));
    assert!(!body_status_is_ok(&"ok".to_string()));
    assert!(!body_status_is_ok(&"OK ".to_string()));
    assert!(!body_status_is_ok(&"WRONG_CREDENTIALS_ERROR".to_string()));
}

#[test]
fn sign_in_success_has_user_id() {
    let raw = SignInResponseRaw {
        status: "OK".to_string(),
        user: Some(user("fa7a0841-b533-4478-95533-0fde890c3483")),
        recipe_user_id: Some("fa7a0841-b533-4478-95533-0fde890c3483".to_string()),
    };
    let ok = sign_in_from_body(raw).ok().expect("success");
    assert!(!ok.user_id.is_empty());
    assert_eq!(ok.user_id, "fa7a0841-b533-4478-95533-0fde890c3483");
    assert_eq!(ok.user.id, "fa7a0841-b533-4478-95533-0fde890c3483");
}

#[test]
fn sign_in_wrong_credentials() {
    let raw = SignInResponseRaw {
        status: "WRONG_CREDENTIALS".to_string(),
        user: None,
        recipe_user_id: None,
    };
    assert!(matches!(sign_in_from_body(raw), Err(SignInError::WrongCredentials)));
    let raw = SignInResponseRaw {
        status: "SOMETHING_ELSE".to_string(),
        user: Some(user("u1")),
        recipe_user_id: Some("u1".to_string()),
    };
    assert!(matches!(sign_in_from_body(raw), Err(SignInError::WrongCredentials)));
}

#[test]
fn sign_in_status_errors() {
    match sign_in_error(Some(400), Some("email missing".to_string())) {
        SignInError::BadRequest(m) => assert_eq!(m, "email missing"),
        other => panic!("unexpected {:?}", other),
    }
    match sign_in_error(Some(400), None) {
        SignInError::BadRequest(m) => assert_eq!(m, "Bad Request"),
        other => panic!("unexpected {:?}", other),
    }
    assert!(matches!(sign_in_error(Some(401), None), SignInError::InvalidApiKey));
    assert!(matches!(sign_in_error(Some(404), Some("x".to_string())), SignInError::NotFound));
    assert!(matches!(sign_in_error(Some(500), None), SignInError::InternalError));
    assert!(matches!(sign_in_error(Some(503), None), SignInError::Unknown));
    assert!(matches!(sign_in_error(None, None), SignInError::Unknown));
}

#[test]
fn token_request_default_validity() {
    let req = token_request(&config(), 7u8, None);
    assert_eq!(req.validity, 86400);
    assert_eq!(req.algorithm, "RS256");
    assert_eq!(req.jwks_domain, "http://localhost:3567");
    assert!(req.use_static_signing_key);
    assert_eq!(req.payload, 7u8);
}

#[test]
fn token_request_given_validity() {
    assert_eq!(token_request(&config(), (), Some(3600)).validity, 3600);
    assert_eq!(validity_seconds(None), 86400);
    assert_eq!(validity_seconds(Some(0)), 0);
    assert_eq!(validity_seconds(Some(4294967295)), 4294967295);
    assert_eq!(validity_seconds(Some(4294967296 + 5)), 4294967295);
}

#[test]
fn jwt_creation_request_new() {
    let req = JwtCreationRequest::new("claims", "https://api.test.com/", 60);
    assert_eq!(req.algorithm, "RS256");
    assert_eq!(req.jwks_domain, "https://api.test.com/");
    assert_eq!(req.validity, 60);
    assert!(req.use_static_signing_key);
    assert_eq!(req.payload, "claims");
}

#[test]
fn token_issuance_url() {
    assert_eq!(token_url(&config()), "http://localhost:3567/appid-app1/recipe/jwt");
}

#[test]
fn jwt_body_outcomes() {
    let ok = JwtResponsePayload { status: "OK".to_string(), jwt: Some("a.b.c".to_string()) };
    assert_eq!(jwt_from_body(ok).ok(), Some("a.b.c".to_string()));
    let bad = JwtResponsePayload {
        status: "UNSUPPORTED_ALGORITHM_ERROR".to_string(),
        jwt: None,
    };
    assert!(matches!(jwt_from_body(bad), Err(JwtCreationError::UnsupportedAlgorithm)));
}

#[test]
fn jwt_status_errors() {
    match jwt_error_from_status(Some(400), Some("email missing".to_string())) {
        JwtCreationError::BadRequest(m) => assert_eq!(m, "email missing"),
        other => panic!("unexpected {:?}", other),
    }
    match jwt_error_from_status(Some(400), None) {
        JwtCreationError::BadRequest(m) => assert_eq!(m, "Bad Request"),
        other => panic!("unexpected {:?}", other),
    }
    assert!(matches!(jwt_error_from_status(Some(401), None), JwtCreationError::Unknown));
    assert!(matches!(jwt_error_from_status(Some(404), None), JwtCreationError::NotFound));
    assert!(matches!(jwt_error_from_status(Some(500), None), JwtCreationError::InternalError));
    assert!(matches!(jwt_error_from_status(Some(418), None), JwtCreationError::Unknown));
    assert!(matches!(jwt_error_from_status(None, None), JwtCreationError::Unknown));
}

#[test]
fn token_outcomes() {
    let ok = JwtResponsePayload { status: "OK".to_string(), jwt: Some("a.b.c".to_string()) };
    assert_eq!(token_outcome(Some(200), Some(ok), None).ok(), Some("a.b.c".to_string()));
    let bad = JwtResponsePayload { status: "UNSUPPORTED_ALGORITHM_ERROR".to_string(), jwt: None };
    assert!(matches!(
        token_outcome(Some(200), Some(bad), None),
        Err(JwtCreationError::UnsupportedAlgorithm)
    ));
    match token_outcome(Some(400), None, Some("invalid payload".to_string())) {
        Err(JwtCreationError::BadRequest(m)) => assert_eq!(m, "invalid payload"),
        other => panic!("unexpected {:?}", other),
    }
    let ignored = JwtResponsePayload { status: "OK".to_string(), jwt: Some("x".to_string()) };
    assert!(matches!(
        token_outcome(Some(500), Some(ignored), None),
        Err(JwtCreationError::InternalError)
    ));
    assert!(matches!(token_outcome(Some(404), None, None), Err(JwtCreationError::NotFound)));
    assert!(matches!(token_outcome(None, None, None), Err(JwtCreationError::Unknown)));
}

#[test]
fn key_set_url() {
    assert_eq!(jwks_url("http://localhost:3567/"), "http://localhost:3567/.well-known/jwks.json");
}

#[test]
fn key_set_outcomes() {
    let keys = Jwks {
        keys: vec![Jwk {
            alg: "RS256".to_string(),
            kty: "RSA".to_string(),
            key_use: "sig".to_string(),
            kid: "s-1".to_string(),
            x5c: vec!["MIIC".to_string()],
        }],
    };
    let got = jwks_outcome(Some(200), Some(keys)).ok().expect("keys");
    assert_eq!(got.keys.len(), 1);
    assert_eq!(got.keys[0].kid, "s-1");
    assert_eq!(jwks_outcome(Some(200), None).err(), Some(JwksError::ResponseFormat));
    assert_eq!(jwks_outcome(Some(500), None).err(), Some(JwksError::Internal));
    assert_eq!(jwks_outcome(Some(503), None).err(), Some(JwksError::Unknown));
    assert_eq!(jwks_outcome(Some(501), None).err(), Some(JwksError::Unknown));
    assert_eq!(jwks_outcome(Some(404), None).err(), Some(JwksError::Unknown));
    assert_eq!(jwks_outcome(None, None).err(), Some(JwksError::Unknown));
}

#[test]
fn role_request_and_url() {
    let req = AddRoleToUserRequest::new("admin", "user-1");
    assert_eq!(req.role, "admin");
    assert_eq!(req.user_id, "user-1");
    assert_eq!(add_role_url("http://localhost:3567/"), "http://localhost:3567/recipe/user/role");
}

#[test]
fn role_already_held_and_new() {
    let held = AddRoleToUserResponse {
        status: "OK".to_string(),
        did_user_already_have_role: Some(true),
    };
    assert!(matches!(add_role_from_body(held), Ok(true)));
    let fresh = AddRoleToUserResponse {
        status: "OK".to_string(),
        did_user_already_have_role: Some(false),
    };
    assert!(matches!(add_role_from_body(fresh), Ok(false)));
    let unknown = AddRoleToUserResponse {
        status: "UNKNOWN_ROLE_ERROR".to_string(),
        did_user_already_have_role: None,
    };
    assert!(matches!(add_role_from_body(unknown), Err(AddRoleToUserError::UnknownRole)));
}

#[test]
fn role_status_errors() {
    match add_role_error(Some(400), Some("bad input".to_string())) {
        AddRoleToUserError::BadRequest(m) => assert_eq!(m, "bad input"),
        other => panic!("unexpected {:?}", other),
    }
    match add_role_error(Some(400), None) {
        AddRoleToUserError::BadRequest(m) => assert_eq!(m, "Bad Request"),
        other => panic!("unexpected {:?}", other),
    }
    assert!(matches!(add_role_error(Some(401), None), AddRoleToUserError::InvalidApiKey));
    assert!(matches!(add_role_error(Some(404), None), AddRoleToUserError::UserNotFound));
    assert!(matches!(add_role_error(Some(500), None), AddRoleToUserError::InternalError));
    assert!(matches!(add_role_error(Some(302), None), AddRoleToUserError::Unknown));
    assert!(matches!(add_role_error(None, None), AddRoleToUserError::Unknown));
}

#[test]
fn role_outcomes() {
    let held = AddRoleToUserResponse {
        status: "OK".to_string(),
        did_user_already_have_role: Some(true),
    };
    assert!(matches!(add_role_outcome(Some(200), Some(held), None), Ok(true)));
    let fresh = AddRoleToUserResponse {
        status: "OK".to_string(),
        did_user_already_have_role: Some(false),
    };
    assert!(matches!(add_role_outcome(Some(200), Some(fresh), None), Ok(false)));
    let unknown = AddRoleToUserResponse {
        status: "UNKNOWN_ROLE_ERROR".to_string(),
        did_user_already_have_role: None,
    };
    assert!(matches!(
        add_role_outcome(Some(200), Some(unknown), None),
        Err(AddRoleToUserError::UnknownRole)
    ));
    match add_role_outcome(Some(400), None, Some("role missing".to_string())) {
        Err(AddRoleToUserError::BadRequest(m)) => assert_eq!(m, "role missing"),
        other => panic!("unexpected {:?}", other),
    }
    assert!(matches!(
        add_role_outcome(Some(401), None, None),
        Err(AddRoleToUserError::InvalidApiKey)
    ));
    assert!(matches!(add_role_outcome(Some(599), None, None), Err(AddRoleToUserError::Unknown)));
}

#[test]
fn sign_in_outcomes() {
    let raw = SignInResponseRaw {
        status: "OK".to_string(),
        user: Some(user("u-42")),
        recipe_user_id: Some("u-42".to_string()),
    };
    match sign_in_outcome(Some(200), Some(raw), None) {
        Ok(s) => {
            assert!(!s.user_id.is_empty());
            assert_eq!(s.user_id, "u-42");
        }
        Err(e) => panic!("unexpected {:?}", e),
    }
    let wrong = SignInResponseRaw {
        status: "WRONG_CREDENTIALS".to_string(),
        user: None,
        recipe_user_id: None,
    };
    assert!(matches!(
        sign_in_outcome(Some(200), Some(wrong), None),
        Err(SignInError::WrongCredentials)
    ));
    match sign_in_outcome(Some(400), None, Some("password missing".to_string())) {
        Err(SignInError::BadRequest(m)) => assert_eq!(m, "password missing"),
        Err(other) => panic!("unexpected {:?}", other),
        Ok(_) => panic!("unexpected success"),
    }
    assert!(matches!(sign_in_outcome(Some(401), None, None), Err(SignInError::InvalidApiKey)));
    assert!(matches!(sign_in_outcome(Some(404), None, None), Err(SignInError::NotFound)));
    assert!(matches!(sign_in_outcome(Some(500), None, None), Err(SignInError::InternalError)));
    assert!(matches!(sign_in_outcome(Some(502), None, None), Err(SignInError::Unknown)));
    assert!(matches!(sign_in_outcome(None, None, None), Err(SignInError::Unknown)));
}

#[test]
fn transport_failure_is_unknown_sign_in_error() {
    let err = reqwest::Client::new().get("not a url").build().err().expect("invalid url");
    assert!(matches!(SignInError::from(err), SignInError::Unknown));
}
