use base64::prelude::{Engine, BASE64_STANDARD};
use http::header::{HeaderMap, HeaderValue, AUTHORIZATION};
use spark_connect_proxy::application::StatusCode;
use spark_connect_proxy::auth::{
    extract_bearer_token, plan_method, plan_methods, AuthMethod, AuthSetupError, AuthStep,
    CurrentUserAuth, JWKSAuth, JWTAuth, KeySetSource, MethodPlan, PemSource, PemType,
    RemoteUserAuth, TokenAlgorithms, TokenAuth, TokenKey, UserAuth,
};
use spark_connect_proxy::config::{AuthConfig, ProxyConfig};
use spark_connect_proxy::text_map::TextMap;

const ED_PEM: &str = "-----BEGIN PUBLIC KEY-----
MCowBQYDK2VwAyEA2+Jj2UvNCvQiUPNYRgSi0cJSPiJI6Rs6D0UTeEpQVj8=
-----END PUBLIC KEY-----
";

const RSA_PEM: &str = "-----BEGIN RSA PUBLIC KEY-----
MAYCAQMCAQU=
-----END RSA PUBLIC KEY-----
";

const EC_PEM: &str = "-----BEGIN PUBLIC KEY-----
MBowEwYHKoZIzj0CAQYIKoZIzj0DAQcDAwAEAQ==
-----END PUBLIC KEY-----
";

fn headers(entries: &[(&'static str, &str)]) -> HeaderMap {
    let mut headers = HeaderMap::new();
    for (name, value) in entries {
        headers.append(*name, value.parse().unwrap());
    }
    headers
}

fn unreadable(name: &'static str) -> HeaderMap {
    let mut headers = HeaderMap::new();
    headers.insert(name, HeaderValue::from_bytes(b"\xff").unwrap());
    headers
}

fn options(entries: &[(&str, &str)]) -> TextMap<String> {
    TextMap::from_entries(
        entries.iter().map(|(k, v)| (k.to_string(), v.to_string())).collect(),
    )
}

fn method(name: &str, entries: &[(&str, &str)]) -> AuthConfig {
    AuthConfig { name: name.to_string(), options: Some(options(entries)) }
}

fn remote(header: &str) -> AuthMethod<u8> {
    AuthMethod::RemoteUser(RemoteUserAuth { header: header.to_string() })
}

fn key_set(ids: &[(&str, u8)], audience: Option<&str>) -> AuthMethod<u8> {
    AuthMethod::Jwks(JWKSAuth {
        keys: TextMap::from_entries(ids.iter().map(|(id, key)| (id.to_string(), *key)).collect()),
        audience: audience.map(str::to_string),
    })
}

/// A token whose header is the given text.
fn token(header: &str) -> String {
    let part = BASE64_STANDARD.encode(header).replace('=', "").replace('+', "-").replace('/', "_");
    format!("{part}.e30.c2ln")
}

#[test]
fn tokens_to_verify_follow_the_word_bearer() {
    let given = headers(&[("authorization", "Bearer a.b.c")]);
    assert_eq!(extract_bearer_token(&given).unwrap(), Some("a.b.c"));
    let empty = headers(&[("authorization", "Bearer ")]);
    assert_eq!(extract_bearer_token(&empty).unwrap(), Some(""));
    let other = headers(&[("authorization", "Basic x")]);
    assert_eq!(extract_bearer_token(&other).unwrap(), None);
    let bare = headers(&[("authorization", "Bearer")]);
    assert_eq!(extract_bearer_token(&bare).unwrap(), None);
    assert_eq!(extract_bearer_token(&HeaderMap::new()).unwrap(), None);
    assert!(extract_bearer_token(&unreadable("authorization")).is_err());
}

#[test]
fn the_current_user_is_the_one_that_runs_the_server() {
    let user = CurrentUserAuth {}.authorize_user(&HeaderMap::new()).unwrap();
    assert_eq!(user, Some(whoami::username()));
}

#[test]
fn remote_users_are_named_by_their_header() {
    let auth = RemoteUserAuth::create(&options(&[("header", "REMOTE_USER")]));
    assert_eq!(auth.header, "REMOTE_USER");
    let named = headers(&[("remote_user", "alice")]);
    assert_eq!(auth.authorize_user(&named).unwrap(), Some("alice".to_string()));
    assert_eq!(auth.authorize_user(&HeaderMap::new()).unwrap(), None);
    assert_eq!(auth.authorize_user(&unreadable("remote_user")).unwrap(), None);

    let impossible = RemoteUserAuth { header: "not a header".to_string() };
    assert_eq!(impossible.authorize_user(&named).unwrap(), None);
}

#[test]
fn the_first_method_that_recognises_a_user_decides() {
    let auth = UserAuth { auth_methods: vec![remote("x-first"), remote("x-second")] };
    let both = headers(&[("x-second", "two"), ("x-first", "one")]);
    match auth.authorize(&both) {
        AuthStep::Allowed(user) => assert_eq!(user.0, "one"),
        _ => panic!("both name a user"),
    }
    match auth.authorize(&headers(&[("x-second", "two")])) {
        AuthStep::Allowed(user) => assert_eq!(user.0, "two"),
        _ => panic!("the second names a user"),
    }
    assert!(matches!(
        auth.authorize(&HeaderMap::new()),
        AuthStep::Refused(StatusCode::Unauthorized)
    ));
    let nobody: UserAuth<u8> = UserAuth { auth_methods: vec![] };
    assert!(matches!(nobody.authorize(&both), AuthStep::Refused(StatusCode::Unauthorized)));

    let fallback = UserAuth {
        auth_methods: vec![remote("x-first"), AuthMethod::CurrentUser(CurrentUserAuth {})],
    };
    match fallback.authorize(&HeaderMap::new()) {
        AuthStep::Allowed(user) => assert_eq!(user.0, whoami::username()),
        _ => panic!("the current user is always recognised"),
    }
}

#[test]
fn tokens_are_verified_before_later_methods_are_asked() {
    let key = match JWTAuth::create(PemType::Ed, ED_PEM) {
        Ok(method) => method,
        Err(e) => panic!("{}", e.message()),
    };
    let auth: UserAuth<u8> = UserAuth { auth_methods: vec![AuthMethod::Jwt(key), remote("x-user")] };
    let request = headers(&[("authorization", "Bearer a.b.c"), ("x-user", "alice")]);
    let check = match auth.authorize(&request) {
        AuthStep::Verify(check) => check,
        _ => panic!("the token is to be verified"),
    };
    assert_eq!(check.method, 0);
    assert_eq!(check.token, "a.b.c");
    assert!(matches!(check.key, TokenKey::Jwt(_)));
    assert_eq!(check.rule.algorithms, TokenAlgorithms::Default);
    assert_eq!(check.rule.audience, None);

    match auth.verified(&request, 0, Ok("bob".to_string())) {
        AuthStep::Allowed(user) => assert_eq!(user.0, "bob"),
        _ => panic!("the token was verified"),
    }
    match auth.verified(&request, 0, Err("expired".to_string())) {
        AuthStep::Allowed(user) => assert_eq!(user.0, "alice"),
        _ => panic!("the next method names a user"),
    }
    match auth.authorize(&headers(&[("x-user", "alice")])) {
        AuthStep::Allowed(user) => assert_eq!(user.0, "alice"),
        _ => panic!("there is no token"),
    }
}

#[test]
fn tokens_name_the_key_that_verifies_them() {
    let auth = UserAuth { auth_methods: vec![key_set(&[("one", 1), ("two", 2)], Some("me"))] };
    let bearer = |token: &str| headers(&[("authorization", &format!("Bearer {token}"))]);

    let named = bearer(&token(r#"{"alg":"RS256","kid":"two"}"#));
    match auth.authorize(&named) {
        AuthStep::Verify(check) => {
            match check.key {
                TokenKey::Jwks(key) => assert_eq!(*key, 2),
                TokenKey::Jwt(_) => panic!("there is a set of keys"),
            }
            assert_eq!(check.rule.algorithms, TokenAlgorithms::OfKey);
            assert_eq!(check.rule.audience, Some("me"));
        }
        _ => panic!("the key is known"),
    }
    for header in [r#"{"alg":"RS256"}"#, r#"{"alg":"RS256","kid":"three"}"#, "no header"] {
        assert!(matches!(
            auth.authorize(&bearer(&token(header))),
            AuthStep::Refused(StatusCode::Unauthorized)
        ));
    }
    assert!(matches!(
        auth.authorize(&bearer("no token")),
        AuthStep::Refused(StatusCode::Unauthorized)
    ));
}

#[test]
fn unverifiable_tokens_are_told_apart() {
    let set = JWKSAuth {
        keys: TextMap::from_entries(vec![("one".to_string(), 1u8)]),
        audience: None,
    };
    let bearer = |token: &str| headers(&[("authorization", &format!("Bearer {token}"))]);
    let known = token(r#"{"alg":"RS256","kid":"one"}"#);
    let (offered, key) = set.authorize_user(&bearer(&known)).unwrap().unwrap();
    assert_eq!(offered, known);
    assert_eq!(*key, 1);
    assert!(set.authorize_user(&HeaderMap::new()).unwrap().is_none());
    assert_eq!(
        set.authorize_user(&bearer(&token(r#"{"alg":"RS256"}"#))).unwrap_err().message(),
        "authorization error: jwt header should have a kid"
    );
    let reason = jsonwebtoken::decode_header("no token").unwrap_err();
    assert_eq!(
        set.authorize_user(&bearer("no token")).unwrap_err().message(),
        format!("authorization error: {reason}")
    );
    assert!(set.authorize_user(&unreadable("authorization")).is_err());
}

#[test]
fn keys_are_found_by_their_identifier() {
    let set = JWKSAuth {
        keys: TextMap::from_entries(vec![("one".to_string(), 1u8)]),
        audience: None,
    };
    assert_eq!(*set.find_key(Ok(Some("one".to_string()))).unwrap(), 1);
    assert_eq!(
        set.find_key(Ok(Some("two".to_string()))).unwrap_err().message(),
        "authorization error: jwt refer to a unknown key id"
    );
    assert_eq!(
        set.find_key(Ok(None)).unwrap_err().message(),
        "authorization error: jwt header should have a kid"
    );
    assert_eq!(
        set.find_key(Err("InvalidToken".to_string())).unwrap_err().message(),
        "authorization error: InvalidToken"
    );
}

#[test]
fn keys_are_read_by_their_kind() {
    assert!(JWTAuth::create(PemType::Ed, ED_PEM).is_ok());
    assert!(JWTAuth::create(PemType::Rsa, RSA_PEM).is_ok());
    assert!(JWTAuth::create(PemType::Ec, EC_PEM).is_ok());
    assert!(JWTAuth::create(PemType::Ec, RSA_PEM).is_err());
    assert!(JWTAuth::create(PemType::Ed, EC_PEM).is_err());
    for (kind, message) in [
        (PemType::Rsa, "Failed to load RSA pem"),
        (PemType::Ec, "Failed to load EC pem"),
    ] {
        match JWTAuth::create(kind, ED_PEM) {
            Err(e) => assert_eq!(e.message(), message),
            Ok(_) => panic!("the key is of another kind"),
        }
    }
    match JWTAuth::create(PemType::Ed, "no key") {
        Err(e) => assert_eq!(e.message(), "Failed to load ED pem"),
        Ok(_) => panic!("there is no key"),
    }
}

#[test]
fn methods_are_planned_by_their_options() {
    match plan_method(&method("jwt", &[("pem", "text"), ("pem_type", "ec")])).unwrap() {
        MethodPlan::Jwt { pem: PemSource::Inline(text), pem_type } => {
            assert_eq!(text, "text");
            assert_eq!(pem_type, PemType::Ec);
        }
        _ => panic!("the key is given"),
    }
    match plan_method(&method("jwt", &[("pem_file", "/key.pem")])).unwrap() {
        MethodPlan::Jwt { pem: PemSource::File(name), pem_type } => {
            assert_eq!(name, "/key.pem");
            assert_eq!(pem_type, PemType::Rsa);
        }
        _ => panic!("the key is in a file"),
    }
    match plan_method(&method("jwks", &[("jwks_url", "u"), ("audience", "me")])).unwrap() {
        MethodPlan::Jwks { keys: KeySetSource::JwksUrl(url), audience } => {
            assert_eq!(url, "u");
            assert_eq!(audience, Some("me".to_string()));
        }
        _ => panic!("the address is given"),
    }
    match plan_method(&method("jwks", &[("oidc_url", "o")])).unwrap() {
        MethodPlan::Jwks { keys: KeySetSource::OidcUrl(url), audience } => {
            assert_eq!(url, "o");
            assert_eq!(audience, None);
        }
        _ => panic!("the provider is given"),
    }
}

#[test]
fn methods_that_cannot_be_set_up_are_refused() {
    let cases = [
        (method("remote_user", &[]), "'header' option must be set for remote_user authentication"),
        (method("jwt", &[("pem", "a"), ("pem_file", "b")]), "pem and pem_file cannot both be defined"),
        (method("jwt", &[]), "One of pem or pem_file must be defined for JWT auth"),
        (method("jwt", &[("pem", "a"), ("pem_type", "dsa")]), "Unknown PEM type dsa"),
        (method("jwks", &[("jwks_url", "a"), ("oidc_url", "b")]), "JWKS and OIDC URL cannot both be specified"),
        (method("jwks", &[]), "Either jwks_url or oidc_url must be provided"),
        (method("ldap", &[]), "Unknown authentication method: ldap"),
        (AuthConfig { name: "remote_user".to_string(), options: None },
            "'header' option must be set for remote_user authentication"),
    ];
    for (config, message) in cases {
        match plan_method(&config) {
            Err(e) => assert_eq!(e.message(), message),
            Ok(_) => panic!("{message}"),
        }
    }
}

#[test]
fn configured_methods_keep_their_order() {
    let plans = plan_methods(&ProxyConfig::default()).unwrap();
    assert_eq!(plans.len(), 1);
    assert!(matches!(plans[0], MethodPlan::CurrentUser));

    let config = ProxyConfig {
        auth_methods: Some(vec![
            method("jwks", &[("jwks_url", "u")]),
            method("remote_user", &[("header", "X-User")]),
        ]),
        ..Default::default()
    };
    let plans = plan_methods(&config).unwrap();
    assert_eq!(plans.len(), 2);
    assert!(matches!(plans[0], MethodPlan::Jwks { .. }));
    assert!(matches!(&plans[1], MethodPlan::RemoteUser(remote) if remote.header == "X-User"));

    let broken = ProxyConfig {
        auth_methods: Some(vec![
            method("remote_user", &[("header", "X-User")]),
            method("ldap", &[]),
            method("jwt", &[]),
        ]),
        ..Default::default()
    };
    assert!(matches!(
        plan_methods(&broken),
        Err(AuthSetupError::UnknownMethod(name)) if name == "ldap"
    ));
    let none = ProxyConfig { auth_methods: Some(vec![]), ..Default::default() };
    assert_eq!(plan_methods(&none).unwrap().len(), 0);
}

#[test]
fn sessions_are_told_by_their_tokens() {
    let auth = TokenAuth {};
    assert_eq!(auth.authorize(&headers(&[("authorization", "Bearer a b")])).unwrap().0, "a b");
    assert_eq!(auth.authorize(&headers(&[("authorization", "Bearer ")])).unwrap().0, "");
    assert_eq!(auth.authorize(&HeaderMap::new()).unwrap_err().as_u16(), 401);
    assert_eq!(auth.authorize(&headers(&[("authorization", "Bearer")])).unwrap_err().as_u16(), 401);
    assert_eq!(auth.authorize(&headers(&[("authorization", "Token x")])).unwrap_err().as_u16(), 401);
    let mut unreadable = HeaderMap::new();
    unreadable.insert(AUTHORIZATION, HeaderValue::from_bytes(b"Bearer \xff").unwrap());
    assert_eq!(auth.authorize(&unreadable).unwrap_err().as_u16(), 400);
}

#[test]
fn the_current_user_is_recognised_after_a_token_fails() {
    let auth: UserAuth<u8> = UserAuth {
        auth_methods: vec![
            key_set(&[("k", 1)], None),
            AuthMethod::CurrentUser(CurrentUserAuth {}),
        ],
    };
    match auth.authorize_as(&headers(&[]), "operator") {
        AuthStep::Allowed(user) => assert_eq!(user.0, "operator"),
        _ => panic!("the current user is always recognised"),
    }
    match auth.verified_as(&headers(&[]), 0, Err("expired".to_string()), "operator") {
        AuthStep::Allowed(user) => assert_eq!(user.0, "operator"),
        _ => panic!("the current user is always recognised"),
    }
    match auth.verified_as(&headers(&[]), 0, Ok("alice".to_string()), "operator") {
        AuthStep::Allowed(user) => assert_eq!(user.0, "alice"),
        _ => panic!("the subject is the user"),
    }
}
