use base64::prelude::{Engine, BASE64_STANDARD};
use http::header::HeaderMap;
use spark_connect_proxy::application::StatusCode;
use spark_connect_proxy::auth::{AuthSetupError, CurrentUserAuth, RemoteUserAuth};
use spark_connect_proxy::config::{AuthConfig, ProxyConfig};
use spark_connect_proxy::system_auth::{
    read_credentials, BasicError, PamAuth, SystemAuth, SystemAuthStep, SystemMethod,
};
use spark_connect_proxy::text_map::TextMap;

fn headers(entries: &[(&'static str, &str)]) -> HeaderMap {
    let mut headers = HeaderMap::new();
    for (name, value) in entries {
        headers.append(*name, value.parse().unwrap());
    }
    headers
}

fn basic(credentials: &[u8]) -> String {
    format!("Basic {}", BASE64_STANDARD.encode(credentials))
}

fn remote(header: &str) -> SystemMethod {
    SystemMethod::RemoteUser(RemoteUserAuth { header: header.to_string() })
}

#[test]
fn credentials_are_read_from_basic_authorizations() {
    let pam = PamAuth {};
    let credentials = pam.credentials(&basic(b"alice:open:sesame")).unwrap().unwrap();
    assert_eq!(credentials.username, "alice");
    assert_eq!(credentials.password, "open:sesame");

    assert!(pam.credentials("Bearer x").is_none());
    assert!(pam.credentials("Basic").is_none());
    assert_eq!(pam.credentials("Basic ???").unwrap().unwrap_err(), BasicError::NotBase64);
    assert_eq!(pam.credentials(&basic(b"\xff\xfe")).unwrap().unwrap_err(), BasicError::NotText);
    assert_eq!(pam.credentials(&basic(b"alice")).unwrap().unwrap_err(), BasicError::NoColon);
}

#[test]
fn decoded_credentials_are_cut_at_the_first_colon() {
    let credentials = read_credentials(Some(b":".to_vec())).unwrap();
    assert_eq!(credentials.username, "");
    assert_eq!(credentials.password, "");
    assert_eq!(read_credentials(None).unwrap_err(), BasicError::NotBase64);
}

#[test]
fn the_last_method_that_recognises_a_user_decides() {
    let auth = SystemAuth { auth_methods: vec![remote("x-first"), remote("x-second")] };
    match auth.authorize(&headers(&[("x-first", "one"), ("x-second", "two")])) {
        SystemAuthStep::Allowed(user) => assert_eq!(user.0, "two"),
        _ => panic!("both name a user"),
    }
    match auth.authorize(&headers(&[("x-first", "one")])) {
        SystemAuthStep::Allowed(user) => assert_eq!(user.0, "one"),
        _ => panic!("the first names a user"),
    }
    assert!(matches!(
        auth.authorize(&HeaderMap::new()),
        SystemAuthStep::Refused(StatusCode::Unauthorized)
    ));
}

#[test]
fn the_system_verifies_credentials_in_between() {
    let auth = SystemAuth {
        auth_methods: vec![remote("x-first"), SystemMethod::Pam(PamAuth {}), remote("x-last")],
    };
    let basic = basic(b"alice:secret");
    let request = headers(&[("x-first", "one"), ("authorization", &basic)]);
    let pause = || match auth.authorize(&request) {
        SystemAuthStep::Verify(run, credentials) => {
            assert_eq!(run.next, 1);
            assert_eq!(run.user, Some("one".to_string()));
            assert_eq!(credentials.username, "alice");
            assert_eq!(credentials.password, "secret");
            run
        }
        _ => panic!("the credentials are to be verified"),
    };
    match auth.verified(&request, pause(), Some("alice".to_string())) {
        SystemAuthStep::Allowed(user) => assert_eq!(user.0, "alice"),
        _ => panic!("the credentials are right"),
    }
    match auth.verified(&request, pause(), None) {
        SystemAuthStep::Allowed(user) => assert_eq!(user.0, "one"),
        _ => panic!("the first method named a user"),
    }
    let later = headers(&[("authorization", &basic), ("x-last", "three")]);
    match auth.verified(&later, pause(), Some("alice".to_string())) {
        SystemAuthStep::Allowed(user) => assert_eq!(user.0, "three"),
        _ => panic!("the last method names a user"),
    }
    assert!(matches!(
        auth.authorize(&headers(&[("authorization", "Basic ???")])),
        SystemAuthStep::Malformed(BasicError::NotBase64)
    ));
}

#[test]
fn the_current_user_stands_in_for_all() {
    let auth = SystemAuth::new(&ProxyConfig::default(), false).unwrap_or_else(|e| panic!("{}", e.message()));
    assert_eq!(auth.auth_methods.len(), 1);
    assert!(matches!(auth.auth_methods[0], SystemMethod::CurrentUser(CurrentUserAuth {})));
    match auth.authorize(&HeaderMap::new()) {
        SystemAuthStep::Allowed(user) => assert_eq!(user.0, whoami::username()),
        _ => panic!("the current user is always recognised"),
    }
}

#[test]
fn system_methods_are_set_up_by_the_configuration() {
    let config = |names: &[&str]| ProxyConfig {
        auth_methods: Some(
            names
                .iter()
                .map(|name| AuthConfig {
                    name: name.to_string(),
                    options: Some(TextMap::from_entries(vec![(
                        "header".to_string(),
                        "X-User".to_string(),
                    )])),
                })
                .collect(),
        ),
        ..Default::default()
    };
    let auth = SystemAuth::new(&config(&["pam", "remote_user"]), true)
        .unwrap_or_else(|e| panic!("{}", e.message()));
    assert!(matches!(auth.auth_methods[0], SystemMethod::Pam(_)));
    assert!(matches!(&auth.auth_methods[1], SystemMethod::RemoteUser(r) if r.header == "X-User"));

    assert!(matches!(
        SystemAuth::new(&config(&["pam"]), false),
        Err(AuthSetupError::UnknownMethod(name)) if name == "pam"
    ));
    let mut nameless = config(&["remote_user"]);
    nameless.auth_methods.as_mut().unwrap()[0].options = None;
    assert!(matches!(SystemAuth::new(&nameless, true), Err(AuthSetupError::MissingHeader)));
}

#[test]
fn the_current_user_is_recognised_after_credentials_fail() {
    let auth = SystemAuth {
        auth_methods: vec![
            SystemMethod::Pam(PamAuth {}),
            SystemMethod::CurrentUser(CurrentUserAuth {}),
        ],
    };
    let request = headers(&[("authorization", &basic(b"alice:wrong"))]);
    let run = match auth.authorize_as(&request, "operator") {
        SystemAuthStep::Verify(run, _) => run,
        _ => panic!("the credentials are to be verified"),
    };
    match auth.verified_as(&request, run, None, "operator") {
        SystemAuthStep::Allowed(user) => assert_eq!(user.0, "operator"),
        _ => panic!("the current user is always recognised"),
    }
    match auth.authorize_as(&headers(&[]), "operator") {
        SystemAuthStep::Allowed(user) => assert_eq!(user.0, "operator"),
        _ => panic!("the current user is always recognised"),
    }
}
