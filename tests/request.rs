use polkahub::request::{
    login_request, register_request, AUTH_ERROR, CREATE_NEEDS_NAME, EMAIL_RULE,
    FIND_NEEDS_NAME, PASSWORD_MISMATCH, PASSWORD_TOO_LONG, PASSWORD_TOO_SHORT,
};
use polkahub::project::NAME_RULE;
use polkahub::{Auth, Endpoint, Hub, Json, Parachain, Project};

fn project(action: &str, name: Option<&str>, alias: Option<&str>) -> Project {
    Project::new(
        action.to_string(),
        name.map(|s| s.to_string()),
        alias.map(|s| s.to_string()),
        None,
    )
}

fn s(text: &str) -> Json {
    Json::Str(text.to_string())
}

fn obj(fields: Vec<(&str, Json)>) -> Json {
    Json::Object(fields.into_iter().map(|(k, v)| (k.to_string(), v)).collect())
}

#[test]
fn create_without_name_is_refused() {
    for name in [None, Some("")] {
        let f = project("create", name, None).create_request().unwrap_err();
        assert_eq!(f.status, "Input error");
        assert_eq!(f.reason, CREATE_NEEDS_NAME);
    }
}

#[test]
fn find_without_name_is_refused() {
    for name in [None, Some("")] {
        let f = project("find", name, None).find_request().unwrap_err();
        assert_eq!(f.reason, FIND_NEEDS_NAME);
    }
}

#[test]
fn create_with_bad_name_is_refused() {
    let f = project("create", Some("Chain A"), None).create_request().unwrap_err();
    assert_eq!(f.reason, NAME_RULE);
}

#[test]
fn create_request_body() {
    let q = project("create", Some("chain-a"), None).create_request().unwrap();
    assert_eq!(q.endpoint, Endpoint::Create);
    assert_eq!(q.auth, Auth::BearerToken);
    assert_eq!(q.body, obj(vec![("project_name", s("chain-a"))]));
    assert_eq!(q.notice, "Creating chain-a project");
    assert_eq!(q.endpoint.url(), "https://api-test.polkahub.org/api/v1/projects");
}

#[test]
fn find_request_body() {
    let q = project("find", Some("Any Name"), None).find_request().unwrap();
    assert_eq!(q.endpoint, Endpoint::Find);
    assert_eq!(q.body, obj(vec![("project_name", s("Any Name"))]));
    assert_eq!(q.notice, "Looking for Any Name project");
}

#[test]
fn install_request_body() {
    let q = project("install", Some("alice/myproj@1.2.0"), None)
        .install_request(&Hub::default())
        .unwrap();
    assert_eq!(q.endpoint, Endpoint::Install);
    assert_eq!(q.auth, Auth::BearerToken);
    assert_eq!(
        q.body,
        obj(vec![
            ("app_name", s("myproj")),
            ("project_name", s("myproj")),
            ("version", s("1.2.0")),
            ("login", s("alice")),
        ])
    );
    assert_eq!(q.notice, "Deploying myproj project with version 1.2.0");
}

#[test]
fn install_request_with_alias_and_hub() {
    let aliased = project("install", Some("myproj@1.2.0"), Some("mine"))
        .install_request(&Hub::default())
        .unwrap();
    assert_eq!(
        aliased.body,
        obj(vec![
            ("app_name", s("mine")),
            ("project_name", s("myproj")),
            ("version", s("1.2.0")),
        ])
    );
    let hub = Hub {
        parachain: Some(Parachain {
            name: "hubchain".to_string(),
            description: String::new(),
            version: "3.0".to_string(),
        }),
        chainspec: None,
        node: None,
    };
    let q = project("install", Some("myproj@1.2.0"), Some("mine")).install_request(&hub).unwrap();
    assert_eq!(
        q.body,
        obj(vec![
            ("app_name", s("hubchain")),
            ("project_name", s("myproj")),
            ("version", s("3.0")),
        ])
    );
}

#[test]
fn install_with_bad_alias_is_refused() {
    let f = project("install", Some("myproj@1.2.0"), Some("Bad Alias"))
        .install_request(&Hub::default())
        .unwrap_err();
    assert_eq!(f.reason, NAME_RULE);
}

#[test]
fn register_checks_credentials() {
    let long = "x".repeat(51);
    assert_eq!(register_request("nobody", "password1", "password1").unwrap_err().reason, EMAIL_RULE);
    assert_eq!(register_request("a@b", "short", "short").unwrap_err().reason, PASSWORD_TOO_SHORT);
    assert_eq!(register_request("a@b", &long, &long).unwrap_err().reason, PASSWORD_TOO_LONG);
    assert_eq!(
        register_request("a@b", "password1", "password2").unwrap_err().reason,
        PASSWORD_MISMATCH
    );
}

#[test]
fn register_request_body() {
    let fifty = "y".repeat(50);
    assert!(register_request("a@b", &fifty, &fifty).is_ok());
    let q = register_request("a@b.org", "12345678", "12345678").unwrap();
    assert_eq!(q.endpoint, Endpoint::Signup);
    assert_eq!(q.auth, Auth::Anonymous);
    assert_eq!(q.body, obj(vec![("email", s("a@b.org")), ("password", s("12345678"))]));
    assert_eq!(q.notice, "Registration new user with email a@b.org");
}

#[test]
fn login_request_body() {
    assert_eq!(login_request("a@b", "1234567").unwrap_err().reason, PASSWORD_TOO_SHORT);
    let q = login_request("a@b", "secret-pass").unwrap();
    assert_eq!(q.endpoint, Endpoint::Login);
    assert_eq!(q.auth, Auth::Anonymous);
    assert_eq!(q.body, obj(vec![("email", s("a@b")), ("password", s("secret-pass"))]));
    assert_eq!(q.endpoint.url(), "https://api-test.polkahub.org/api/v1/login");
}

#[test]
fn create_without_token_is_not_sent() {
    let q = project("create", Some("chain-a"), None).create_request().unwrap();
    let f = q.authorization(Err("No such file or directory (os error 2)".to_string())).unwrap_err();
    assert_eq!(f.status, AUTH_ERROR);
    assert!(f.reason.contains("register"));
    assert!(f.reason.contains("authenticate"));
    assert!(f.reason.starts_with("No such file or directory"));
}

#[test]
fn bearer_header_from_stored_token() {
    let q = project("find", Some("chain-a"), None).find_request().unwrap();
    assert_eq!(q.authorization(Ok("abc".to_string())), Ok(Some("Bearer abc".to_string())));
}

#[test]
fn anonymous_requests_need_no_token() {
    let q = login_request("a@b", "secret-pass").unwrap();
    assert_eq!(q.authorization(Err("missing".to_string())), Ok(None));
}
