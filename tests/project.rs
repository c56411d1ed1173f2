use polkahub::project::{
    check_project_name, check_zero_len, parse_full_name, FULL_NAME_RULE, NAME_RULE,
};
use polkahub::{Hub, Parachain, Project, ProjectMetadata};

fn project(name: Option<&str>, alias: Option<&str>, hub_file: Option<&str>) -> Project {
    Project::new(
        "install".to_string(),
        name.map(|s| s.to_string()),
        alias.map(|s| s.to_string()),
        hub_file.map(|s| s.to_string()),
    )
}

fn hub_with(name: &str, version: &str) -> Hub {
    Hub {
        parachain: Some(Parachain {
            name: name.to_string(),
            description: "a chain".to_string(),
            version: version.to_string(),
        }),
        chainspec: None,
        node: None,
    }
}

#[test]
fn project_names() {
    assert!(check_project_name("chain-a").is_ok());
    assert!(check_project_name("0-9").is_ok());
    for bad in ["", "Chain", "chain_a", "chain a", "chain.a"] {
        let f = check_project_name(bad).unwrap_err();
        assert_eq!(f.status, "Input error");
        assert_eq!(f.reason, NAME_RULE);
    }
}

#[test]
fn zero_length_is_refused() {
    assert!(check_zero_len("x", "why").is_ok());
    let f = check_zero_len("", "why").unwrap_err();
    assert_eq!(f.reason, "why");
}

#[test]
fn install_name_splits_at_the_at_sign() {
    let m = parse_full_name("myproj@1.2.0").unwrap();
    assert_eq!(m.name, "myproj");
    assert_eq!(m.version, "1.2.0");
    assert_eq!(m.login, None);
}

#[test]
fn install_name_with_login() {
    let m = parse_full_name("alice/myproj@v2").unwrap();
    assert_eq!(
        m,
        ProjectMetadata {
            login: Some("alice".to_string()),
            name: "myproj".to_string(),
            version: "v2".to_string(),
        }
    );
}

#[test]
fn install_name_without_version_is_refused() {
    let f = parse_full_name("myproj").unwrap_err();
    assert_eq!(f.status, "Input error");
    assert_eq!(f.reason, FULL_NAME_RULE);
    assert!(f.reason.contains("<project>@<version>"));
}

#[test]
fn malformed_install_names() {
    for bad in ["", "myproj@", "@1.0", "a@b@c", "/myproj@1", "a/b/c@1", "MyProj@1", "a/@1"] {
        assert!(parse_full_name(bad).is_err(), "{:?} was accepted", bad);
    }
}

#[test]
fn full_name_of_project() {
    let p = project(Some("myproj@1.2.0"), None, None);
    assert_eq!(p.parse_full_name_project().unwrap().version, "1.2.0");
    assert!(project(None, None, None).parse_full_name_project().is_err());
}

#[test]
fn hub_manifest_takes_priority() {
    let p = project(Some("myproj@1.2.0"), Some("mine"), None);
    let m = p.parse_full_name_project().unwrap();
    let (name, version) = p.persist_hub(&m, &hub_with("hubchain", "9.9"));
    assert_eq!((name.as_str(), version.as_str()), ("hubchain", "9.9"));
}

#[test]
fn alias_keeps_the_version() {
    let p = project(Some("myproj@1.2.0"), Some("mine"), None);
    let m = p.parse_full_name_project().unwrap();
    let (name, version) = p.persist_hub(&m, &Hub::default());
    assert_eq!((name.as_str(), version.as_str()), ("mine", "1.2.0"));
}

#[test]
fn parsed_target_without_override() {
    let p = project(Some("myproj@1.2.0"), None, None);
    let m = p.parse_full_name_project().unwrap();
    let (name, version) = p.persist_hub(&m, &Hub::default());
    assert_eq!((name.as_str(), version.as_str()), ("myproj", "1.2.0"));
}

#[test]
fn empty_hub_by_default() {
    let h = Hub::default();
    assert!(h.parachain.is_none() && h.chainspec.is_none() && h.node.is_none());
}

#[test]
fn hub_paths() {
    assert_eq!(project(None, None, None).hub_path(), "Hub.toml");
    assert_eq!(project(None, None, Some("")).hub_path(), "Hub.toml");
    assert_eq!(project(None, None, Some("chain")).hub_path(), "chain/Hub.toml");
    assert_eq!(project(None, None, Some("chain/")).hub_path(), "chain/Hub.toml");
    assert_eq!(project(None, None, Some("chain/Hub.toml")).hub_path(), "chain/Hub.toml");
}

#[test]
fn warns_only_without_manifest_or_alias() {
    assert!(project(None, None, None).warns_missing_hub());
    assert!(!project(None, Some("a"), None).warns_missing_hub());
    assert!(!project(None, None, Some("x")).warns_missing_hub());
}
