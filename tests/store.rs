use polkahub::store::{config_path, polkahub_home_path, HOME_UNSET};

fn some(s: &str) -> Option<String> {
    Some(s.to_string())
}

#[test]
fn home_override_wins() {
    assert_eq!(polkahub_home_path(some("/opt/ph"), some("/home/u")), Ok("/opt/ph".to_string()));
    assert_eq!(config_path(some("/opt/ph"), None), Ok("/opt/ph/config".to_string()));
}

#[test]
fn default_home_directory() {
    assert_eq!(polkahub_home_path(None, some("/home/u")), Ok("/home/u/.polkahub".to_string()));
    assert_eq!(config_path(None, some("/home/u")), Ok("/home/u/.polkahub/config".to_string()));
}

#[test]
fn missing_home_fails() {
    let f = config_path(None, None).unwrap_err();
    assert_eq!(f.reason, HOME_UNSET);
}
