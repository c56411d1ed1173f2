use polkahub::action::{HELP_NOTION, UNKNOWN_ACTION};
use polkahub::{Action, Failure, Project};

fn project(action: &str) -> Project {
    Project::new(action.to_string(), None, None, None)
}

#[test]
fn resolves_every_command() {
    assert_eq!(Action::resolve("create"), Action::Create);
    assert_eq!(Action::resolve("find"), Action::Find);
    assert_eq!(Action::resolve("install"), Action::Install);
    assert_eq!(Action::resolve("register"), Action::Register);
    assert_eq!(Action::resolve("auth"), Action::Login);
    assert_eq!(Action::resolve("help"), Action::Help);
}

#[test]
fn unknown_command_is_input_error() {
    let expected = Failure {
        status: UNKNOWN_ACTION.to_string(),
        reason: format!("deploy - is invalid action. {}", HELP_NOTION),
    };
    assert_eq!(Action::resolve("deploy"), Action::InputError(expected));
}

#[test]
fn unknown_commands_never_resolve() {
    for s in ["", "Create", "login", "create ", "héllo", "finder"] {
        match Action::resolve(s) {
            Action::InputError(f) => {
                assert_eq!(f.status, "input error");
                assert!(f.reason.starts_with(s));
                assert!(f.reason.ends_with(HELP_NOTION));
            }
            other => panic!("{:?} resolved to {:?}", s, other),
        }
    }
}

#[test]
fn parse_action_reads_the_command() {
    assert_eq!(project("find").parse_action(), Action::Find);
    assert!(matches!(project("nope").parse_action(), Action::InputError(_)));
}

#[test]
fn deploy_is_not_a_command() {
    let expected = Failure {
        status: "input error".to_string(),
        reason: "deploy - is invalid action. Try running `polkahub help` to see all available options"
            .to_string(),
    };
    assert_eq!("deploy".parse::<Action>(), Ok(Action::InputError(expected)));
}

#[test]
fn from_str_never_fails() {
    for s in ["", "   ", "ünïcode", "create"] {
        assert!(s.parse::<Action>().is_ok());
    }
    assert_eq!("auth".parse::<Action>(), Ok(Action::Login));
    assert!(matches!("what".parse::<Action>(), Ok(Action::InputError(_))));
}
