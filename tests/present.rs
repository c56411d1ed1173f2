use polkahub::present::{help_report, token_saved, NO_VERSIONS};
use polkahub::{CreatedPayload, Failure, InstalledPayload, Line, Outcome, Response, Tone};

fn texts(lines: &[Line]) -> Vec<&str> {
    lines.iter().map(|l| l.text.as_str()).collect()
}

#[test]
fn found_versions_are_listed() {
    let r = Response::Found(vec!["1.0.0".to_string(), "1.1.0".to_string()]).handle("chain-a");
    assert_eq!(texts(&r.lines), vec!["chain-a 1.0.0", "chain-a 1.1.0"]);
    assert!(r.lines.iter().all(|l| l.tone == Tone::Plain));
    assert_eq!(r.outcome, Outcome::Done);
}

#[test]
fn no_versions_yet() {
    let r = Response::Found(vec![]).handle("chain-a");
    assert_eq!(texts(&r.lines), vec![NO_VERSIONS]);
    assert!(!r.lines.iter().any(|l| l.text.starts_with("chain-a ")));
    assert_eq!(r.outcome, Outcome::Done);
}

#[test]
fn created_endpoints_are_shown() {
    let r = Response::Created(CreatedPayload {
        repo_url: "R".to_string(),
        http_url: "H".to_string(),
        ws_url: "W".to_string(),
        repository_created: true,
    })
    .handle("x");
    assert_eq!(texts(&r.lines), vec!["done", "https  -> H", "ws     -> W", "remote -> R"]);
    assert_eq!(r.lines[0].tone, Tone::Done);
}

#[test]
fn installed_endpoints_are_shown() {
    let r = Response::Installed(InstalledPayload { http_url: "H".to_string(), ws_url: "W".to_string() })
        .handle("x");
    assert_eq!(texts(&r.lines), vec!["done", "https  -> H", "ws     -> W"]);
}

#[test]
fn registered_is_done() {
    let r = Response::Registered.handle("");
    assert_eq!(texts(&r.lines), vec!["done"]);
    assert_eq!(r.outcome, Outcome::Done);
}

#[test]
fn login_asks_to_store_the_token() {
    let r = Response::LoggedIn("tok".to_string()).handle("");
    assert!(r.lines.is_empty());
    assert_eq!(r.outcome, Outcome::SaveToken("tok".to_string()));
}

#[test]
fn failure_banner_is_framed() {
    let f = Failure { status: "error".to_string(), reason: "taken".to_string() };
    let r = Response::Fail(f.clone()).handle("x");
    assert_eq!(texts(&r.lines), vec![" —————", " error", " —————", "taken"]);
    assert_eq!(r.lines[1].tone, Tone::Alert);
    assert_eq!(r.outcome, Outcome::Failed(f));
}

#[test]
fn token_storage_outcomes() {
    let ok = token_saved(Ok(()));
    assert_eq!(texts(&ok.lines), vec!["done"]);
    assert_eq!(ok.outcome, Outcome::Done);
    let failed = token_saved(Err("disk full".to_string()));
    assert_eq!(texts(&failed.lines), vec![" ————————————————", " Could not login.", " ————————————————", "disk full"]);
    assert!(matches!(failed.outcome, Outcome::Failed(ref f) if f.reason == "disk full"));
}

#[test]
fn help_lists_every_command() {
    let r = help_report();
    assert_eq!(r.lines.len(), 7);
    assert_eq!(r.lines[0].text, "Usage:");
    for cmd in ["help", "install", "find", "create", "register", "auth"] {
        assert!(r.lines.iter().any(|l| l.text.starts_with(&format!("{}  - ", cmd))));
    }
    assert_eq!(r.outcome, Outcome::Done);
}
