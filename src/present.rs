use vstd::prelude::*;

use crate::action::{Failure, FailureV};
use crate::response::{texts, CreatedV, InstalledV, Response, ResponseV};

verus! {

/// How a line of output is coloured.
#[derive(Debug, Clone, Copy, PartialEq, Eq)]
pub enum Tone {
    Plain,
    Done,
    Accent,
    Alert,
    Warning,
}

/// One line of output.
#[derive(Debug, Clone, PartialEq, Eq)]
pub struct Line {
    pub tone: Tone,
    pub text: String,
}

/// How an invocation ends, once its lines are shown.
#[derive(Debug, Clone, PartialEq, Eq)]
pub enum Outcome {
    /// Exit with success.
    Done,
    /// Store the token, then report how that went.
    SaveToken(String),
    /// Exit with failure.
    Failed(Failure),
}

/// What the user is shown, and how the invocation ends.
#[derive(Debug, Clone, PartialEq, Eq)]
pub struct Report {
    pub lines: Vec<Line>,
    pub outcome: Outcome,
}

pub enum OutcomeV {
    Done,
    SaveToken(Seq<char>),
    Failed(FailureV),
}

pub struct ReportV {
    pub lines: Seq<(Tone, Seq<char>)>,
    pub outcome: OutcomeV,
}

impl View for Report {
    type V = ReportV;

    open spec fn view(&self) -> ReportV {
        ReportV {
            lines: self.lines@.map_values(|l: Line| (l.tone, l.text@)),
            outcome: match self.outcome {
                Outcome::Done => OutcomeV::Done,
                Outcome::SaveToken(t) => OutcomeV::SaveToken(t@),
                Outcome::Failed(f) => OutcomeV::Failed(f@),
            },
        }
    }
}

pub const DONE: &'static str = "done";

/// Shown for a project that has no version yet.
pub const NO_VERSIONS: &'static str = "Looks like no versions deployed yet!";

/// Status of a failure to store the token after a login.
pub const LOGIN_FAILED: &'static str = "Could not login.";

/// A rule of `n` dashes, as wide as the status it frames.
pub open spec fn frame(n: nat) -> Seq<char> {
    Seq::new(n, |i: int| '—')
}

/// The framed banner that shows a failure.
pub open spec fn banner(f: FailureV) -> Seq<(Tone, Seq<char>)> {
    let rule = " "@ + frame(f.status.len());
    seq![
        (Tone::Plain, rule),
        (Tone::Alert, " "@ + f.status),
        (Tone::Plain, rule),
        (Tone::Plain, f.reason),
    ]
}

/// The lines that show where a created project can be reached.
pub open spec fn created_lines(c: CreatedV) -> Seq<(Tone, Seq<char>)> {
    seq![
        (Tone::Done, DONE@),
        (Tone::Accent, "https  -> "@ + c.http_url),
        (Tone::Accent, "ws     -> "@ + c.ws_url),
        (Tone::Accent, "remote -> "@ + c.repo_url),
    ]
}

/// The lines that show where an installed project can be reached.
pub open spec fn installed_lines(i: InstalledV) -> Seq<(Tone, Seq<char>)> {
    seq![
        (Tone::Done, DONE@),
        (Tone::Accent, "https  -> "@ + i.http_url),
        (Tone::Accent, "ws     -> "@ + i.ws_url),
    ]
}

/// The lines that list the versions of the project `name`: one `<name> <version>` each,
/// or a notice where there is none.
pub open spec fn found_lines(name: Seq<char>, versions: Seq<Seq<char>>) -> Seq<(Tone, Seq<char>)> {
    if versions.len() == 0 {
        seq![(Tone::Done, NO_VERSIONS@)]
    } else {
        versions.map_values(|v: Seq<char>| (Tone::Plain, name + " "@ + v))
    }
}

/// What is shown for the answer `r` to a request about the project `name`.
pub open spec fn report_of(r: ResponseV, name: Seq<char>) -> ReportV {
    match r {
        ResponseV::Created(c) => ReportV { lines: created_lines(c), outcome: OutcomeV::Done },
        ResponseV::Found(vs) => ReportV { lines: found_lines(name, vs), outcome: OutcomeV::Done },
        ResponseV::Installed(i) => ReportV { lines: installed_lines(i), outcome: OutcomeV::Done },
        ResponseV::Registered => ReportV { lines: seq![(Tone::Done, DONE@)], outcome: OutcomeV::Done },
        ResponseV::LoggedIn(t) => ReportV { lines: Seq::empty(), outcome: OutcomeV::SaveToken(t) },
        ResponseV::Fail(f) => ReportV { lines: banner(f), outcome: OutcomeV::Failed(f) },
    }
}

fn line(tone: Tone, text: String) -> (r: Line)
    ensures
        r.tone == tone,
        r.text@ == text@,
{
    Line { tone, text }
}

/// `prefix` followed by `s`.
fn joined(prefix: &str, s: &str) -> (r: String)
    ensures
        r@ == prefix@ + s@,
{
    String::from_str(prefix).concat(s)
}

/// A rule of `n` dashes.
pub fn frame_of(n: usize) -> (r: String)
    ensures
        r@ == frame(n as nat),
{
    let mut r = String::new();
    let mut i: usize = 0;
    while i < n
        invariant
            0 <= i <= n,
            r@ == frame(i as nat),
        decreases n - i,
    {
        proof {
            reveal_strlit("—");
        }
        r = r.concat("—");
        assert(r@ =~= frame((i + 1) as nat));
        i = i + 1;
    }
    r
}

impl Failure {
    /// The framed banner that shows this failure, and a failed ending.
    pub fn report(&self) -> (r: Report)
        ensures
            r@ == (ReportV { lines: banner(self@), outcome: OutcomeV::Failed(self@) }),
    {
        let rule = joined(" ", frame_of(self.status.as_str().unicode_len()).as_str());
        let lines = vec![
            line(Tone::Plain, rule.clone()),
            line(Tone::Alert, joined(" ", self.status.as_str())),
            line(Tone::Plain, rule),
            line(Tone::Plain, self.reason.clone()),
        ];
        let r = Report {
            lines,
            outcome: Outcome::Failed(
                Failure { status: self.status.clone(), reason: self.reason.clone() },
            ),
        };
        assert(r@.lines =~= banner(self@));
        r
    }
}

impl Response {
    /// What is shown for this answer to a request about the project `name`, and how
    /// the invocation ends.
    pub fn handle(&self, name: &str) -> (r: Report)
        ensures
            r@ == report_of(self@, name@),
    {
        match self {
            Response::Created(c) => {
                let lines = vec![
                    line(Tone::Done, String::from_str(DONE)),
                    line(Tone::Accent, joined("https  -> ", c.http_url.as_str())),
                    line(Tone::Accent, joined("ws     -> ", c.ws_url.as_str())),
                    line(Tone::Accent, joined("remote -> ", c.repo_url.as_str())),
                ];
                let r = Report { lines, outcome: Outcome::Done };
                assert(r@.lines =~= report_of(self@, name@).lines);
                r
            },
            Response::Found(vs) => {
                let lines = found_lines_of(name, vs);
                Report { lines, outcome: Outcome::Done }
            },
            Response::Installed(i) => {
                let lines = vec![
                    line(Tone::Done, String::from_str(DONE)),
                    line(Tone::Accent, joined("https  -> ", i.http_url.as_str())),
                    line(Tone::Accent, joined("ws     -> ", i.ws_url.as_str())),
                ];
                let r = Report { lines, outcome: Outcome::Done };
                assert(r@.lines =~= report_of(self@, name@).lines);
                r
            },
            Response::Registered => {
                let r = Report { lines: vec![line(Tone::Done, String::from_str(DONE))], outcome: Outcome::Done };
                assert(r@.lines =~= report_of(self@, name@).lines);
                r
            },
            Response::LoggedIn(t) => {
                let r = Report { lines: Vec::new(), outcome: Outcome::SaveToken(t.clone()) };
                assert(r@.lines =~= report_of(self@, name@).lines);
                r
            },
            Response::Fail(f) => f.report(),
        }
    }
}

/// The lines that list the versions `vs` of the project `name`.
fn found_lines_of(name: &str, vs: &Vec<String>) -> (r: Vec<Line>)
    ensures
        r@.map_values(|l: Line| (l.tone, l.text@)) == found_lines(name@, texts(vs@)),
{
    let mut lines: Vec<Line> = Vec::new();
    if vs.len() == 0 {
        lines.push(line(Tone::Done, String::from_str(NO_VERSIONS)));
        assert(lines@.map_values(|l: Line| (l.tone, l.text@)) =~= found_lines(name@, texts(vs@)));
        return lines;
    }
    let mut i: usize = 0;
    while i < vs.len()
        invariant
            0 <= i <= vs.len(),
            lines@.len() == i,
            forall|n: int|
                0 <= n < i ==> (#[trigger] lines@[n]).tone == Tone::Plain && lines@[n].text@ == name@
                    + " "@ + vs@[n]@,
        decreases vs.len() - i,
    {
        let text = String::from_str(name).concat(" ").concat(vs[i].as_str());
        lines.push(line(Tone::Plain, text));
        i = i + 1;
    }
    assert(lines@.map_values(|l: Line| (l.tone, l.text@)) =~= found_lines(name@, texts(vs@)));
    lines
}

/// What is shown once storing the token of a login has succeeded, or has failed for
/// the reason given.
pub fn token_saved(stored: Result<(), String>) -> (r: Report)
    ensures
        match stored {
            Ok(()) => r@ == (ReportV { lines: seq![(Tone::Done, DONE@)], outcome: OutcomeV::Done }),
            Err(e) => {
                let f = FailureV { status: LOGIN_FAILED@, reason: e@ };
                r@ == (ReportV { lines: banner(f), outcome: OutcomeV::Failed(f) })
            },
        },
{
    match stored {
        Ok(()) => {
            let r = Report { lines: vec![line(Tone::Done, String::from_str(DONE))], outcome: Outcome::Done };
            assert(r@.lines =~= seq![(Tone::Done, DONE@)]);
            r
        },
        Err(e) => Failure { status: String::from_str(LOGIN_FAILED), reason: e }.report(),
    }
}

/// The usage text: one line for each command.
pub open spec fn help_lines() -> Seq<(Tone, Seq<char>)> {
    seq![
        (Tone::Plain, "Usage:"@),
        (Tone::Accent, "help  - list all possible options"@),
        (Tone::Accent, "install  - launch parachain node"@),
        (Tone::Accent, "find  - find all versions of your project"@),
        (Tone::Accent, "create  - register new parachain and create endpoints"@),
        (Tone::Accent, "register  - create a new user in Polkahub"@),
        (Tone::Accent, "auth  - log in to Polkahub"@),
    ]
}

/// The usage text, and a successful ending.
pub fn help_report() -> (r: Report)
    ensures
        r@ == (ReportV { lines: help_lines(), outcome: OutcomeV::Done }),
{
    let lines = vec![
        line(Tone::Plain, String::from_str("Usage:")),
        line(Tone::Accent, String::from_str("help  - list all possible options")),
        line(Tone::Accent, String::from_str("install  - launch parachain node")),
        line(Tone::Accent, String::from_str("find  - find all versions of your project")),
        line(Tone::Accent, String::from_str("create  - register new parachain and create endpoints")),
        line(Tone::Accent, String::from_str("register  - create a new user in Polkahub")),
        line(Tone::Accent, String::from_str("auth  - log in to Polkahub")),
    ];
    let r = Report { lines, outcome: Outcome::Done };
    assert(r@.lines =~= help_lines());
    r
}

} // verus!
