use vstd::prelude::*;

verus! {

/// Hint appended to every complaint about an unknown command.
pub const HELP_NOTION: &'static str = "Try running `polkahub help` to see all available options";

/// Status of a failure caused by what the user typed.
pub const INPUT_ERROR: &'static str = "Input error";

/// Status of the failure for an unknown command.
pub const UNKNOWN_ACTION: &'static str = "input error";

/// Text between an unknown command and the help hint.
pub const INVALID_ACTION: &'static str = " - is invalid action. ";

/// A failure as shown to the user: a short status and the reason behind it.
#[derive(Debug, Clone, PartialEq, Eq, Default)]
pub struct Failure {
    pub status: String,
    pub reason: String,
}

/// The mathematical value of a failure.
pub struct FailureV {
    pub status: Seq<char>,
    pub reason: Seq<char>,
}

impl View for Failure {
    type V = FailureV;

    open spec fn view(&self) -> FailureV {
        FailureV { status: self.status@, reason: self.reason@ }
    }
}

/// `f` is an input error that gives `reason`.
pub open spec fn is_input_error(f: FailureV, reason: Seq<char>) -> bool {
    f.status == INPUT_ERROR@ && f.reason == reason
}

/// Status of a failure to reach the service or to read its answer.
pub const TRANSPORT_ERROR: &'static str = "Request failed";

impl Failure {
    /// A failure of the transport, for the reason given.
    pub fn transport_error(reason: String) -> (f: Failure)
        ensures
            f.status@ == TRANSPORT_ERROR@,
            f.reason@ == reason@,
    {
        Failure { status: String::from_str(TRANSPORT_ERROR), reason }
    }

    /// An input error that gives `reason`.
    pub fn input_error(reason: &str) -> (f: Failure)
        ensures
            is_input_error(f@, reason@),
    {
        Failure { status: String::from_str(INPUT_ERROR), reason: String::from_str(reason) }
    }
}

/// What one invocation of the client does.
#[derive(Debug, Clone, PartialEq, Eq)]
pub enum Action {
    Install,
    Create,
    Find,
    Register,
    Login,
    Help,
    InputError(Failure),
}

/// `s` names one of the commands.
pub open spec fn is_command(s: Seq<char>) -> bool {
    ||| s == "create"@
    ||| s == "find"@
    ||| s == "install"@
    ||| s == "register"@
    ||| s == "auth"@
    ||| s == "help"@
}

/// `a` is the action that the command `s` stands for.
pub open spec fn resolves_to(s: Seq<char>, a: Action) -> bool {
    if s == "create"@ {
        a == Action::Create
    } else if s == "find"@ {
        a == Action::Find
    } else if s == "install"@ {
        a == Action::Install
    } else if s == "register"@ {
        a == Action::Register
    } else if s == "auth"@ {
        a == Action::Login
    } else if s == "help"@ {
        a == Action::Help
    } else {
        a matches Action::InputError(f) && f@.status == UNKNOWN_ACTION@ && f@.reason == s
            + INVALID_ACTION@ + HELP_NOTION@
    }
}

/// Whether two strings hold the same characters.
pub fn same_text(a: &str, b: &str) -> (r: bool)
    ensures
        r == (a@ == b@),
{
    String::from_str(a) == String::from_str(b)
}

impl Action {
    /// The action that the command `s` stands for; any other text is an input error.
    pub fn resolve(s: &str) -> (r: Action)
        ensures
            resolves_to(s@, r),
            !is_command(s@) ==> r is InputError,
    {
        if same_text(s, "create") {
            Action::Create
        } else if same_text(s, "find") {
            Action::Find
        } else if same_text(s, "install") {
            Action::Install
        } else if same_text(s, "register") {
            Action::Register
        } else if same_text(s, "auth") {
            Action::Login
        } else if same_text(s, "help") {
            Action::Help
        } else {
            let reason = String::from_str(s).concat(INVALID_ACTION).concat(HELP_NOTION);
            Action::InputError(Failure { status: String::from_str(UNKNOWN_ACTION), reason })
        }
    }
}

impl std::str::FromStr for Action {
    type Err = Failure;

    /// The action that the command `s` stands for; this never fails, as any other text
    /// resolves to an input error.
    fn from_str(s: &str) -> (r: Result<Action, Failure>)
        ensures
            r matches Ok(a) && resolves_to(s@, a),
    {
        Ok(Action::resolve(s))
    }
}

} // verus!
