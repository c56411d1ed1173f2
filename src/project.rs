use vstd::prelude::*;

use crate::action::{is_input_error, resolves_to, same_text, Action, Failure};

verus! {

/// Reason given for a project name outside the allowed alphabet.
pub const NAME_RULE: &'static str = "Project name must consist only from 'a'-'z' '0'-'9', '-'.";

/// Reason given for an install target that is not of the form `<project>@<version>`.
pub const FULL_NAME_RULE: &'static str =
    "You must provide specific version to install: [<login>/]<project>@<version>";

/// `c` may stand in a project name.
pub open spec fn is_name_char(c: char) -> bool {
    ('a' <= c && c <= 'z') || ('0' <= c && c <= '9') || c == '-'
}

/// `s` is a project name: lower-case letters, digits and hyphens, at least one of them.
pub open spec fn is_project_name(s: Seq<char>) -> bool {
    s.len() > 0 && forall|i: int| 0 <= i < s.len() ==> is_name_char(#[trigger] s[i])
}

/// Fails with an input error giving `reason` where `s` is empty.
pub fn check_zero_len(s: &str, reason: &str) -> (r: Result<(), Failure>)
    ensures
        r is Ok <==> s@.len() > 0,
        r matches Err(f) ==> is_input_error(f@, reason@),
{
    if s.unicode_len() == 0 {
        Err(Failure::input_error(reason))
    } else {
        Ok(())
    }
}

/// Fails with an input error where `name` is not a project name.
pub fn check_project_name(name: &str) -> (r: Result<(), Failure>)
    ensures
        r is Ok <==> is_project_name(name@),
        r matches Err(f) ==> is_input_error(f@, NAME_RULE@),
{
    let n = name.unicode_len();
    if n == 0 {
        return Err(Failure::input_error(NAME_RULE));
    }
    let mut i: usize = 0;
    while i < n
        invariant
            n == name@.len(),
            0 <= i <= n,
            forall|j: int| 0 <= j < i ==> is_name_char(#[trigger] name@[j]),
        decreases n - i,
    {
        let c = name.get_char(i);
        if !(('a' <= c && c <= 'z') || ('0' <= c && c <= '9') || c == '-') {
            return Err(Failure::input_error(NAME_RULE));
        }
        i = i + 1;
    }
    Ok(())
}

/// `i` is the one place in `s` that holds `c`.
pub open spec fn sole_at(s: Seq<char>, c: char, i: int) -> bool {
    &&& 0 <= i < s.len()
    &&& s[i] == c
    &&& forall|j: int| 0 <= j < s.len() && j != i ==> s[j] != c
}

/// `c` does not occur in `s`.
pub open spec fn lacks(s: Seq<char>, c: char) -> bool {
    forall|j: int| 0 <= j < s.len() ==> s[j] != c
}

/// The first place at or after `from` where `s` holds `c`.
pub fn find_char(s: &str, c: char, from: usize) -> (r: Option<usize>)
    ensures
        s@.len() <= usize::MAX,
        match r {
            Some(i) => from <= i < s@.len() && s@[i as int] == c && forall|j: int|
                from <= j < i ==> s@[j] != c,
            None => forall|j: int| from <= j < s@.len() ==> s@[j] != c,
        },
{
    let n = s.unicode_len();
    let mut i = from;
    while i < n
        invariant
            n == s@.len(),
            from <= i,
            forall|j: int| from <= j < i && j < n ==> s@[j] != c,
        decreases n - i,
    {
        if s.get_char(i) == c {
            return Some(i);
        }
        i = i + 1;
    }
    None
}

/// Where `c` occurs in `s`: nowhere, at one place only, or at two places or more.
pub enum Occurrence {
    Absent,
    Sole(usize),
    Repeated,
}

/// Where `c` occurs in `s`.
pub fn occurrence(s: &str, c: char) -> (r: Occurrence)
    ensures
        match r {
            Occurrence::Absent => lacks(s@, c),
            Occurrence::Sole(i) => sole_at(s@, c, i as int),
            Occurrence::Repeated => !lacks(s@, c) && !exists|i: int| sole_at(s@, c, i),
        },
{
    match find_char(s, c, 0) {
        None => Occurrence::Absent,
        Some(a) => match find_char(s, c, a + 1) {
            None => Occurrence::Sole(a),
            Some(b) => {
                assert forall|i: int| !sole_at(s@, c, i) by {
                    if sole_at(s@, c, i) {
                        assert(i == a as int);
                        assert(i == b as int);
                    }
                }
                Occurrence::Repeated
            },
        },
    }
}

/// An install target: the project, its version and, optionally, the login that owns it.
#[derive(Debug, Clone, PartialEq, Eq)]
pub struct ProjectMetadata {
    pub login: Option<String>,
    pub name: String,
    pub version: String,
}

pub struct MetadataV {
    pub login: Option<Seq<char>>,
    pub name: Seq<char>,
    pub version: Seq<char>,
}

impl View for ProjectMetadata {
    type V = MetadataV;

    open spec fn view(&self) -> MetadataV {
        MetadataV {
            login: match self.login {
                Some(l) => Some(l@),
                None => None,
            },
            name: self.name@,
            version: self.version@,
        }
    }
}

/// The target named by `head`, the text before the `@`, at version `version`: either a
/// project name, or a login and a project name joined by one `/`.
pub open spec fn target_of(head: Seq<char>, version: Seq<char>) -> Option<MetadataV> {
    if version.len() == 0 {
        None
    } else if lacks(head, '/') {
        if is_project_name(head) {
            Some(MetadataV { login: None, name: head, version })
        } else {
            None
        }
    } else if exists|b: int| sole_at(head, '/', b) {
        let b = choose|b: int| sole_at(head, '/', b);
        let login = head.subrange(0, b);
        let name = head.subrange(b + 1, head.len() as int);
        if login.len() > 0 && is_project_name(name) {
            Some(MetadataV { login: Some(login), name, version })
        } else {
            None
        }
    } else {
        None
    }
}

/// The target that `s` names, of the form `[<login>/]<project>@<version>`, split at its
/// one `@`.
pub open spec fn full_name_of(s: Seq<char>) -> Option<MetadataV> {
    if exists|a: int| sole_at(s, '@', a) {
        let a = choose|a: int| sole_at(s, '@', a);
        target_of(s.subrange(0, a), s.subrange(a + 1, s.len() as int))
    } else {
        None
    }
}

/// Splits an install target `[<login>/]<project>@<version>` into its parts.
pub fn parse_full_name(s: &str) -> (r: Result<ProjectMetadata, Failure>)
    ensures
        match r {
            Ok(m) => full_name_of(s@) == Some(m@),
            Err(f) => full_name_of(s@) is None && is_input_error(f@, FULL_NAME_RULE@),
        },
{
    let n = s.unicode_len();
    let a = match occurrence(s, '@') {
        Occurrence::Sole(a) => a,
        _ => return Err(Failure::input_error(FULL_NAME_RULE)),
    };
    assert(sole_at(s@, '@', a as int));
    let head = s.substring_char(0, a);
    let version = s.substring_char(a + 1, n);
    if version.unicode_len() == 0 {
        return Err(Failure::input_error(FULL_NAME_RULE));
    }
    match occurrence(head, '/') {
        Occurrence::Absent => {
            if check_project_name(head).is_err() {
                return Err(Failure::input_error(FULL_NAME_RULE));
            }
            Ok(ProjectMetadata {
                login: None,
                name: String::from_str(head),
                version: String::from_str(version),
            })
        },
        Occurrence::Sole(b) => {
            assert(sole_at(head@, '/', b as int));
            let login = head.substring_char(0, b);
            let name = head.substring_char(b + 1, head.unicode_len());
            if login.unicode_len() == 0 || check_project_name(name).is_err() {
                return Err(Failure::input_error(FULL_NAME_RULE));
            }
            Ok(ProjectMetadata {
                login: Some(String::from_str(login)),
                name: String::from_str(name),
                version: String::from_str(version),
            })
        },
        Occurrence::Repeated => Err(Failure::input_error(FULL_NAME_RULE)),
    }
}

/// An install target without an `@` names no version, so it is refused.
pub proof fn lemma_full_name_needs_version(s: Seq<char>)
    requires
        lacks(s, '@'),
    ensures
        full_name_of(s) is None,
{
}

/// Meta data of a parachain, as a project's hub manifest gives it.
#[derive(Debug, Clone, PartialEq, Eq)]
pub struct Parachain {
    pub name: String,
    pub description: String,
    pub version: String,
}

/// The chain specification named by a hub manifest.
#[derive(Debug, Clone, PartialEq, Eq)]
pub struct Chainspec {
    pub version: String,
    pub path: String,
}

/// The node settings of a hub manifest.
#[derive(Debug, Clone, PartialEq, Eq)]
pub struct Node {
    pub telemetry_url: String,
    pub listen_addr: String,
}

/// A project's hub manifest; every section of it may be missing.
#[derive(Debug, Clone, PartialEq, Eq)]
pub struct Hub {
    pub parachain: Option<Parachain>,
    pub chainspec: Option<Chainspec>,
    pub node: Option<Node>,
}

impl Default for Hub {
    /// The manifest that says nothing, as when there is none.
    fn default() -> (r: Hub)
        ensures
            r.parachain is None,
            r.chainspec is None,
            r.node is None,
    {
        Hub { parachain: None, chainspec: None, node: None }
    }
}

/// What the user asked for on the command line.
#[derive(Debug, Clone, PartialEq, Eq)]
pub struct Project {
    /// create <name>, find <name>, install <name>@<version>, register, auth, help
    pub action: String,
    /// project name
    pub name: Option<String>,
    /// alias of the deployed version in your environment
    pub alias: Option<String>,
    /// where the hub manifest lies
    pub hub_file: Option<String>,
}

/// The text of an optional string, empty where there is none.
pub open spec fn text_or_empty(o: Option<String>) -> Seq<char> {
    match o {
        Some(s) => s@,
        None => Seq::empty(),
    }
}

/// The deployed name and the version of an install of `m`: the hub manifest's
/// parachain where it has one, else the alias with the version asked for, else `m` itself.
pub open spec fn install_target(alias: Option<String>, m: MetadataV, hub: Hub) -> (
    Seq<char>,
    Seq<char>,
) {
    match hub.parachain {
        Some(p) => (p.name@, p.version@),
        None => match alias {
            Some(a) => (a@, m.version),
            None => (m.name, m.version),
        },
    }
}

/// File name of a hub manifest.
pub const HUB_FILE_NAME: &'static str = "Hub.toml";

/// Where the hub manifest is looked for, given the path the user named, if any: that
/// file where it names one, else the manifest inside that directory.
pub open spec fn hub_path_of(hub_file: Seq<char>) -> Seq<char> {
    if hub_file.len() == 0 {
        HUB_FILE_NAME@
    } else if hub_file.len() >= HUB_FILE_NAME@.len() && hub_file.subrange(
        hub_file.len() - HUB_FILE_NAME@.len(),
        hub_file.len() as int,
    ) == HUB_FILE_NAME@ {
        hub_file
    } else if hub_file.last() == '/' {
        hub_file + HUB_FILE_NAME@
    } else {
        hub_file + "/"@ + HUB_FILE_NAME@
    }
}

impl Project {
    pub fn new(action: String, name: Option<String>, alias: Option<String>, hub_file: Option<String>) -> (r: Project)
        ensures
            r == (Project { action, name, alias, hub_file }),
    {
        Project { action, name, alias, hub_file }
    }

    /// The action that the command stands for.
    pub fn parse_action(&self) -> (r: Action)
        ensures
            resolves_to(self.action@, r),
    {
        Action::resolve(self.action.as_str())
    }

    /// The project name given, or the empty text.
    pub fn name_text(&self) -> (r: String)
        ensures
            r@ == text_or_empty(self.name),
    {
        match &self.name {
            Some(n) => n.clone(),
            None => String::new(),
        }
    }

    /// The install target named on the command line.
    pub fn parse_full_name_project(&self) -> (r: Result<ProjectMetadata, Failure>)
        ensures
            match r {
                Ok(m) => full_name_of(text_or_empty(self.name)) == Some(m@),
                Err(f) => full_name_of(text_or_empty(self.name)) is None && is_input_error(
                    f@,
                    FULL_NAME_RULE@,
                ),
            },
    {
        let name = self.name_text();
        parse_full_name(name.as_str())
    }

    /// The deployed name and the version to install: the hub manifest's parachain takes
    /// priority, then the alias, which keeps the version asked for.
    pub fn persist_hub(&self, metadata: &ProjectMetadata, hub: &Hub) -> (r: (String, String))
        ensures
            (r.0@, r.1@) == install_target(self.alias, metadata@, *hub),
    {
        match &hub.parachain {
            Some(p) => (p.name.clone(), p.version.clone()),
            None => match &self.alias {
                Some(a) => (a.clone(), metadata.version.clone()),
                None => (metadata.name.clone(), metadata.version.clone()),
            },
        }
    }

    /// Where the hub manifest is looked for.
    pub fn hub_path(&self) -> (r: String)
        ensures
            r@ == hub_path_of(text_or_empty(self.hub_file)),
    {
        let path = match &self.hub_file {
            Some(p) => p.clone(),
            None => String::new(),
        };
        let n = path.as_str().unicode_len();
        let k = HUB_FILE_NAME.unicode_len();
        if n == 0 {
            String::from_str(HUB_FILE_NAME)
        } else if n >= k && same_text(path.as_str().substring_char(n - k, n), HUB_FILE_NAME) {
            path
        } else if path.as_str().get_char(n - 1) == '/' {
            path.concat(HUB_FILE_NAME)
        } else {
            path.concat("/").concat(HUB_FILE_NAME)
        }
    }

    /// Whether the user named neither a manifest nor an alias, so that the manifest is
    /// looked for in the working directory without being asked for.
    pub fn warns_missing_hub(&self) -> (r: bool)
        ensures
            r == (self.hub_file is None && self.alias is None),
    {
        self.hub_file.is_none() && self.alias.is_none()
    }
}

} // verus!
