use vstd::prelude::*;

use crate::action::{is_input_error, Failure};
use crate::json::{str_member, Json, JsonV};
use crate::project::{
    install_target, is_project_name, full_name_of, text_or_empty, MetadataV, Project,
    ProjectMetadata, Hub, NAME_RULE, check_project_name, check_zero_len,
};
use crate::response::object;

verus! {

pub const CREATE_URL: &'static str = "https://api-test.polkahub.org/api/v1/projects";

pub const INSTALL_URL: &'static str = "https://api-test.polkahub.org/api/v1/install";

pub const FIND_URL: &'static str = "https://api-test.polkahub.org/api/v1/find";

pub const REGISTER_URL: &'static str = "https://api-test.polkahub.org/api/v1/signup";

pub const LOGIN_URL: &'static str = "https://api-test.polkahub.org/api/v1/login";

/// The service endpoint that a request goes to; it also fixes the shape of the answer.
#[derive(Debug, Clone, Copy, PartialEq, Eq)]
pub enum Endpoint {
    Create,
    Find,
    Install,
    Signup,
    Login,
}

/// The address of an endpoint.
pub open spec fn endpoint_url(e: Endpoint) -> Seq<char> {
    match e {
        Endpoint::Create => CREATE_URL@,
        Endpoint::Find => FIND_URL@,
        Endpoint::Install => INSTALL_URL@,
        Endpoint::Signup => REGISTER_URL@,
        Endpoint::Login => LOGIN_URL@,
    }
}

impl Endpoint {
    /// The address that requests to this endpoint are posted to.
    pub fn url(&self) -> (r: &'static str)
        ensures
            r@ == endpoint_url(*self),
    {
        match self {
            Endpoint::Create => CREATE_URL,
            Endpoint::Find => FIND_URL,
            Endpoint::Install => INSTALL_URL,
            Endpoint::Signup => REGISTER_URL,
            Endpoint::Login => LOGIN_URL,
        }
    }
}

/// Whether a request carries the stored bearer token.
#[derive(Debug, Clone, Copy, PartialEq, Eq)]
pub enum Auth {
    Anonymous,
    BearerToken,
}

/// A request ready to be sent: where it goes, its JSON body, whether it needs the token,
/// and the line shown while it is under way.
#[derive(Debug, PartialEq, Eq)]
pub struct RequestSpec {
    pub endpoint: Endpoint,
    pub body: Json,
    pub auth: Auth,
    pub notice: String,
}

pub struct RequestV {
    pub endpoint: Endpoint,
    pub body: JsonV,
    pub auth: Auth,
    pub notice: Seq<char>,
}

impl View for RequestSpec {
    type V = RequestV;

    open spec fn view(&self) -> RequestV {
        RequestV { endpoint: self.endpoint, body: self.body@, auth: self.auth, notice: self.notice@ }
    }
}

/// Reason given for a create request without a name.
pub const CREATE_NEEDS_NAME: &'static str = "You must provide name to create a project.";

/// Reason given for a find request without a name.
pub const FIND_NEEDS_NAME: &'static str = "You must provide a project name to look for.";

pub const EMAIL_RULE: &'static str = "Email is invalid";

pub const PASSWORD_TOO_SHORT: &'static str = "Password shorter than 8 characters";

pub const PASSWORD_TOO_LONG: &'static str = "Password longer than 50 characters";

pub const PASSWORD_MISMATCH: &'static str = "Password does not equal Confirm password";

pub const MIN_PASSWORD_LENGTH: usize = 8;

pub const MAX_PASSWORD_LENGTH: usize = 50;

/// Status of a failure to find the stored token.
pub const AUTH_ERROR: &'static str = "Authentication error";

/// Text added to the reason why the stored token could not be had.
pub const TOKEN_HINT: &'static str = ". Invalid token, please register and authenticate first.";

/// The body that names a project.
pub open spec fn project_body(name: Seq<char>) -> JsonV {
    object(seq![("project_name"@, JsonV::Str(name))])
}

/// The body of an install of `m` under the deployed name `app_name` at `version`.
pub open spec fn install_body(app_name: Seq<char>, m: MetadataV, version: Seq<char>) -> JsonV {
    let fields = seq![
        ("app_name"@, JsonV::Str(app_name)),
        ("project_name"@, JsonV::Str(m.name)),
        ("version"@, JsonV::Str(version)),
    ];
    match m.login {
        Some(l) => object(fields.push(("login"@, JsonV::Str(l)))),
        None => object(fields),
    }
}

/// The body that carries a user's credentials.
pub open spec fn credentials_body(email: Seq<char>, password: Seq<char>) -> JsonV {
    object(seq![("email"@, JsonV::Str(email)), ("password"@, JsonV::Str(password))])
}

/// The create request for `name`, or the reason it cannot be made.
pub open spec fn create_spec(name: Seq<char>) -> Result<RequestV, Seq<char>> {
    if name.len() == 0 {
        Err(CREATE_NEEDS_NAME@)
    } else if !is_project_name(name) {
        Err(NAME_RULE@)
    } else {
        Ok(
            RequestV {
                endpoint: Endpoint::Create,
                body: project_body(name),
                auth: Auth::BearerToken,
                notice: "Creating "@ + name + " project"@,
            },
        )
    }
}

/// The find request for `name`, or the reason it cannot be made.
pub open spec fn find_spec(name: Seq<char>) -> Result<RequestV, Seq<char>> {
    if name.len() == 0 {
        Err(FIND_NEEDS_NAME@)
    } else {
        Ok(
            RequestV {
                endpoint: Endpoint::Find,
                body: project_body(name),
                auth: Auth::BearerToken,
                notice: "Looking for "@ + name + " project"@,
            },
        )
    }
}

/// The install request for the target `name`, or the reason it cannot be made.
pub open spec fn install_spec(name: Seq<char>, alias: Option<String>, hub: Hub) -> Result<
    RequestV,
    Seq<char>,
> {
    match full_name_of(name) {
        None => Err(crate::project::FULL_NAME_RULE@),
        Some(m) => {
            let (app_name, version) = install_target(alias, m, hub);
            if !is_project_name(app_name) {
                Err(NAME_RULE@)
            } else {
                Ok(
                    RequestV {
                        endpoint: Endpoint::Install,
                        body: install_body(app_name, m, version),
                        auth: Auth::BearerToken,
                        notice: "Deploying "@ + app_name + " project with version "@ + version,
                    },
                )
            }
        },
    }
}

/// What is wrong with a password, if anything.
pub open spec fn password_fault(password: Seq<char>) -> Option<Seq<char>> {
    if password.len() < MIN_PASSWORD_LENGTH {
        Some(PASSWORD_TOO_SHORT@)
    } else if password.len() > MAX_PASSWORD_LENGTH {
        Some(PASSWORD_TOO_LONG@)
    } else {
        None
    }
}

/// What is wrong with an email and a password, if anything.
pub open spec fn credentials_fault(email: Seq<char>, password: Seq<char>) -> Option<Seq<char>> {
    if !email.contains('@') {
        Some(EMAIL_RULE@)
    } else {
        password_fault(password)
    }
}

/// What is wrong with an email, a new password and its confirmation, if anything.
pub open spec fn new_credentials_fault(
    email: Seq<char>,
    password: Seq<char>,
    confirmation: Seq<char>,
) -> Option<Seq<char>> {
    match credentials_fault(email, password) {
        Some(f) => Some(f),
        None => if password != confirmation {
            Some(PASSWORD_MISMATCH@)
        } else {
            None
        },
    }
}

/// `r` is the request `expected`, or an input error with the reason `expected` gives.
pub open spec fn built_as(r: Result<RequestSpec, Failure>, expected: Result<RequestV, Seq<char>>) -> bool {
    match (r, expected) {
        (Ok(q), Ok(e)) => q@ == e,
        (Err(f), Err(reason)) => is_input_error(f@, reason),
        _ => false,
    }
}

/// The body that names a project.
fn project_body_of(name: &String) -> (r: Json)
    ensures
        r@ == project_body(name@),
{
    let r = Json::Object(vec![str_member("project_name", name.clone())]);
    assert(r@->Object_0 =~= project_body(name@)->Object_0);
    r
}

/// The body that carries a user's credentials.
fn credentials_body_of(email: &str, password: &str) -> (r: Json)
    ensures
        r@ == credentials_body(email@, password@),
{
    let r = Json::Object(
        vec![
            str_member("email", String::from_str(email)),
            str_member("password", String::from_str(password)),
        ],
    );
    assert(r@->Object_0 =~= credentials_body(email@, password@)->Object_0);
    r
}

impl Project {
    /// The request that creates the named project.
    pub fn create_request(&self) -> (r: Result<RequestSpec, Failure>)
        ensures
            built_as(r, create_spec(text_or_empty(self.name))),
    {
        let name = self.name_text();
        check_zero_len(name.as_str(), CREATE_NEEDS_NAME)?;
        check_project_name(name.as_str())?;
        let body = project_body_of(&name);
        let notice = String::from_str("Creating ").concat(name.as_str()).concat(" project");
        Ok(RequestSpec { endpoint: Endpoint::Create, body, auth: Auth::BearerToken, notice })
    }

    /// The request that lists the versions of the named project.
    pub fn find_request(&self) -> (r: Result<RequestSpec, Failure>)
        ensures
            built_as(r, find_spec(text_or_empty(self.name))),
    {
        let name = self.name_text();
        check_zero_len(name.as_str(), FIND_NEEDS_NAME)?;
        let body = project_body_of(&name);
        let notice = String::from_str("Looking for ").concat(name.as_str()).concat(" project");
        Ok(RequestSpec { endpoint: Endpoint::Find, body, auth: Auth::BearerToken, notice })
    }

    /// The request that installs the named target; `hub` is the project's manifest, or
    /// the empty one where there is none.
    pub fn install_request(&self, hub: &Hub) -> (r: Result<RequestSpec, Failure>)
        ensures
            built_as(r, install_spec(text_or_empty(self.name), self.alias, *hub)),
    {
        let metadata = self.parse_full_name_project()?;
        let (app_name, version) = self.persist_hub(&metadata, hub);
        check_project_name(app_name.as_str())?;
        let notice = String::from_str("Deploying ").concat(app_name.as_str()).concat(
            " project with version ",
        ).concat(version.as_str());
        let body = install_body_of(app_name, &metadata, version);
        Ok(RequestSpec { endpoint: Endpoint::Install, body, auth: Auth::BearerToken, notice })
    }
}

/// The body of an install of `m` under the deployed name `app_name` at `version`.
fn install_body_of(app_name: String, m: &ProjectMetadata, version: String) -> (r: Json)
    ensures
        r@ == install_body(app_name@, m@, version@),
{
    let mut fields = vec![
        str_member("app_name", app_name),
        str_member("project_name", m.name.clone()),
        str_member("version", version),
    ];
    match &m.login {
        Some(l) => fields.push(str_member("login", l.clone())),
        None => {},
    }
    let r = Json::Object(fields);
    assert(r@->Object_0 =~= install_body(app_name@, m@, version@)->Object_0);
    r
}

/// Fails with the reason why `password` is not acceptable, if it is not.
pub fn check_password(password: &str) -> (r: Result<(), Failure>)
    ensures
        match password_fault(password@) {
            Some(reason) => r matches Err(f) && is_input_error(f@, reason),
            None => r is Ok,
        },
{
    let n = password.unicode_len();
    if n < MIN_PASSWORD_LENGTH {
        Err(Failure::input_error(PASSWORD_TOO_SHORT))
    } else if n > MAX_PASSWORD_LENGTH {
        Err(Failure::input_error(PASSWORD_TOO_LONG))
    } else {
        Ok(())
    }
}

/// Fails where `email` has no `@`.
pub fn check_email(email: &str) -> (r: Result<(), Failure>)
    ensures
        r is Ok <==> email@.contains('@'),
        r matches Err(f) ==> is_input_error(f@, EMAIL_RULE@),
{
    match crate::project::find_char(email, '@', 0) {
        None => {
            assert(!email@.contains('@'));
            Err(Failure::input_error(EMAIL_RULE))
        },
        Some(i) => {
            assert(email@[i as int] == '@');
            Ok(())
        },
    }
}

/// Fails where `email` has no `@` or `password` is not acceptable.
pub fn check_credentials(email: &str, password: &str) -> (r: Result<(), Failure>)
    ensures
        match credentials_fault(email@, password@) {
            Some(reason) => r matches Err(f) && is_input_error(f@, reason),
            None => r is Ok,
        },
{
    check_email(email)?;
    check_password(password)
}

/// The request that registers a new user; the password must be given twice.
pub fn register_request(email: &str, password: &str, confirmation: &str) -> (r: Result<
    RequestSpec,
    Failure,
>)
    ensures
        match new_credentials_fault(email@, password@, confirmation@) {
            Some(reason) => r matches Err(f) && is_input_error(f@, reason),
            None => r matches Ok(q) && q@ == (RequestV {
                endpoint: Endpoint::Signup,
                body: credentials_body(email@, password@),
                auth: Auth::Anonymous,
                notice: "Registration new user with email "@ + email@,
            }),
        },
{
    check_credentials(email, password)?;
    if !crate::action::same_text(password, confirmation) {
        return Err(Failure::input_error(PASSWORD_MISMATCH));
    }
    let notice = String::from_str("Registration new user with email ").concat(email);
    Ok(
        RequestSpec {
            endpoint: Endpoint::Signup,
            body: credentials_body_of(email, password),
            auth: Auth::Anonymous,
            notice,
        },
    )
}

/// The request that logs a user in.
pub fn login_request(email: &str, password: &str) -> (r: Result<RequestSpec, Failure>)
    ensures
        match credentials_fault(email@, password@) {
            Some(reason) => r matches Err(f) && is_input_error(f@, reason),
            None => r matches Ok(q) && q@ == (RequestV {
                endpoint: Endpoint::Login,
                body: credentials_body(email@, password@),
                auth: Auth::Anonymous,
                notice: "Login user with email "@ + email@,
            }),
        },
{
    check_credentials(email, password)?;
    let notice = String::from_str("Login user with email ").concat(email);
    Ok(
        RequestSpec {
            endpoint: Endpoint::Login,
            body: credentials_body_of(email, password),
            auth: Auth::Anonymous,
            notice,
        },
    )
}

impl RequestSpec {
    /// The `Authorization` header to send, if any, given what reading the stored token
    /// gave: the token, or why it could not be read. A request that needs a token that
    /// could not be read is not to be sent.
    pub fn authorization(&self, stored_token: Result<String, String>) -> (r: Result<
        Option<String>,
        Failure,
    >)
        ensures
            self.auth == Auth::Anonymous ==> r matches Ok(None),
            self.auth == Auth::BearerToken ==> match stored_token {
                Ok(t) => r matches Ok(Some(h)) && h@ == "Bearer "@ + t@,
                Err(e) => r matches Err(f) && f.status@ == AUTH_ERROR@ && f.reason@ == e@
                    + TOKEN_HINT@,
            },
    {
        match self.auth {
            Auth::Anonymous => Ok(None),
            Auth::BearerToken => match stored_token {
                Ok(t) => Ok(Some(String::from_str("Bearer ").concat(t.as_str()))),
                Err(e) => Err(
                    Failure { status: String::from_str(AUTH_ERROR), reason: e.concat(TOKEN_HINT) },
                ),
            },
        }
    }
}

/// A create or find request without a project name is refused before anything is sent:
/// the builder yields an input error, never a request.
pub proof fn lemma_empty_name_refused()
    ensures
        create_spec(Seq::empty()) == Err::<RequestV, Seq<char>>(CREATE_NEEDS_NAME@),
        find_spec(Seq::empty()) == Err::<RequestV, Seq<char>>(FIND_NEEDS_NAME@),
{
}

} // verus!
