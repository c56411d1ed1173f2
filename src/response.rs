use vstd::prelude::*;

use crate::action::{Failure, FailureV};
use crate::json::{member, member_bool, member_str, str_member, Json, JsonV};
use crate::request::Endpoint;

verus! {

/// Status of a failure made up by the client when an answer cannot be read.
pub const PARSE_ERROR: &'static str = "json parse error";

/// Reason given when an answer is JSON but not of the shape its request expects.
pub const SHAPE_MISMATCH: &'static str = "the response does not have the shape this request expects";

/// What the service sends back for a created project.
#[derive(Debug, Clone, PartialEq, Eq)]
pub struct CreatedPayload {
    pub repo_url: String,
    pub http_url: String,
    pub ws_url: String,
    pub repository_created: bool,
}

pub struct CreatedV {
    pub repo_url: Seq<char>,
    pub http_url: Seq<char>,
    pub ws_url: Seq<char>,
    pub repository_created: bool,
}

impl View for CreatedPayload {
    type V = CreatedV;

    open spec fn view(&self) -> CreatedV {
        CreatedV {
            repo_url: self.repo_url@,
            http_url: self.http_url@,
            ws_url: self.ws_url@,
            repository_created: self.repository_created,
        }
    }
}

/// What the service sends back for an installed project.
#[derive(Debug, Clone, PartialEq, Eq)]
pub struct InstalledPayload {
    pub http_url: String,
    pub ws_url: String,
}

pub struct InstalledV {
    pub http_url: Seq<char>,
    pub ws_url: Seq<char>,
}

impl View for InstalledPayload {
    type V = InstalledV;

    open spec fn view(&self) -> InstalledV {
        InstalledV { http_url: self.http_url@, ws_url: self.ws_url@ }
    }
}

/// An answer of the service, decoded for the request that it answers.
#[derive(Debug, Clone, PartialEq, Eq)]
pub enum Response {
    Created(CreatedPayload),
    Found(Vec<String>),
    Installed(InstalledPayload),
    Registered,
    LoggedIn(String),
    Fail(Failure),
}

pub enum ResponseV {
    Created(CreatedV),
    Found(Seq<Seq<char>>),
    Installed(InstalledV),
    Registered,
    LoggedIn(Seq<char>),
    Fail(FailureV),
}

/// The texts held by a sequence of strings.
pub open spec fn texts(v: Seq<String>) -> Seq<Seq<char>> {
    v.map_values(|s: String| s@)
}

impl View for Response {
    type V = ResponseV;

    open spec fn view(&self) -> ResponseV {
        match self {
            Response::Created(p) => ResponseV::Created(p@),
            Response::Found(v) => ResponseV::Found(texts(v@)),
            Response::Installed(p) => ResponseV::Installed(p@),
            Response::Registered => ResponseV::Registered,
            Response::LoggedIn(t) => ResponseV::LoggedIn(t@),
            Response::Fail(f) => ResponseV::Fail(f@),
        }
    }
}

/// The created-project payload that `p` describes.
pub open spec fn created_of(p: JsonV) -> Option<CreatedV> {
    match (
        member_str(p, "repo_url"@),
        member_str(p, "http_url"@),
        member_str(p, "ws_url"@),
        member_bool(p, "repository_created"@),
    ) {
        (Some(repo_url), Some(http_url), Some(ws_url), Some(repository_created)) => Some(
            CreatedV { repo_url, http_url, ws_url, repository_created },
        ),
        _ => None,
    }
}

/// The installed-project payload that `p` describes.
pub open spec fn installed_of(p: JsonV) -> Option<InstalledV> {
    match (member_str(p, "http_url"@), member_str(p, "ws_url"@)) {
        (Some(http_url), Some(ws_url)) => Some(InstalledV { http_url, ws_url }),
        _ => None,
    }
}

/// The version list that `p` describes: an array of strings.
pub open spec fn versions_of(p: JsonV) -> Option<Seq<Seq<char>>> {
    match p {
        JsonV::Array(items) => if forall|i: int| 0 <= i < items.len() ==> #[trigger] items[i] is Str {
            Some(items.map_values(|x: JsonV| x->Str_0))
        } else {
            None
        },
        _ => None,
    }
}

/// The success that `j` reports for a request to `e`, if it has the shape `e` calls for.
pub open spec fn success_of(e: Endpoint, j: JsonV) -> Option<ResponseV> {
    match e {
        Endpoint::Create => match member(j, "payload"@) {
            Some(p) => match created_of(p) {
                Some(c) => Some(ResponseV::Created(c)),
                None => None,
            },
            None => None,
        },
        Endpoint::Find => match member(j, "payload"@) {
            Some(p) => match versions_of(p) {
                Some(vs) => Some(ResponseV::Found(vs)),
                None => None,
            },
            None => None,
        },
        Endpoint::Install => match member(j, "payload"@) {
            Some(p) => match installed_of(p) {
                Some(i) => Some(ResponseV::Installed(i)),
                None => None,
            },
            None => None,
        },
        Endpoint::Signup => Some(ResponseV::Registered),
        Endpoint::Login => match member_str(j, "token"@) {
            Some(t) => Some(ResponseV::LoggedIn(t)),
            None => None,
        },
    }
}

/// The answer that `j` gives to a request to `e`, read by its `status` tag.
pub open spec fn tagged_of(e: Endpoint, j: JsonV) -> Option<ResponseV> {
    match member_str(j, "status"@) {
        Some(s) => if s == "ok"@ {
            success_of(e, j)
        } else if s == "error"@ {
            match member_str(j, "reason"@) {
                Some(reason) => Some(ResponseV::Fail(FailureV { status: s, reason })),
                None => None,
            }
        } else {
            None
        },
        None => None,
    }
}

/// The decoded answer to a request to `e`, where `parsed` is the body read as JSON or
/// the parser's complaint.
pub open spec fn decoded(e: Endpoint, parsed: Result<JsonV, Seq<char>>) -> ResponseV {
    match parsed {
        Err(m) => ResponseV::Fail(FailureV { status: PARSE_ERROR@, reason: m }),
        Ok(j) => match tagged_of(e, j) {
            Some(r) => r,
            None => ResponseV::Fail(FailureV { status: PARSE_ERROR@, reason: SHAPE_MISMATCH@ }),
        },
    }
}

/// The mathematical value of a parsed body.
pub open spec fn parsed_view(parsed: Result<Json, String>) -> Result<JsonV, Seq<char>> {
    match parsed {
        Ok(j) => Ok(j@),
        Err(m) => Err(m@),
    }
}

impl CreatedPayload {
    /// The payload that `p` describes, if it has every field of one.
    pub fn from_json(p: &Json) -> (r: Option<CreatedPayload>)
        ensures
            match r {
                Some(c) => created_of(p@) == Some(c@),
                None => created_of(p@) is None,
            },
    {
        let repo_url = p.get_str("repo_url");
        let http_url = p.get_str("http_url");
        let ws_url = p.get_str("ws_url");
        let repository_created = p.get_bool("repository_created");
        match (repo_url, http_url, ws_url, repository_created) {
            (Some(repo_url), Some(http_url), Some(ws_url), Some(repository_created)) => Some(
                CreatedPayload { repo_url, http_url, ws_url, repository_created },
            ),
            _ => None,
        }
    }
}

impl InstalledPayload {
    /// The payload that `p` describes, if it has every field of one.
    pub fn from_json(p: &Json) -> (r: Option<InstalledPayload>)
        ensures
            match r {
                Some(i) => installed_of(p@) == Some(i@),
                None => installed_of(p@) is None,
            },
    {
        match (p.get_str("http_url"), p.get_str("ws_url")) {
            (Some(http_url), Some(ws_url)) => Some(InstalledPayload { http_url, ws_url }),
            _ => None,
        }
    }
}

/// The version list that `p` describes, if it is an array of strings.
pub fn versions_from_json(p: &Json) -> (r: Option<Vec<String>>)
    ensures
        match r {
            Some(v) => versions_of(p@) == Some(texts(v@)),
            None => versions_of(p@) is None,
        },
{
    match p {
        Json::Array(items) => {
            let ghost vs = p@->Array_0;
            assert(p@ == JsonV::Array(vs));
            let mut out: Vec<String> = Vec::new();
            let mut i: usize = 0;
            while i < items.len()
                invariant
                    p@ == JsonV::Array(vs),
                    vs.len() == items.len(),
                    0 <= i <= items.len(),
                    out@.len() == i,
                    forall|n: int| 0 <= n < items.len() ==> #[trigger] vs[n] == items[n]@,
                    forall|n: int| 0 <= n < i ==> #[trigger] vs[n] is Str,
                    texts(out@) =~= vs.take(i as int).map_values(|x: JsonV| x->Str_0),
                decreases items.len() - i,
            {
                match &items[i] {
                    Json::Str(s) => {
                        let ghost before = out@;
                        out.push(s.clone());
                        assert(out@ =~= before.push(out@[i as int]));
                        assert(texts(out@) =~= texts(before).push(s@));
                        assert(vs.take(i + 1) =~= vs.take(i as int).push(vs[i as int]));
                    },
                    _ => {
                        assert(!(vs[i as int] is Str));
                        return None;
                    },
                }
                i = i + 1;
            }
            assert(vs.take(i as int) =~= vs);
            Some(out)
        },
        _ => None,
    }
}

/// Decodes the body of an answer to a request to `e`; `parsed` is the body read as JSON,
/// or the parser's complaint where it was not JSON.
pub fn decode_response(e: Endpoint, parsed: Result<Json, String>) -> (r: Response)
    ensures
        r@ == decoded(e, parsed_view(parsed)),
{
    match parsed {
        Err(m) => Response::Fail(Failure { status: String::from_str(PARSE_ERROR), reason: m }),
        Ok(j) => match decode_tagged(e, &j) {
            Some(r) => r,
            None => Response::Fail(
                Failure {
                    status: String::from_str(PARSE_ERROR),
                    reason: String::from_str(SHAPE_MISMATCH),
                },
            ),
        },
    }
}

/// The answer that `j` gives to a request to `e`, if it has a shape that `e` allows.
pub fn decode_tagged(e: Endpoint, j: &Json) -> (r: Option<Response>)
    ensures
        match r {
            Some(x) => tagged_of(e, j@) == Some(x@),
            None => tagged_of(e, j@) is None,
        },
{
    let status = match j.get_str("status") {
        Some(s) => s,
        None => return None,
    };
    if status == String::from_str("ok") {
        decode_success(e, j)
    } else if status == String::from_str("error") {
        match j.get_str("reason") {
            Some(reason) => Some(Response::Fail(Failure { status, reason })),
            None => None,
        }
    } else {
        None
    }
}

/// The success that `j` reports for a request to `e`, if it has the shape `e` calls for.
pub fn decode_success(e: Endpoint, j: &Json) -> (r: Option<Response>)
    ensures
        match r {
            Some(x) => success_of(e, j@) == Some(x@),
            None => success_of(e, j@) is None,
        },
{
    match e {
        Endpoint::Create => match j.get("payload") {
            Some(p) => match CreatedPayload::from_json(p) {
                Some(c) => Some(Response::Created(c)),
                None => None,
            },
            None => None,
        },
        Endpoint::Find => match j.get("payload") {
            Some(p) => match versions_from_json(p) {
                Some(vs) => Some(Response::Found(vs)),
                None => None,
            },
            None => None,
        },
        Endpoint::Install => match j.get("payload") {
            Some(p) => match InstalledPayload::from_json(p) {
                Some(i) => Some(Response::Installed(i)),
                None => None,
            },
            None => None,
        },
        Endpoint::Signup => Some(Response::Registered),
        Endpoint::Login => match j.get_str("token") {
            Some(t) => Some(Response::LoggedIn(t)),
            None => None,
        },
    }
}

/// The JSON object that holds `fields`.
pub open spec fn object(fields: Seq<(Seq<char>, JsonV)>) -> JsonV {
    JsonV::Object(fields)
}

/// The JSON text of a created-project payload.
pub open spec fn created_json(c: CreatedV) -> JsonV {
    object(
        seq![
            ("repo_url"@, JsonV::Str(c.repo_url)),
            ("http_url"@, JsonV::Str(c.http_url)),
            ("ws_url"@, JsonV::Str(c.ws_url)),
            ("repository_created"@, JsonV::Bool(c.repository_created)),
        ],
    )
}

/// The JSON text of an installed-project payload.
pub open spec fn installed_json(i: InstalledV) -> JsonV {
    object(seq![("http_url"@, JsonV::Str(i.http_url)), ("ws_url"@, JsonV::Str(i.ws_url))])
}

/// The JSON array of the strings `vs`.
pub open spec fn str_array(vs: Seq<Seq<char>>) -> JsonV {
    JsonV::Array(vs.map_values(|v: Seq<char>| JsonV::Str(v)))
}

/// A success tagged `ok` that carries `value` under `key`.
pub open spec fn ok_with(key: Seq<char>, value: JsonV) -> JsonV {
    object(seq![("status"@, JsonV::Str("ok"@)), (key, value)])
}

/// The JSON in which the service sends the answer `r`.
pub open spec fn encoded(r: ResponseV) -> JsonV {
    match r {
        ResponseV::Created(c) => ok_with("payload"@, created_json(c)),
        ResponseV::Found(vs) => ok_with("payload"@, str_array(vs)),
        ResponseV::Installed(i) => ok_with("payload"@, installed_json(i)),
        ResponseV::Registered => object(seq![("status"@, JsonV::Str("ok"@))]),
        ResponseV::LoggedIn(t) => ok_with("token"@, JsonV::Str(t)),
        ResponseV::Fail(f) => object(
            seq![("status"@, JsonV::Str(f.status)), ("reason"@, JsonV::Str(f.reason))],
        ),
    }
}

/// `r` is an answer that the service may give to a request to `e`: the success of that
/// request, or a failure tagged `error`.
pub open spec fn answers(e: Endpoint, r: ResponseV) -> bool {
    match r {
        ResponseV::Created(_) => e == Endpoint::Create,
        ResponseV::Found(_) => e == Endpoint::Find,
        ResponseV::Installed(_) => e == Endpoint::Install,
        ResponseV::Registered => e == Endpoint::Signup,
        ResponseV::LoggedIn(_) => e == Endpoint::Login,
        ResponseV::Fail(f) => f.status == "error"@,
    }
}

/// The member names of the wire format are pairwise distinct, and `ok` is not `error`.
proof fn lemma_names_distinct()
    ensures
        "ok"@ != "error"@,
        "status"@ != "payload"@,
        "status"@ != "token"@,
        "status"@ != "reason"@,
        "repo_url"@ != "http_url"@,
        "repo_url"@ != "ws_url"@,
        "repo_url"@ != "repository_created"@,
        "http_url"@ != "ws_url"@,
        "http_url"@ != "repository_created"@,
        "ws_url"@ != "repository_created"@,
{
    reveal_strlit("status");
    reveal_strlit("ok");
    reveal_strlit("error");
    reveal_strlit("reason");
    reveal_strlit("payload");
    reveal_strlit("token");
    reveal_strlit("repo_url");
    reveal_strlit("http_url");
    reveal_strlit("ws_url");
    reveal_strlit("repository_created");
    assert("ok"@.len() != "error"@.len());
    assert("status"@.len() != "payload"@.len());
    assert("status"@.len() != "token"@.len());
    assert("status"@[0] != "reason"@[0]);
    assert("repo_url"@[0] != "http_url"@[0]);
    assert("repo_url"@.len() != "ws_url"@.len());
    assert("repo_url"@.len() != "repository_created"@.len());
    assert("http_url"@.len() != "ws_url"@.len());
    assert("http_url"@.len() != "repository_created"@.len());
    assert("ws_url"@.len() != "repository_created"@.len());
}

/// Encoding an answer to JSON and decoding it for the request it answers gives the same
/// answer back.
pub proof fn lemma_decode_encoded(e: Endpoint, r: ResponseV)
    requires
        answers(e, r),
    ensures
        decoded(e, Ok(encoded(r))) == r,
{
    lemma_names_distinct();
    reveal_with_fuel(crate::json::lookup, 5);
    let j = encoded(r);
    match r {
        ResponseV::Created(c) => {
            assert(member(j, "payload"@) == Some(created_json(c)));
        },
        ResponseV::Found(vs) => {
            let items = str_array(vs)->Array_0;
            assert(forall|i: int| 0 <= i < items.len() ==> #[trigger] items[i] is Str);
            assert(items.map_values(|x: JsonV| x->Str_0) =~= vs);
            assert(versions_of(str_array(vs)) == Some(vs));
            assert(member(j, "payload"@) == Some(str_array(vs)));
        },
        ResponseV::Installed(i) => {
            assert(member(j, "payload"@) == Some(installed_json(i)));
            assert(installed_of(installed_json(i)) == Some(i));
        },
        ResponseV::Registered => {},
        ResponseV::LoggedIn(t) => {
            assert(member_str(j, "token"@) == Some(t));
        },
        ResponseV::Fail(f) => {
            assert(member_str(j, "reason"@) == Some(f.reason));
        },
    }
    assert(member_str(j, "status"@) is Some);
    assert(tagged_of(e, j) == Some(r));
}

/// Decoding depends on the request and the body alone: a body that is not JSON,
/// decoded twice, gives the same failure both times, tagged `json parse error` and
/// carrying the parser's complaint.
pub proof fn lemma_decode_malformed_twice(e: Endpoint, first: Seq<char>, second: Seq<char>)
    requires
        first == second,
    ensures
        decoded(e, Err(first)) == decoded(e, Err(second)),
        decoded(e, Err(first)) == ResponseV::Fail(FailureV { status: PARSE_ERROR@, reason: first }),
{
}

/// Whatever the body, the decoded answer to a request to `e` is that request's own
/// success or a failure, never the success of another request.
pub proof fn lemma_decoded_fits_request(e: Endpoint, parsed: Result<JsonV, Seq<char>>)
    ensures
        decoded(e, parsed) is Fail || answers(e, decoded(e, parsed)),
{
}

/// The JSON object that holds `fields`, in that order.
fn object_of(fields: Vec<(String, Json)>) -> (r: Json)
    ensures
        r@ == object(Seq::new(fields@.len(), |i: int| (fields@[i].0@, fields@[i].1@))),
{
    let r = Json::Object(fields);
    assert(r@->Object_0 =~= Seq::new(fields@.len(), |i: int| (fields@[i].0@, fields@[i].1@)));
    r
}

impl CreatedPayload {
    /// This payload as the service writes it.
    pub fn to_json(&self) -> (r: Json)
        ensures
            r@ == created_json(self@),
    {
        let fields = vec![
            str_member("repo_url", self.repo_url.clone()),
            str_member("http_url", self.http_url.clone()),
            str_member("ws_url", self.ws_url.clone()),
            (String::from_str("repository_created"), Json::Bool(self.repository_created)),
        ];
        let r = object_of(fields);
        assert(r@->Object_0 =~= created_json(self@)->Object_0);
        r
    }
}

impl InstalledPayload {
    /// This payload as the service writes it.
    pub fn to_json(&self) -> (r: Json)
        ensures
            r@ == installed_json(self@),
    {
        let fields = vec![str_member("http_url", self.http_url.clone()), str_member("ws_url", self.ws_url.clone())];
        let r = object_of(fields);
        assert(r@->Object_0 =~= installed_json(self@)->Object_0);
        r
    }
}

/// The JSON array of the strings in `vs`.
pub fn str_array_of(vs: &Vec<String>) -> (r: Json)
    ensures
        r@ == str_array(texts(vs@)),
{
    let mut items: Vec<Json> = Vec::new();
    let mut i: usize = 0;
    while i < vs.len()
        invariant
            0 <= i <= vs.len(),
            items@.len() == i,
            forall|n: int| 0 <= n < i ==> #[trigger] items@[n]@ == JsonV::Str(vs@[n]@),
        decreases vs.len() - i,
    {
        items.push(Json::Str(vs[i].clone()));
        i = i + 1;
    }
    let ghost expected = str_array(texts(vs@))->Array_0;
    let r = Json::Array(items);
    assert forall|n: int| 0 <= n < vs@.len() implies #[trigger] r@->Array_0[n] == expected[n] by {
        assert(items@[n]@ == JsonV::Str(vs@[n]@));
    }
    assert(r@->Array_0 =~= expected);
    r
}

/// A success tagged `ok` that carries `value` under `key`.
fn ok_with_of(key: &str, value: Json) -> (r: Json)
    ensures
        r@ == ok_with(key@, value@),
{
    let ok = String::from_str("ok");
    let fields = vec![str_member("status", ok), (String::from_str(key), value)];
    let r = object_of(fields);
    assert(r@->Object_0 =~= ok_with(key@, value@)->Object_0);
    r
}

impl Response {
    /// This answer as the service writes it.
    pub fn to_json(&self) -> (r: Json)
        ensures
            r@ == encoded(self@),
    {
        match self {
            Response::Created(c) => ok_with_of("payload", c.to_json()),
            Response::Found(vs) => ok_with_of("payload", str_array_of(vs)),
            Response::Installed(i) => ok_with_of("payload", i.to_json()),
            Response::Registered => {
                let ok = String::from_str("ok");
                let r = object_of(vec![str_member("status", ok)]);
                assert(r@->Object_0 =~= encoded(self@)->Object_0);
                r
            },
            Response::LoggedIn(t) => ok_with_of("token", Json::Str(t.clone())),
            Response::Fail(f) => {
                let r = object_of(vec![str_member("status", f.status.clone()), str_member("reason", f.reason.clone())]);
                assert(r@->Object_0 =~= encoded(self@)->Object_0);
                r
            },
        }
    }
}

} // verus!
