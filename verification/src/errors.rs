//! The service's error codes: each error carries an HTTP status and a
//! stable numeric identifier, and renders as a JSON body of both.

use vstd::prelude::*;
use vstd::std_specs::cmp::PartialEqSpecImpl;
use vstd::std_specs::convert::FromSpec;
use vstd::std_specs::convert::FromSpecImpl;

use crate::json::{json_quote, json_quote_of};
use crate::text::concat2;

verus! {

/// What went wrong. Each variant but `Unauthorized` carries the text that
/// describes it.
#[derive(Debug)]
pub enum Code {
    /// An unexpected failure, with the text of the underlying error.
    Any(String),
    NotFound(String),
    Forbidden(String),
    Unauthorized,
    /// Input that failed validation, with the text of the validation errors.
    Validates(String),
    BadRequest(String),
}

/// The HTTP status of each kind of error.
pub open spec fn status_of(c: Code) -> u16 {
    match c {
        Code::Any(_) => 500,
        Code::NotFound(_) => 404,
        Code::Unauthorized => 401,
        Code::Validates(_) => 422,
        Code::Forbidden(_) => 403,
        Code::BadRequest(_) => 400,
    }
}

/// The stable identifier of each kind of error.
pub open spec fn id_of(c: Code) -> Seq<char> {
    match c {
        Code::Any(_) => "1010001"@,
        Code::NotFound(_) => "1010002"@,
        Code::Unauthorized => "1010003"@,
        Code::Validates(_) => "1010004"@,
        Code::Forbidden(_) => "1010005"@,
        Code::BadRequest(_) => "1010006"@,
    }
}

/// The text an error displays as.
pub open spec fn message_of(c: Code) -> Seq<char> {
    match c {
        Code::Any(m) => m@,
        Code::NotFound(m) => "Not found. "@ + m@,
        Code::Forbidden(m) => "Forbidden. "@ + m@,
        Code::Unauthorized => "Authentication is required to access this resource"@,
        Code::Validates(m) => "Please recheck the request.see: "@ + m@,
        Code::BadRequest(m) => "Please recheck the request.see: "@ + m@,
    }
}

impl Clone for Code {
    fn clone(&self) -> (r: Self)
        ensures
            r == *self,
    {
        match self {
            Code::Any(m) => Code::Any(m.clone()),
            Code::NotFound(m) => Code::NotFound(m.clone()),
            Code::Forbidden(m) => Code::Forbidden(m.clone()),
            Code::Unauthorized => Code::Unauthorized,
            Code::Validates(m) => Code::Validates(m.clone()),
            Code::BadRequest(m) => Code::BadRequest(m.clone()),
        }
    }
}

impl Code {
    /// The status and identifier of this error.
    pub fn code(&self) -> (r: (u16, &'static str))
        ensures
            r.0 == status_of(*self),
            r.1@ == id_of(*self),
    {
        match self {
            Code::Any(_) => (500, "1010001"),
            Code::NotFound(_) => (404, "1010002"),
            Code::Unauthorized => (401, "1010003"),
            Code::Validates(_) => (422, "1010004"),
            Code::Forbidden(_) => (403, "1010005"),
            Code::BadRequest(_) => (400, "1010006"),
        }
    }

    /// The text this error displays as.
    pub fn message(&self) -> (r: String)
        ensures
            r@ == message_of(*self),
    {
        match self {
            Code::Any(m) => m.clone(),
            Code::NotFound(m) => concat2("Not found. ", m.as_str()),
            Code::Forbidden(m) => concat2("Forbidden. ", m.as_str()),
            Code::Unauthorized => String::from_str(
                "Authentication is required to access this resource",
            ),
            Code::Validates(m) => concat2("Please recheck the request.see: ", m.as_str()),
            Code::BadRequest(m) => concat2("Please recheck the request.see: ", m.as_str()),
        }
    }
}

/// An error as the service returns it.
#[derive(Debug)]
pub struct WithBacktrace {
    source: Code,
}

impl Clone for WithBacktrace {
    fn clone(&self) -> (r: Self)
        ensures
            r.spec_source() == self.spec_source(),
    {
        WithBacktrace { source: self.source.clone() }
    }
}

impl WithBacktrace {
    /// The error this value carries.
    pub closed spec fn spec_source(&self) -> Code {
        self.source
    }

    /// The error this value carries.
    pub fn source(&self) -> (r: &Code)
        ensures
            *r == self.spec_source(),
    {
        &self.source
    }

    /// Whether two errors are of the same kind: they are equal as the
    /// service compares errors, by identifier alone.
    pub fn same_code(&self, other: &WithBacktrace) -> (r: bool)
        ensures
            r == (id_of(self.spec_source()) == id_of(other.spec_source())),
    {
        let (_, a) = self.source.code();
        let (_, b) = other.source.code();
        crate::text::str_eq(a, b)
    }

    /// The text this error displays as.
    pub fn to_text(&self) -> (r: String)
        ensures
            r@ == message_of(self.spec_source()),
    {
        self.source.message()
    }

    /// The HTTP status and the JSON body of the response that reports this
    /// error: `{"code":<identifier>,"message":<text>}`.
    pub fn response_parts(&self) -> (r: (u16, String))
        ensures
            r.0 == status_of(self.spec_source()),
            r.1@ == "{\"code\":"@ + json_quote_of(id_of(self.spec_source())) + ",\"message\":"@
                + json_quote_of(message_of(self.spec_source())) + "}"@,
    {
        let (status, id) = self.source.code();
        let msg = self.source.message();
        let mut body = String::from_str("{\"code\":");
        let q1 = json_quote(id);
        body.append(q1.as_str());
        body.append(",\"message\":");
        let q2 = json_quote(msg.as_str());
        body.append(q2.as_str());
        body.append("}");
        (status, body)
    }

    /// The error this value carries, taken out of it.
    pub fn into_code(self) -> (r: Code)
        ensures
            r == self.spec_source(),
    {
        self.source
    }
}

/// Wraps an error code.
pub fn with(code: Code) -> (r: WithBacktrace)
    ensures
        r.spec_source() == code,
{
    WithBacktrace { source: code }
}

/// An unexpected failure with the text of the underlying error.
pub fn any(err: &str) -> (r: WithBacktrace)
    ensures
        r.spec_source() is Any,
        r.spec_source()->Any_0@ == err@,
{
    WithBacktrace { source: Code::Any(String::from_str(err)) }
}

/// A missing resource.
pub fn not_found(err: &str) -> (r: WithBacktrace)
    ensures
        r.spec_source() is NotFound,
        r.spec_source()->NotFound_0@ == err@,
{
    WithBacktrace { source: Code::NotFound(String::from_str(err)) }
}

/// A refused request.
pub fn forbidden(err: &str) -> (r: WithBacktrace)
    ensures
        r.spec_source() is Forbidden,
        r.spec_source()->Forbidden_0@ == err@,
{
    WithBacktrace { source: Code::Forbidden(String::from_str(err)) }
}

/// A request without valid credentials.
pub fn unauthorized() -> (r: WithBacktrace)
    ensures
        r.spec_source() is Unauthorized,
{
    WithBacktrace { source: Code::Unauthorized }
}

/// A malformed request.
pub fn bad_request(err: &str) -> (r: WithBacktrace)
    ensures
        r.spec_source() is BadRequest,
        r.spec_source()->BadRequest_0@ == err@,
{
    WithBacktrace { source: Code::BadRequest(String::from_str(err)) }
}

/// Input that failed validation.
pub fn validates(err: &str) -> (r: WithBacktrace)
    ensures
        r.spec_source() is Validates,
        r.spec_source()->Validates_0@ == err@,
{
    WithBacktrace { source: Code::Validates(String::from_str(err)) }
}

/// Errors compare by identifier alone: this comparison is an equivalence.
pub proof fn lemma_same_code_is_equivalence(a: Code, b: Code, c: Code)
    ensures
        id_of(a) == id_of(a),
        id_of(a) == id_of(b) ==> id_of(b) == id_of(a),
        id_of(a) == id_of(b) && id_of(b) == id_of(c) ==> id_of(a) == id_of(c),
{
}

/// Two errors have the same identifier exactly when they have the same
/// status: identifiers and statuses name the same six kinds.
pub proof fn lemma_id_determines_status(a: Code, b: Code)
    ensures
        (id_of(a) == id_of(b)) <==> (status_of(a) == status_of(b)),
{
    reveal_strlit("1010001");
    reveal_strlit("1010002");
    reveal_strlit("1010003");
    reveal_strlit("1010004");
    reveal_strlit("1010005");
    reveal_strlit("1010006");
    if id_of(a) == id_of(b) {
        assert(id_of(a)[6] == id_of(b)[6]);
    }
}

impl PartialEq for WithBacktrace {
    /// Errors are equal when they are of the same kind: see `same_code`.
    fn eq(&self, other: &WithBacktrace) -> (r: bool) {
        self.same_code(other)
    }
}

impl PartialEqSpecImpl for WithBacktrace {
    open spec fn obeys_eq_spec() -> bool {
        true
    }

    open spec fn eq_spec(&self, other: &WithBacktrace) -> bool {
        id_of(self.spec_source()) == id_of(other.spec_source())
    }
}

impl From<Code> for WithBacktrace {
    fn from(code: Code) -> (r: WithBacktrace) {
        WithBacktrace { source: code }
    }
}

impl FromSpecImpl<Code> for WithBacktrace {
    open spec fn obeys_from_spec() -> bool {
        true
    }

    closed spec fn from_spec(v: Code) -> WithBacktrace {
        WithBacktrace { source: v }
    }
}

impl From<WithBacktrace> for Code {
    fn from(e: WithBacktrace) -> (r: Code) {
        e.source
    }
}

impl FromSpecImpl<WithBacktrace> for Code {
    open spec fn obeys_from_spec() -> bool {
        true
    }

    open spec fn from_spec(v: WithBacktrace) -> Code {
        v.spec_source()
    }
}

/// An error made from a code carries that code, so that turning a code
/// into an error and back gives the code.
pub proof fn lemma_code_roundtrip(c: Code)
    ensures
        <WithBacktrace as FromSpec<Code>>::from_spec(c).spec_source() == c,
        <Code as FromSpec<WithBacktrace>>::from_spec(
            <WithBacktrace as FromSpec<Code>>::from_spec(c),
        ) == c,
{
}

} // verus!
