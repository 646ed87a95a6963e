//! The error codes of the core crate: codes of the form
//! `<system>.<status>.<identifier>`, and the message an error is reported
//! with.

use vstd::prelude::*;
use vstd::std_specs::cmp::PartialEqSpecImpl;
use vstd::std_specs::convert::FromSpec;
use vstd::std_specs::convert::FromSpecImpl;

use crate::json::{json_quote, json_quote_of};
use crate::text::{chars_of, concat2, split_at_char, split_char, split_from, views};

verus! {

/// What went wrong. Each variant but `Unauthorized` carries the text that
/// describes it.
#[derive(Debug)]
pub enum Code {
    Any(String),
    NotFound(String),
    Forbidden(String),
    Unauthorized,
    Validates(String),
    BadRequest(String),
}

/// The code of each kind of error.
pub open spec fn code_of(c: Code) -> Seq<char> {
    match c {
        Code::Any(_) => "Cim.500.1010001"@,
        Code::NotFound(_) => "Cim.404.1010002"@,
        Code::Unauthorized => "Cim.401.1010003"@,
        Code::Validates(_) => "Cim.422.1010004"@,
        Code::Forbidden(_) => "Cim.403.1010005"@,
        Code::BadRequest(_) => "Cim.400.1010006"@,
    }
}

/// The text an error displays as.
pub open spec fn display_of(c: Code) -> Seq<char> {
    match c {
        Code::Any(m) => m@,
        Code::NotFound(m) => "Not found. "@ + m@,
        Code::Forbidden(m) => "Forbidden. "@ + m@,
        Code::Unauthorized => "Authentication is required to access this resource"@,
        Code::Validates(m) => "Please recheck the request.see: "@ + m@,
        Code::BadRequest(m) => "Please recheck the request.see: "@ + m@,
    }
}

impl Code {
    /// The code of this error.
    pub fn code(&self) -> (r: &'static str)
        ensures
            r@ == code_of(*self),
    {
        match self {
            Code::Any(_) => "Cim.500.1010001",
            Code::NotFound(_) => "Cim.404.1010002",
            Code::Unauthorized => "Cim.401.1010003",
            Code::Validates(_) => "Cim.422.1010004",
            Code::Forbidden(_) => "Cim.403.1010005",
            Code::BadRequest(_) => "Cim.400.1010006",
        }
    }

    /// The text this error displays as.
    pub fn message(&self) -> (r: String)
        ensures
            r@ == display_of(*self),
    {
        match self {
            Code::Any(m) => m.clone(),
            Code::NotFound(m) => concat2("Not found. ", m.as_str()),
            Code::Forbidden(m) => concat2("Forbidden. ", m.as_str()),
            Code::Unauthorized => String::from_str(
                "Authentication is required to access this resource",
            ),
            Code::Validates(m) => concat2("Please recheck the request.see: ", m.as_str()),
            Code::BadRequest(m) => concat2("Please recheck the request.see: ", m.as_str()),
        }
    }

    /// An unexpected failure with the text of the underlying error.
    pub fn any(err: &str) -> (r: Code)
        ensures
            r is Any && r->Any_0@ == err@,
    {
        Code::Any(String::from_str(err))
    }

    pub fn not_found(err: &str) -> (r: Code)
        ensures
            r is NotFound && r->NotFound_0@ == err@,
    {
        Code::NotFound(String::from_str(err))
    }

    pub fn forbidden(err: &str) -> (r: Code)
        ensures
            r is Forbidden && r->Forbidden_0@ == err@,
    {
        Code::Forbidden(String::from_str(err))
    }

    pub fn bad_request(err: &str) -> (r: Code)
        ensures
            r is BadRequest && r->BadRequest_0@ == err@,
    {
        Code::BadRequest(String::from_str(err))
    }
}

/// The status an HTTP status code's text denotes, as
/// `http::StatusCode::from_str` reads it: three ASCII digits, the first not
/// zero.
pub open spec fn status_text(s: Seq<char>) -> Option<int> {
    if s.len() == 3 && '1' <= s[0] <= '9' && '0' <= s[1] <= '9' && '0' <= s[2] <= '9' {
        Some(
            ((s[0] as u32) - 48) * 100 + ((s[1] as u32) - 48) * 10 + ((s[2] as u32) - 48),
        )
    } else {
        None
    }
}

/// Reads an HTTP status code from its text.
pub fn parse_status(s: &str) -> (r: Option<u16>)
    ensures
        match r {
            Some(n) => status_text(s@) == Some(n as int),
            None => status_text(s@) is None,
        },
{
    let v = chars_of(s);
    if v.len() != 3 {
        return None;
    }
    let (a, b, c) = (v[0], v[1], v[2]);
    if !('1' <= a && a <= '9' && '0' <= b && b <= '9' && '0' <= c && c <= '9') {
        return None;
    }
    let n = (a as u32 - 48) * 100 + (b as u32 - 48) * 10 + (c as u32 - 48);
    Some(n as u16)
}

/// The status that a code of the form `<system>.<status>.<identifier>`
/// carries, or the text of why it carries none.
pub open spec fn code_status(code: Seq<char>) -> Result<int, Seq<char>> {
    let parts = split_char(code, '.');
    if parts.len() != 3 {
        Err("code's lenght isn't 3"@)
    } else {
        match status_text(parts[1]) {
            Some(n) => Ok(n),
            None => Err("invalid status code"@),
        }
    }
}

/// Reads the status that the code `code` carries.
pub fn status_of_code(code: &str) -> (r: Result<u16, String>)
    ensures
        match code_status(code@) {
            Ok(n) => r is Ok && r->Ok_0 == n,
            Err(t) => r is Err && r->Err_0@ == t,
        },
{
    let parts = split_at_char(code, '.');
    if parts.len() != 3 {
        assert(views(parts@).len() != 3);
        return Err(String::from_str("code's lenght isn't 3"));
    }
    assert(views(parts@)[1] == parts@[1]@);
    match parse_status(parts[1].as_str()) {
        Some(n) => Ok(n),
        None => Err(String::from_str("invalid status code")),
    }
}

/// An error as the core crate reports it.
#[derive(Debug)]
pub struct WithBacktrace {
    code: Code,
}

impl WithBacktrace {
    pub closed spec fn spec_code(&self) -> Code {
        self.code
    }

    /// Wraps an error code.
    pub fn with(code: Code) -> (r: WithBacktrace)
        ensures
            r.spec_code() == code,
    {
        WithBacktrace { code }
    }

    /// The error this value carries.
    pub fn code(&self) -> (r: &Code)
        ensures
            *r == self.spec_code(),
    {
        &self.code
    }

    /// Whether two errors are equal as the core crate compares them: by code.
    pub fn same_code(&self, other: &WithBacktrace) -> (r: bool)
        ensures
            r == (code_of(self.spec_code()) == code_of(other.spec_code())),
    {
        crate::text::str_eq(self.code.code(), other.code.code())
    }

    /// The status and body of the response reporting this error: the
    /// status its code carries with the JSON body
    /// `{"code":<code>,"message":<text>}`, or, where the code carries no
    /// status, status 500 with the plain text of why.
    pub fn response_parts(&self) -> (r: (u16, String))
        ensures
            match code_status(code_of(self.spec_code())) {
                Ok(n) => r.0 == n && r.1@ == "{\"code\":"@ + json_quote_of(code_of(self.spec_code()))
                    + ",\"message\":"@ + json_quote_of(display_of(self.spec_code())) + "}"@,
                Err(t) => r.0 == 500 && r.1@ == t,
            },
    {
        let code = self.code.code();
        match status_of_code(code) {
            Err(t) => (500, t),
            Ok(status) => {
                let mut body = String::from_str("{\"code\":");
                let q = json_quote(code);
                body.append(q.as_str());
                body.append(",\"message\":");
                let m = self.code.message();
                let q2 = json_quote(m.as_str());
                body.append(q2.as_str());
                body.append("}");
                (status, body)
            },
        }
    }
}

/// An error as reported to clients.
#[derive(Debug)]
pub struct Message {
    pub code: String,
    pub message: String,
    pub result: Option<String>,
}

/// The message each error is reported with.
pub open spec fn message_for(e: Code) -> (Seq<char>, Seq<char>, Option<Seq<char>>) {
    match e {
        Code::Any(m) => ("CIM.500.1010001"@, "Internal Server Error"@, Some(m@)),
        Code::NotFound(m) => ("CIM.404.1010002"@, "Not Found"@, Some(m@)),
        Code::Forbidden(m) => ("CIM.403.1010003"@, "Forbidden"@, Some(m@)),
        Code::Unauthorized => (
            "CIM.401.1010004"@,
            "Authentication is required to access this resource"@,
            None,
        ),
        Code::Validates(m) => ("CIM.422.1010005"@, "Unprocessable Entity"@, Some(m@)),
        Code::BadRequest(m) => ("CIM.400.1010007"@, m@, None),
    }
}

/// The status each message's code carries.
pub open spec fn message_status(e: Code) -> int {
    match e {
        Code::Any(_) => 500,
        Code::NotFound(_) => 404,
        Code::Forbidden(_) => 403,
        Code::Unauthorized => 401,
        Code::Validates(_) => 422,
        Code::BadRequest(_) => 400,
    }
}

impl Message {
    /// The message that reports the error `val`.
    pub fn from_error(val: Code) -> (r: Message)
        ensures
            (r.code@, r.message@, crate::oidc::uri::opt_view(r.result)) == message_for(val),
    {
        match val {
            Code::Any(err) => Message {
                code: String::from_str("CIM.500.1010001"),
                message: String::from_str("Internal Server Error"),
                result: Some(err),
            },
            Code::NotFound(err) => Message {
                code: String::from_str("CIM.404.1010002"),
                message: String::from_str("Not Found"),
                result: Some(err),
            },
            Code::Forbidden(err) => Message {
                code: String::from_str("CIM.403.1010003"),
                message: String::from_str("Forbidden"),
                result: Some(err),
            },
            Code::Unauthorized => Message {
                code: String::from_str("CIM.401.1010004"),
                message: String::from_str("Authentication is required to access this resource"),
                result: None,
            },
            Code::Validates(err) => Message {
                code: String::from_str("CIM.422.1010005"),
                message: String::from_str("Unprocessable Entity"),
                result: Some(err),
            },
            Code::BadRequest(err) => Message {
                code: String::from_str("CIM.400.1010007"),
                message: err,
                result: None,
            },
        }
    }

    /// The status the message's code carries.
    pub fn status_code(&self) -> (r: Result<u16, Code>)
        ensures
            match code_status(self.code@) {
                Ok(n) => r is Ok && r->Ok_0 == n,
                Err(t) => r is Err && r->Err_0 is Any && r->Err_0->Any_0@ == t,
            },
    {
        match status_of_code(self.code.as_str()) {
            Ok(n) => Ok(n),
            Err(t) => Err(Code::Any(t)),
        }
    }
}


proof fn lemma_code_text_status(code: Seq<char>, a: char, b: char, c: char, d: int)
    requires
        code.len() == 15,
        code[0] != '.',
        code[1] != '.',
        code[2] != '.',
        code[3] == '.',
        code[4] == a,
        code[5] == b,
        code[6] == c,
        code[7] == '.',
        forall|i: int| 8 <= i < 15 ==> code[i] != '.',
        status_text(seq![a, b, c]) == Some(d),
    ensures
        code_status(code) == Ok::<int, Seq<char>>(d),
{
    let parts = split_char(code, '.');
    assert(parts == seq![code.subrange(0, 3), code.subrange(4, 7), code.subrange(8, 15)]) by {
        lemma_split_fifteen(code);
    }
    assert(code.subrange(4, 7) =~= seq![a, b, c]);
}

proof fn lemma_split_fifteen(code: Seq<char>)
    requires
        code.len() == 15,
        code[0] != '.',
        code[1] != '.',
        code[2] != '.',
        code[3] == '.',
        code[4] != '.',
        code[5] != '.',
        code[6] != '.',
        code[7] == '.',
        forall|i: int| 8 <= i < 15 ==> code[i] != '.',
    ensures
        split_char(code, '.') == seq![code.subrange(0, 3), code.subrange(4, 7), code.subrange(8, 15)],
{
    let e = Seq::<char>::empty();
    let n = Seq::<Seq<char>>::empty();
    assert(split_from(code, '.', e, n) == split_from(code.skip(1), '.', e.push(code[0]), n)) by {
        assert(code.drop_first() =~= code.skip(1));
    }
    assert(split_from(code.skip(1), '.', code.take(1), n) == split_from(code.skip(2), '.', code.take(2), n)) by {
        assert(code.skip(1).drop_first() =~= code.skip(2));
        assert(code.take(1).push(code[1]) =~= code.take(2));
    }
    assert(split_from(code.skip(2), '.', code.take(2), n) == split_from(code.skip(3), '.', code.take(3), n)) by {
        assert(code.skip(2).drop_first() =~= code.skip(3));
        assert(code.take(2).push(code[2]) =~= code.take(3));
    }
    assert(e.push(code[0]) =~= code.take(1));
    assert(split_from(code.skip(3), '.', code.take(3), n) == split_from(code.skip(4), '.', e, n.push(code.take(3)))) by {
        assert(code.skip(3).drop_first() =~= code.skip(4));
    }
    assert(split_from(code.skip(4), '.', e, n.push(code.take(3))) == split_from(code.skip(5), '.', code.subrange(4, 5), n.push(code.take(3)))) by {
        assert(code.skip(4).drop_first() =~= code.skip(5));
        assert(e.push(code[4]) =~= code.subrange(4, 5));
    }
    assert(split_from(code.skip(5), '.', code.subrange(4, 5), n.push(code.take(3))) == split_from(code.skip(6), '.', code.subrange(4, 6), n.push(code.take(3)))) by {
        assert(code.skip(5).drop_first() =~= code.skip(6));
        assert(code.subrange(4, 5).push(code[5]) =~= code.subrange(4, 6));
    }
    assert(split_from(code.skip(6), '.', code.subrange(4, 6), n.push(code.take(3))) == split_from(code.skip(7), '.', code.subrange(4, 7), n.push(code.take(3)))) by {
        assert(code.skip(6).drop_first() =~= code.skip(7));
        assert(code.subrange(4, 6).push(code[6]) =~= code.subrange(4, 7));
    }
    let two = n.push(code.take(3)).push(code.subrange(4, 7));
    assert(split_from(code.skip(7), '.', code.subrange(4, 7), n.push(code.take(3))) == split_from(code.skip(8), '.', e, two)) by {
        assert(code.skip(7).drop_first() =~= code.skip(8));
    }
    lemma_split_no_sep(code.skip(8), '.', e, two);
    assert(e + code.skip(8) =~= code.subrange(8, 15));
    assert(code.take(3) =~= code.subrange(0, 3));
    assert(two.push(code.subrange(8, 15)) =~= seq![code.subrange(0, 3), code.subrange(4, 7), code.subrange(8, 15)]);
}

proof fn lemma_split_no_sep(s: Seq<char>, c: char, cur: Seq<char>, acc: Seq<Seq<char>>)
    requires
        forall|i: int| 0 <= i < s.len() ==> s[i] != c,
    ensures
        split_from(s, c, cur, acc) == acc.push(cur + s),
    decreases s.len(),
{
    if s.len() == 0 {
        assert(cur + s =~= cur);
    } else {
        lemma_split_no_sep(s.drop_first(), c, cur.push(s[0]), acc);
        assert(cur.push(s[0]) + s.drop_first() =~= cur + s);
    }
}

/// The code of every message carries the status of the error the message
/// reports.
pub proof fn lemma_message_status_roundtrip(e: Code)
    ensures
        code_status(message_for(e).0) == Ok::<int, Seq<char>>(message_status(e)),
{
    reveal_strlit("CIM.500.1010001");
    reveal_strlit("CIM.404.1010002");
    reveal_strlit("CIM.403.1010003");
    reveal_strlit("CIM.401.1010004");
    reveal_strlit("CIM.422.1010005");
    reveal_strlit("CIM.400.1010007");
    let code = message_for(e).0;
    match e {
        Code::Any(_) => lemma_code_text_status(code, '5', '0', '0', 500),
        Code::NotFound(_) => lemma_code_text_status(code, '4', '0', '4', 404),
        Code::Forbidden(_) => lemma_code_text_status(code, '4', '0', '3', 403),
        Code::Unauthorized => lemma_code_text_status(code, '4', '0', '1', 401),
        Code::Validates(_) => lemma_code_text_status(code, '4', '2', '2', 422),
        Code::BadRequest(_) => lemma_code_text_status(code, '4', '0', '0', 400),
    }
}

/// The code of every error carries the status of its kind.
pub proof fn lemma_code_status_of_kind(e: Code)
    ensures
        code_status(code_of(e)) == Ok::<int, Seq<char>>(message_status(e)),
{
    reveal_strlit("Cim.500.1010001");
    reveal_strlit("Cim.404.1010002");
    reveal_strlit("Cim.401.1010003");
    reveal_strlit("Cim.422.1010004");
    reveal_strlit("Cim.403.1010005");
    reveal_strlit("Cim.400.1010006");
    let code = code_of(e);
    match e {
        Code::Any(_) => lemma_code_text_status(code, '5', '0', '0', 500),
        Code::NotFound(_) => lemma_code_text_status(code, '4', '0', '4', 404),
        Code::Forbidden(_) => lemma_code_text_status(code, '4', '0', '3', 403),
        Code::Unauthorized => lemma_code_text_status(code, '4', '0', '1', 401),
        Code::Validates(_) => lemma_code_text_status(code, '4', '2', '2', 422),
        Code::BadRequest(_) => lemma_code_text_status(code, '4', '0', '0', 400),
    }
}

impl PartialEq for WithBacktrace {
    /// Errors are equal when they are of the same kind: see `same_code`.
    fn eq(&self, other: &WithBacktrace) -> (r: bool) {
        self.same_code(other)
    }
}

impl PartialEqSpecImpl for WithBacktrace {
    open spec fn obeys_eq_spec() -> bool {
        true
    }

    open spec fn eq_spec(&self, other: &WithBacktrace) -> bool {
        code_of(self.spec_code()) == code_of(other.spec_code())
    }
}

impl From<Code> for WithBacktrace {
    fn from(code: Code) -> (r: WithBacktrace) {
        WithBacktrace { code }
    }
}

impl FromSpecImpl<Code> for WithBacktrace {
    open spec fn obeys_from_spec() -> bool {
        true
    }

    closed spec fn from_spec(v: Code) -> WithBacktrace {
        WithBacktrace { code: v }
    }
}

/// An error made from a code carries that code.
pub proof fn lemma_error_from_code(c: Code)
    ensures
        <WithBacktrace as FromSpec<Code>>::from_spec(c).spec_code() == c,
{
}

} // verus!
