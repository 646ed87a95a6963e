//! Input rules written as regular expressions: passwords and sort orders.

use vstd::prelude::*;

use crate::pim::{regex_match_of, regex_valid_of, Pattern};

verus! {

/// The rule a sort order follows: comma-separated column names of 2 to 32
/// lower-case letters and underscores (starting and ending with a letter),
/// each optionally followed by a space and a direction.
pub open spec fn order_by_pattern() -> Seq<char> {
    "^[a-z][a-z_]{0,30}[a-z](\\s(asc|ASC|desc|DESC))?(,[a-z][a-z_]{0,30}[a-z](\\s(asc|ASC|desc|DESC))?)*$"@
}

/// The rule a password follows: a letter, then 14 to 254 letters, digits
/// or any of `_#@$`.
pub open spec fn password_pattern() -> Seq<char> {
    "^[a-zA-Z][a-zA-Z0-9_#@\\$]{14,254}$"@
}

/// A broken input rule, by name.
#[derive(Debug)]
pub struct ValidationError {
    pub code: String,
}

/// Whether `text` follows the rule `pattern`: the rule compiles and matches.
pub open spec fn follows(pattern: Seq<char>, text: Seq<char>) -> bool {
    regex_valid_of(pattern) && regex_match_of(pattern, text)
}

fn check(pattern: &str, text: &str, code: &str) -> (r: Result<(), ValidationError>)
    ensures
        match r {
            Ok(()) => follows(pattern@, text@),
            Err(e) => !follows(pattern@, text@) && e.code@ == code@,
        },
{
    match Pattern::compile(pattern) {
        Some(p) => if p.is_match(text) {
            return Ok(());
        },
        None => {},
    }
    Err(ValidationError { code: String::from_str(code) })
}

/// Checks a password against the password rule.
pub fn check_password(password: &str) -> (r: Result<(), ValidationError>)
    ensures
        match r {
            Ok(()) => follows(password_pattern(), password@),
            Err(e) => !follows(password_pattern(), password@) && e.code@ == "invalid password"@,
        },
{
    check("^[a-zA-Z][a-zA-Z0-9_#@\\$]{14,254}$", password, "invalid password")
}

/// Checks a sort order against the sort-order rule.
pub fn check_order_by(sort: &str) -> (r: Result<(), ValidationError>)
    ensures
        match r {
            Ok(()) => follows(order_by_pattern(), sort@),
            Err(e) => !follows(order_by_pattern(), sort@) && e.code@ == "invalid order by"@,
        },
{
    check(
        "^[a-z][a-z_]{0,30}[a-z](\\s(asc|ASC|desc|DESC))?(,[a-z][a-z_]{0,30}[a-z](\\s(asc|ASC|desc|DESC))?)*$",
        sort,
        "invalid order by",
    )
}

} // verus!
