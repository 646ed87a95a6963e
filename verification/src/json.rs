//! JSON text: the few readings and writings of JSON that the policy
//! conditions and the token bookkeeping make, through `serde_json`.

use vstd::prelude::*;

use crate::text::views;

verus! {

/// The lower-case hexadecimal digit of `v`, from 0 to 15.
pub open spec fn hex_digit(v: int) -> char {
    if v < 10 {
        (48 + v) as char
    } else {
        (87 + v) as char
    }
}

/// How `serde_json` writes the character `c` inside a JSON string: a
/// quote and a backslash behind a backslash, the control characters with
/// a short escape by it, the other control characters as `\u00` and two
/// hexadecimal digits, and every other character as it is.
pub open spec fn json_escaped(c: char) -> Seq<char> {
    if c == '"' {
        seq!['\\', '"']
    } else if c == '\\' {
        seq!['\\', '\\']
    } else if c == '\x08' {
        seq!['\\', 'b']
    } else if c == '\x0c' {
        seq!['\\', 'f']
    } else if c == '\n' {
        seq!['\\', 'n']
    } else if c == '\r' {
        seq!['\\', 'r']
    } else if c == '\t' {
        seq!['\\', 't']
    } else if (c as int) < 0x20 {
        seq!['\\', 'u', '0', '0', hex_digit(c as int / 16), hex_digit(c as int % 16)]
    } else {
        seq![c]
    }
}

/// The characters of `s`, each written as inside a JSON string.
pub open spec fn json_escaped_text(s: Seq<char>) -> Seq<char>
    decreases s.len(),
{
    if s.len() == 0 {
        Seq::empty()
    } else {
        json_escaped(s[0]) + json_escaped_text(s.drop_first())
    }
}

/// The JSON text that `serde_json::to_string` gives for the string `s`: the
/// string in double quotes, with its characters escaped as
/// [`json_escaped`] says.
pub open spec fn json_quote_of(s: Seq<char>) -> Seq<char> {
    seq!['"'] + json_escaped_text(s) + seq!['"']
}

/// The string that `serde_json::from_str::<String>` reads from the JSON text
/// `s`, or `None` where it fails.
pub uninterp spec fn json_string_of(s: Seq<char>) -> Option<Seq<char>>;

/// The map that `serde_json::from_str::<HashMap<String, String>>` reads from
/// the JSON text `s`, or `None` where it fails.
pub uninterp spec fn json_string_map_of(s: Seq<char>) -> Option<Map<Seq<char>, Seq<char>>>;

/// The text that `format!("{:?}", v)` gives for a `Vec<String>` holding `v`.
pub uninterp spec fn debug_text_of(v: Seq<Seq<char>>) -> Seq<char>;

/// JSON whitespace as `serde_json` skips it.
pub open spec fn is_json_ws(c: char) -> bool {
    c == ' ' || c == '\n' || c == '\t' || c == '\r'
}

/// `s` without its leading and trailing JSON whitespace.
pub open spec fn trim_json_ws(s: Seq<char>) -> Seq<char>
    decreases s.len(),
{
    if s.len() > 0 && is_json_ws(s[0]) {
        trim_json_ws(s.drop_first())
    } else if s.len() > 0 && is_json_ws(s.last()) {
        trim_json_ws(s.drop_last())
    } else {
        s
    }
}

/// The boolean that the JSON text `s` denotes: `true` or `false`, possibly
/// surrounded by JSON whitespace.
pub open spec fn json_bool_of(s: Seq<char>) -> Option<bool> {
    let t = trim_json_ws(s);
    if t == seq!['t', 'r', 'u', 'e'] {
        Some(true)
    } else if t == seq!['f', 'a', 'l', 's', 'e'] {
        Some(false)
    } else {
        None
    }
}

/// The map whose entries are the pairs of `v`.
pub open spec fn pairs_map(v: Seq<(String, String)>) -> Map<Seq<char>, Seq<char>> {
    Map::new(
        |k: Seq<char>| exists|i: int| 0 <= i < v.len() && (#[trigger] v[i]).0@ == k,
        |k: Seq<char>| v[choose|i: int| 0 <= i < v.len() && (#[trigger] v[i]).0@ == k].1@,
    )
}

/// No key occurs twice among the pairs of `v`.
pub open spec fn distinct_keys(v: Seq<(String, String)>) -> bool {
    forall|i: int, j: int|
        0 <= i < v.len() && 0 <= j < v.len() && i != j ==> (#[trigger] v[i]).0@ != (
        #[trigger] v[j]).0@
}

/// Calls `serde_json::to_string` on a string: the string as a JSON string
/// literal. For a `str` this serialisation does not fail.
#[verifier::external_body]
pub(crate) fn json_quote(s: &str) -> (r: String)
    ensures
        r@ == json_quote_of(s@),
{
    match serde_json::to_string(s) {
        Ok(t) => t,
        Err(_) => String::new(),
    }
}

/// Calls `serde_json::from_str::<bool>`: `true` or `false` between JSON
/// whitespace, as the deserializer's whitespace skipping, identifier match
/// and end-of-input check in the crate's source read it.
#[verifier::external_body]
pub(crate) fn json_bool(s: &str) -> (r: Option<bool>)
    ensures
        r == json_bool_of(s@),
{
    serde_json::from_str::<bool>(s).ok()
}

/// Calls `serde_json::from_str::<String>`; the string read is named by
/// [`json_string_of`].
#[verifier::external_body]
pub(crate) fn json_string(s: &str) -> (r: Option<String>)
    ensures
        match r {
            Some(t) => json_string_of(s@) == Some(t@),
            None => json_string_of(s@) is None,
        },
{
    serde_json::from_str::<String>(s).ok()
}

/// Calls `serde_json::from_str::<HashMap<String, String>>` and hands out the
/// entries of the map read, named by [`json_string_map_of`]. The order of
/// the entries is that of the map's iteration, which is left unstated.
#[verifier::external_body]
pub(crate) fn json_string_map(s: &str) -> (r: Option<Vec<(String, String)>>)
    ensures
        match r {
            Some(v) => distinct_keys(v@) && json_string_map_of(s@) == Some(pairs_map(v@)),
            None => json_string_map_of(s@) is None,
        },
{
    match serde_json::from_str::<std::collections::HashMap<String, String>>(s) {
        Ok(m) => Some(m.into_iter().collect()),
        Err(_) => None,
    }
}

/// Calls std's `Debug` formatting on a list of strings (`["a", "b"]`); the
/// text is named by [`debug_text_of`].
#[verifier::external_body]
pub(crate) fn debug_strings(v: &Vec<String>) -> (r: String)
    ensures
        r@ == debug_text_of(views(v@)),
{
    format!("{:?}", v)
}

} // verus!
