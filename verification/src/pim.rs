//! Policy statements and the conditions that a statement can attach to an
//! access request.

use vstd::prelude::*;

use crate::json::{
    distinct_keys, json_bool, json_bool_of, json_string, json_string_map, json_string_map_of,
    json_string_of, pairs_map,
};
use crate::num::{i64_text, parse_i64};
use crate::text::{chars_of, contains_chars, contains_seq, str_eq, views};

verus! {

/// An access request: who (`subject`) does what (`action`) to which
/// resource, with further facts in `context` (each a JSON text).
#[derive(Debug)]
pub struct Request {
    pub resource: String,
    pub action: String,
    pub subject: String,
    pub context: Vec<(String, String)>,
}

/// The index of the pair whose key is `key`.
pub fn find_pair(v: &Vec<(String, String)>, key: &str) -> (r: Option<usize>)
    ensures
        match r {
            Some(i) => i < v@.len() && v@[i as int].0@ == key@,
            None => forall|i: int| 0 <= i < v@.len() ==> (#[trigger] v@[i]).0@ != key@,
        },
{
    for i in 0..v.len()
        invariant
            forall|k: int| 0 <= k < i ==> (#[trigger] v@[k]).0@ != key@,
    {
        if str_eq(v[i].0.as_str(), key) {
            return Some(i);
        }
    }
    None
}

/// The value a list of pairs with distinct keys gives for `key`.
pub fn get_pair_value(v: &Vec<(String, String)>, key: &str) -> (r: Option<String>)
    requires
        distinct_keys(v@),
    ensures
        match r {
            Some(s) => pairs_map(v@).contains_key(key@) && pairs_map(v@)[key@] == s@,
            None => !pairs_map(v@).contains_key(key@),
        },
{
    match find_pair(v, key) {
        Some(i) => {
            proof {
                let m = pairs_map(v@);
                assert(m.dom().contains(key@)) by {
                    assert(v@[i as int].0@ == key@);
                }
                let j = choose|j: int| 0 <= j < v@.len() && (#[trigger] v@[j]).0@ == key@;
                if j != i {
                    assert(v@[j].0@ != v@[i as int].0@);
                }
            }
            Some(v[i].1.clone())
        },
        None => None,
    }
}

/// The condition that an input is a given boolean.
#[derive(Debug)]
pub struct Boolean {
    pub value: bool,
}

impl Boolean {
    /// Whether the JSON text `input` is this condition's boolean.
    pub fn evaluate(&self, input: &str, _req: &Request) -> (r: bool)
        ensures
            r == (json_bool_of(input@) == Some(self.value)),
    {
        match json_bool(input) {
            Some(v) => self.value == v,
            None => false,
        }
    }
}

/// The condition that an input names the request's subject.
#[derive(Debug)]
pub struct EqualsSubject;

impl EqualsSubject {
    /// Whether the JSON text `input` is a string equal to the subject of
    /// `req`.
    pub fn evaluate(&self, input: &str, req: &Request) -> (r: bool)
        ensures
            r == (json_string_of(input@) == Some(req.subject@)),
    {
        match json_string(input) {
            Some(v) => str_eq(req.subject.as_str(), v.as_str()),
            None => false,
        }
    }
}

/// The condition that the request's resource contains a value, between
/// delimiters where the input gives one.
#[derive(Debug)]
pub struct ResourceContains;

/// What [`ResourceContains`] answers for the input read as the map `m`
/// and the resource `resource`.
pub open spec fn resource_contains_holds(m: Map<Seq<char>, Seq<char>>, resource: Seq<char>) -> bool {
    let value_key = "value"@;
    let delim_key = "delimiter"@;
    &&& m.contains_key(value_key)
    &&& m[value_key].len() > 0
    &&& {
        let d = if m.contains_key(delim_key) {
            m[delim_key]
        } else {
            Seq::empty()
        };
        contains_seq(d + resource + d, d + m[value_key] + d)
    }
}

impl ResourceContains {
    /// Whether the JSON text `input` is an object of strings whose `value`
    /// is non-empty and occurs in the request's resource, with the object's
    /// `delimiter` (empty where it has none) on both sides of each.
    pub fn evaluate(&self, input: &str, req: &Request) -> (r: bool)
        ensures
            r == match json_string_map_of(input@) {
                Some(m) => resource_contains_holds(m, req.resource@),
                None => false,
            },
    {
        let v = match json_string_map(input) {
            Some(v) => v,
            None => return false,
        };
        let value = match get_pair_value(&v, "value") {
            Some(value_string) => {
                if value_string.as_str().unicode_len() == 0 {
                    return false;
                }
                value_string
            },
            None => return false,
        };
        let delimiter = match get_pair_value(&v, "delimiter") {
            Some(d) => d,
            None => String::new(),
        };
        let mut filter_value = String::new();
        filter_value.append(delimiter.as_str());
        filter_value.append(value.as_str());
        filter_value.append(delimiter.as_str());
        let mut resource_value = String::new();
        resource_value.append(delimiter.as_str());
        resource_value.append(req.resource.as_str());
        resource_value.append(delimiter.as_str());
        let h = chars_of(resource_value.as_str());
        let n = chars_of(filter_value.as_str());
        contains_chars(&h, &n)
    }
}

/// Whether the regular expression `pattern` compiles.
pub uninterp spec fn regex_valid_of(pattern: Seq<char>) -> bool;

/// Whether the regular expression `pattern` matches somewhere in `text`.
pub uninterp spec fn regex_match_of(pattern: Seq<char>, text: Seq<char>) -> bool;

#[verifier::external_type_specification]
#[verifier::external_body]
pub struct ExRegex(regex::Regex);

/// A compiled regular expression, with the text it was compiled from.
#[derive(Debug)]
pub struct Pattern {
    re: regex::Regex,
    source: String,
}

impl Pattern {
    /// The text the expression was compiled from.
    pub closed spec fn spec_source(&self) -> Seq<char> {
        self.source@
    }

    /// Calls `regex::Regex::new` on `pattern`; `None` where it does not
    /// compile.
    #[verifier::external_body]
    pub(crate) fn compile(pattern: &str) -> (r: Option<Pattern>)
        ensures
            r is Some <==> regex_valid_of(pattern@),
            r matches Some(p) ==> p.spec_source() == pattern@,
    {
        match regex::Regex::new(pattern) {
            Ok(re) => Some(Pattern { re, source: pattern.to_string() }),
            Err(_) => None,
        }
    }

    /// Calls `regex::Regex::is_match` on `text`.
    #[verifier::external_body]
    pub(crate) fn is_match(&self, text: &str) -> (r: bool)
        ensures
            r == regex_match_of(self.spec_source(), text@),
    {
        self.re.is_match(text)
    }
}

/// The condition that an input matches a regular expression.
#[derive(Debug)]
pub struct StringMatch {
    pub matches: String,
}

impl StringMatch {
    /// Whether the JSON text `input` is a string that this condition's
    /// regular expression, where it compiles, matches.
    pub fn evaluate(&self, input: &str, _req: &Request) -> (r: bool)
        ensures
            r == match json_string_of(input@) {
                Some(v) => regex_valid_of(self.matches@) && regex_match_of(self.matches@, v),
                None => false,
            },
    {
        match json_string(input) {
            Some(v) => match Pattern::compile(self.matches.as_str()) {
                Some(p) => p.is_match(v.as_str()),
                None => false,
            },
            None => false,
        }
    }
}

/// One time comparison: `symbol` compares the input with `value`, both read
/// in `format` (`unix` and `unixnano` for integers, else a `strftime`
/// format), in the time zone `location`.
#[derive(Debug)]
pub struct TimeCmpInner {
    pub symbol: String,
    pub value: String,
    pub format: String,
    pub location: Option<String>,
}

/// The condition that an input time passes every comparison of a list.
#[derive(Debug)]
pub struct TimeCmp {
    pub values: Vec<TimeCmpInner>,
}

/// The instant that `chrono::NaiveDateTime::parse_from_str` reads from `s`
/// in the format `fmt`, as seconds since the Unix epoch and nanoseconds.
pub uninterp spec fn naive_datetime_of(s: Seq<char>, fmt: Seq<char>) -> Option<(int, int)>;

/// Calls `chrono::NaiveDateTime::parse_from_str` and gives the instant read
/// as whole seconds since the Unix epoch (`and_utc().timestamp()`) and the
/// nanoseconds past them (`timestamp_subsec_nanos`). Naive date-times
/// compare as these pairs do.
#[verifier::external_body]
pub(crate) fn naive_datetime(s: &str, fmt: &str) -> (r: Option<(i64, u32)>)
    ensures
        match r {
            Some(p) => naive_datetime_of(s@, fmt@) == Some((p.0 as int, p.1 as int)),
            None => naive_datetime_of(s@, fmt@) is None,
        },
{
    match chrono::NaiveDateTime::parse_from_str(s, fmt) {
        Ok(d) => Some((d.and_utc().timestamp(), d.and_utc().timestamp_subsec_nanos())),
        Err(_) => None,
    }
}

/// Whether the comparison `sym` holds of two values whose order is `c`
/// (negative, zero or positive).
pub open spec fn symbol_holds(sym: Seq<char>, c: int) -> bool {
    if sym == "=="@ {
        c == 0
    } else if sym == "!="@ {
        c != 0
    } else if sym == ">"@ {
        c > 0
    } else if sym == ">="@ {
        c >= 0
    } else if sym == "<"@ {
        c < 0
    } else if sym == "<="@ {
        c <= 0
    } else {
        false
    }
}

/// The order of two integers.
pub open spec fn order(a: int, b: int) -> int {
    if a < b {
        -1
    } else if a == b {
        0
    } else {
        1
    }
}

/// The order of two instants given as seconds and nanoseconds.
pub open spec fn order_pair(a: (int, int), b: (int, int)) -> int {
    if a.0 != b.0 {
        order(a.0, b.0)
    } else {
        order(a.1, b.1)
    }
}

/// Whether the comparison `dest` holds of the input time `src`.
pub open spec fn time_cmp_holds(src: Seq<char>, dest: TimeCmpInner) -> bool {
    let f = dest.format@;
    if f == "unix"@ || f == "unixnano"@ {
        match (i64_text(src), i64_text(dest.value@)) {
            (Some(a), Some(b)) => symbol_holds(dest.symbol@, order(a, b)),
            _ => false,
        }
    } else {
        let naive = match dest.location {
            None => true,
            Some(l) => l@ == "UTC"@ || l@ == "LOCAL"@,
        };
        naive && match (naive_datetime_of(src, f), naive_datetime_of(dest.value@, f)) {
            (Some(a), Some(b)) => symbol_holds(dest.symbol@, order_pair(a, b)),
            _ => false,
        }
    }
}

fn symbol_check(sym: &str, c: i8) -> (r: bool)
    ensures
        r == symbol_holds(sym@, c as int),
{
    if str_eq(sym, "==") {
        c == 0
    } else if str_eq(sym, "!=") {
        c != 0
    } else if str_eq(sym, ">") {
        c > 0
    } else if str_eq(sym, ">=") {
        c >= 0
    } else if str_eq(sym, "<") {
        c < 0
    } else if str_eq(sym, "<=") {
        c <= 0
    } else {
        false
    }
}

fn order_i64(a: i64, b: i64) -> (r: i8)
    ensures
        r as int == order(a as int, b as int),
{
    if a < b {
        -1
    } else if a == b {
        0
    } else {
        1
    }
}

fn order_instant(a: (i64, u32), b: (i64, u32)) -> (r: i8)
    ensures
        r as int == order_pair((a.0 as int, a.1 as int), (b.0 as int, b.1 as int)),
{
    if a.0 != b.0 {
        order_i64(a.0, b.0)
    } else if a.1 < b.1 {
        -1
    } else if a.1 == b.1 {
        0
    } else {
        1
    }
}

impl TimeCmp {
    /// Whether the JSON text `input` is a string, and there is at least one
    /// comparison and the input time passes every one.
    pub fn evaluate(&self, input: &str, _req: &Request) -> (r: bool)
        ensures
            r == match json_string_of(input@) {
                Some(v) => self.values@.len() > 0 && forall|i: int|
                    0 <= i < self.values@.len() ==> time_cmp_holds(v, #[trigger] self.values@[i]),
                None => false,
            },
    {
        let v = match json_string(input) {
            Some(v) => v,
            None => return false,
        };
        let mut matched = false;
        for i in 0..self.values.len()
            invariant
                json_string_of(input@) == Some(v@),
                matched == (i > 0),
                forall|k: int| 0 <= k < i ==> time_cmp_holds(v@, #[trigger] self.values@[k]),
        {
            if !self.cmp(v.as_str(), &self.values[i]) {
                return false;
            }
            matched = true;
        }
        matched
    }

    /// Whether the comparison `dest_value` holds of the input time
    /// `src_value`.
    pub fn cmp(&self, src_value: &str, dest_value: &TimeCmpInner) -> (r: bool)
        ensures
            r == time_cmp_holds(src_value@, *dest_value),
    {
        let f = dest_value.format.as_str();
        if str_eq(f, "unix") || str_eq(f, "unixnano") {
            match (parse_i64(src_value), parse_i64(dest_value.value.as_str())) {
                (Some(a), Some(b)) => symbol_check(dest_value.symbol.as_str(), order_i64(a, b)),
                _ => false,
            }
        } else {
            match &dest_value.location {
                Some(location) => {
                    if str_eq(location.as_str(), "UTC") || str_eq(location.as_str(), "LOCAL") {
                        self.cmp_utc(src_value, dest_value, f)
                    } else {
                        false
                    }
                },
                None => self.cmp_utc(src_value, dest_value, f),
            }
        }
    }

    /// Whether the comparison `dest_value` holds of the input time
    /// `src_value`, both read as naive date-times in `format`.
    pub fn cmp_utc(&self, src_value: &str, dest_value: &TimeCmpInner, format: &str) -> (r: bool)
        ensures
            r == match (
                naive_datetime_of(src_value@, format@),
                naive_datetime_of(dest_value.value@, format@),
            ) {
                (Some(a), Some(b)) => symbol_holds(dest_value.symbol@, order_pair(a, b)),
                _ => false,
            },
    {
        match (naive_datetime(src_value, format), naive_datetime(dest_value.value.as_str(), format)) {
            (Some(a), Some(b)) => symbol_check(dest_value.symbol.as_str(), order_instant(a, b)),
            _ => false,
        }
    }
}

/// A time condition with no comparisons never holds.
pub proof fn lemma_time_cmp_needs_comparisons(c: TimeCmp, input: Seq<char>)
    requires
        c.values@.len() == 0,
    ensures
        !(match json_string_of(input) {
            Some(v) => c.values@.len() > 0 && forall|i: int|
                0 <= i < c.values@.len() ==> time_cmp_holds(v, #[trigger] c.values@[i]),
            None => false,
        }),
{
}

/// For times that both read, `!=` holds exactly when `==` does not.
pub proof fn lemma_not_equal_is_negation(c: int)
    ensures
        symbol_holds("!="@, c) == !symbol_holds("=="@, c),
{
    reveal_strlit("!=");
    reveal_strlit("==");
    assert("!="@[0] != "=="@[0]);
}

proof fn lemma_symbol_literals()
    ensures
        "=="@ == seq!['=', '='],
        "!="@ == seq!['!', '='],
        ">"@ == seq!['>'],
        ">="@ == seq!['>', '='],
        "<"@ == seq!['<'],
        "<="@ == seq!['<', '='],
{
    reveal_strlit("==");
    reveal_strlit("!=");
    reveal_strlit(">");
    reveal_strlit(">=");
    reveal_strlit("<");
    reveal_strlit("<=");
    assert("=="@ =~= seq!['=', '=']);
    assert("!="@ =~= seq!['!', '=']);
    assert(">"@ =~= seq!['>']);
    assert(">="@ =~= seq!['>', '=']);
    assert("<"@ =~= seq!['<']);
    assert("<="@ =~= seq!['<', '=']);
}

/// Each comparison symbol compares two integers `a` and `b` as its name
/// says: `==` equal, `!=` different, `>` greater, `>=` greater or equal,
/// `<` less, `<=` less or equal; any other symbol never holds.
pub proof fn lemma_symbols_compare_integers(sym: Seq<char>, a: int, b: int)
    ensures
        sym == seq!['=', '='] ==> (symbol_holds(sym, order(a, b)) <==> a == b),
        sym == seq!['!', '='] ==> (symbol_holds(sym, order(a, b)) <==> a != b),
        sym == seq!['>'] ==> (symbol_holds(sym, order(a, b)) <==> a > b),
        sym == seq!['>', '='] ==> (symbol_holds(sym, order(a, b)) <==> a >= b),
        sym == seq!['<'] ==> (symbol_holds(sym, order(a, b)) <==> a < b),
        sym == seq!['<', '='] ==> (symbol_holds(sym, order(a, b)) <==> a <= b),
        sym != seq!['=', '='] && sym != seq!['!', '='] && sym != seq!['>'] && sym != seq!['>', '=']
            && sym != seq!['<'] && sym != seq!['<', '='] ==> !symbol_holds(sym, order(a, b)),
{
    lemma_symbol_literals();
    assert(seq!['=', '='][0] != seq!['!', '='][0]);
    assert(seq!['>', '='][0] != seq!['=', '='][0]);
    assert(seq!['>', '='][0] != seq!['!', '='][0]);
    assert(seq!['<', '='][0] != seq!['=', '='][0]);
    assert(seq!['<', '='][0] != seq!['!', '='][0]);
    assert(seq!['<', '='][0] != seq!['>', '='][0]);
    assert(seq!['<'][0] != seq!['>'][0]);
    assert(seq!['>'].len() == 1 && seq!['<'].len() == 1);
    assert(seq!['>', '='].len() == 2 && seq!['<', '='].len() == 2);
    assert(seq!['>'] != seq!['>', '=']);
    assert(seq!['<'] != seq!['<', '=']);
}

/// A comparison of two Unix times (seconds or nanoseconds) that both read
/// as integers `a` and `b` holds exactly as the symbol compares `a` with
/// `b`: in particular `>=` and `<=` hold of two equal times.
pub proof fn lemma_unix_time_comparisons(src: Seq<char>, dest: TimeCmpInner, a: int, b: int)
    requires
        dest.format@ == "unix"@ || dest.format@ == "unixnano"@,
        i64_text(src) == Some(a),
        i64_text(dest.value@) == Some(b),
    ensures
        dest.symbol@ == seq!['=', '='] ==> (time_cmp_holds(src, dest) <==> a == b),
        dest.symbol@ == seq!['!', '='] ==> (time_cmp_holds(src, dest) <==> a != b),
        dest.symbol@ == seq!['>'] ==> (time_cmp_holds(src, dest) <==> a > b),
        dest.symbol@ == seq!['>', '='] ==> (time_cmp_holds(src, dest) <==> a >= b),
        dest.symbol@ == seq!['<'] ==> (time_cmp_holds(src, dest) <==> a < b),
        dest.symbol@ == seq!['<', '='] ==> (time_cmp_holds(src, dest) <==> a <= b),
{
    lemma_symbols_compare_integers(dest.symbol@, a, b);
}

/// A comparison of date-times in a location other than `UTC` or `LOCAL`
/// never holds; nor does one where either time fails to read.
pub proof fn lemma_time_comparisons_that_fail(src: Seq<char>, dest: TimeCmpInner)
    ensures
        dest.format@ != "unix"@ && dest.format@ != "unixnano"@ && (dest.location matches Some(l) && l@
            != seq!['U', 'T', 'C'] && l@ != seq!['L', 'O', 'C', 'A', 'L']) ==> !time_cmp_holds(src, dest),
        (dest.format@ == "unix"@ || dest.format@ == "unixnano"@) && (i64_text(src) is None || i64_text(
            dest.value@,
        ) is None) ==> !time_cmp_holds(src, dest),
        (dest.format@ != "unix"@ && dest.format@ != "unixnano"@) && (naive_datetime_of(src, dest.format@) is None
            || naive_datetime_of(dest.value@, dest.format@) is None) ==> !time_cmp_holds(src, dest),
{
    reveal_strlit("UTC");
    reveal_strlit("LOCAL");
    assert("UTC"@ =~= seq!['U', 'T', 'C']);
    assert("LOCAL"@ =~= seq!['L', 'O', 'C', 'A', 'L']);
}

/// Whether the instant `a` (seconds, then nanoseconds) is later than `b`.
pub open spec fn later(a: (int, int), b: (int, int)) -> bool {
    a.0 > b.0 || (a.0 == b.0 && a.1 > b.1)
}

/// A comparison of two date-times that both read in the format, as
/// instants `a` and `b`, holds exactly as the symbol compares them in time:
/// in particular `>=` and `<=` hold of two equal date-times.
pub proof fn lemma_date_time_comparisons(src: Seq<char>, dest: TimeCmpInner, a: (int, int), b: (int, int))
    requires
        dest.format@ != "unix"@ && dest.format@ != "unixnano"@,
        dest.location matches Some(l) ==> l@ == seq!['U', 'T', 'C'] || l@ == seq!['L', 'O', 'C', 'A', 'L'],
        naive_datetime_of(src, dest.format@) == Some(a),
        naive_datetime_of(dest.value@, dest.format@) == Some(b),
    ensures
        dest.symbol@ == seq!['=', '='] ==> (time_cmp_holds(src, dest) <==> a == b),
        dest.symbol@ == seq!['!', '='] ==> (time_cmp_holds(src, dest) <==> a != b),
        dest.symbol@ == seq!['>'] ==> (time_cmp_holds(src, dest) <==> later(a, b)),
        dest.symbol@ == seq!['>', '='] ==> (time_cmp_holds(src, dest) <==> (later(a, b) || a == b)),
        dest.symbol@ == seq!['<'] ==> (time_cmp_holds(src, dest) <==> later(b, a)),
        dest.symbol@ == seq!['<', '='] ==> (time_cmp_holds(src, dest) <==> (later(b, a) || a == b)),
{
    lemma_symbol_literals();
    reveal_strlit("UTC");
    reveal_strlit("LOCAL");
    assert("UTC"@ =~= seq!['U', 'T', 'C']);
    assert("LOCAL"@ =~= seq!['L', 'O', 'C', 'A', 'L']);
    if a.0 != b.0 {
        lemma_symbols_compare_integers(dest.symbol@, a.0, b.0);
    } else {
        lemma_symbols_compare_integers(dest.symbol@, a.1, b.1);
    }
}

proof fn lemma_contains_as_split(h: Seq<char>, n: Seq<char>)
    ensures
        contains_seq(h, n) <==> exists|pre: Seq<char>, post: Seq<char>| #[trigger] pre.add(n).add(post) == h,
{
    if contains_seq(h, n) {
        let i = choose|i: int| 0 <= i <= h.len() - n.len() && #[trigger] h.subrange(i, i + n.len()) == n;
        let pre = h.subrange(0, i);
        let post = h.subrange(i + n.len(), h.len() as int);
        assert(pre.add(n).add(post) =~= h);
    }
    if exists|pre: Seq<char>, post: Seq<char>| #[trigger] pre.add(n).add(post) == h {
        let (pre, post) = choose|pre: Seq<char>, post: Seq<char>| #[trigger] pre.add(n).add(post) == h;
        let i = pre.len() as int;
        assert(h.subrange(i, i + n.len()) =~= n);
    }
}

/// `ResourceContains` holds exactly when the input names a non-empty
/// `value` and that value, with the `delimiter` (empty where there is
/// none) on both sides, occurs in the resource with the delimiter on both
/// sides: some text before and after it make up the delimited resource.
pub proof fn lemma_resource_contains_meaning(
    m: Map<Seq<char>, Seq<char>>,
    resource: Seq<char>,
    v: Seq<char>,
    d: Seq<char>,
)
    requires
        m.contains_key(seq!['v', 'a', 'l', 'u', 'e']) && m[seq!['v', 'a', 'l', 'u', 'e']] == v,
        d == if m.contains_key(seq!['d', 'e', 'l', 'i', 'm', 'i', 't', 'e', 'r']) {
            m[seq!['d', 'e', 'l', 'i', 'm', 'i', 't', 'e', 'r']]
        } else {
            Seq::empty()
        },
    ensures
        resource_contains_holds(m, resource) <==> v.len() > 0 && exists|pre: Seq<char>, post: Seq<char>|
            #[trigger] pre.add(d.add(v).add(d)).add(post) == d.add(resource).add(d),
{
    reveal_strlit("value");
    reveal_strlit("delimiter");
    assert("value"@ =~= seq!['v', 'a', 'l', 'u', 'e']);
    assert("delimiter"@ =~= seq!['d', 'e', 'l', 'i', 'm', 'i', 't', 'e', 'r']);
    lemma_contains_as_split(d + resource + d, d + v + d);
}

/// Without a non-empty `value`, `ResourceContains` never holds.
pub proof fn lemma_resource_contains_needs_value(m: Map<Seq<char>, Seq<char>>, resource: Seq<char>)
    requires
        !m.contains_key(seq!['v', 'a', 'l', 'u', 'e']) || m[seq!['v', 'a', 'l', 'u', 'e']].len() == 0,
    ensures
        !resource_contains_holds(m, resource),
{
    reveal_strlit("value");
    assert("value"@ =~= seq!['v', 'a', 'l', 'u', 'e']);
}

/// Whether a statement allows or denies.
#[derive(Debug)]
pub enum Effect {
    Allow,
    Deny,
}

/// A condition attached to a statement: its type and its options (JSON
/// text).
#[derive(Debug)]
pub struct JsonCondition {
    pub jtype: String,
    pub options: String,
}

/// A policy statement.
#[derive(Debug)]
pub struct Statement {
    pub effect: Effect,
    pub subjects: Vec<String>,
    pub actions: Vec<String>,
    pub resources: Vec<String>,
    /// The conditions, by name; no name occurs twice.
    pub conditions: Option<Vec<(String, JsonCondition)>>,
    /// Free-form data (JSON text).
    pub meta: Option<String>,
}

/// The conditions of a statement as a map from name to type and options.
pub open spec fn condition_map(v: Seq<(String, JsonCondition)>) -> Map<
    Seq<char>,
    (Seq<char>, Seq<char>),
> {
    Map::new(
        |k: Seq<char>| exists|i: int| 0 <= i < v.len() && (#[trigger] v[i]).0@ == k,
        |k: Seq<char>|
            {
                let c = v[choose|i: int| 0 <= i < v.len() && (#[trigger] v[i]).0@ == k].1;
                (c.jtype@, c.options@)
            },
    )
}

/// No condition name occurs twice.
pub open spec fn distinct_condition_names(v: Seq<(String, JsonCondition)>) -> bool {
    forall|i: int, j: int|
        0 <= i < v.len() && 0 <= j < v.len() && i != j ==> (#[trigger] v[i]).0@ != (
        #[trigger] v[j]).0@
}

pub open spec fn statement_ok(s: Statement) -> bool {
    s.conditions matches Some(v) ==> distinct_condition_names(v@)
}

pub open spec fn conditions_equal(
    a: Option<Vec<(String, JsonCondition)>>,
    b: Option<Vec<(String, JsonCondition)>>,
) -> bool {
    match (a, b) {
        (None, None) => true,
        (Some(x), Some(y)) => condition_map(x@) == condition_map(y@),
        _ => false,
    }
}

/// When two statements are equal: same effect, subjects, actions,
/// resources and conditions, and both carry the same meta data. A statement
/// without meta data equals no statement, not even itself.
pub open spec fn statements_equal(a: Statement, b: Statement) -> bool {
    &&& a.effect == b.effect
    &&& views(a.subjects@) == views(b.subjects@)
    &&& views(a.actions@) == views(b.actions@)
    &&& views(a.resources@) == views(b.resources@)
    &&& conditions_equal(a.conditions, b.conditions)
    &&& a.meta is Some && b.meta is Some && a.meta->0@ == b.meta->0@
}

fn strings_equal(a: &Vec<String>, b: &Vec<String>) -> (r: bool)
    ensures
        r == (views(a@) == views(b@)),
{
    if a.len() != b.len() {
        assert(views(a@).len() != views(b@).len());
        return false;
    }
    for i in 0..a.len()
        invariant
            a@.len() == b@.len(),
            forall|k: int| 0 <= k < i ==> views(a@)[k] == views(b@)[k],
    {
        if !str_eq(a[i].as_str(), b[i].as_str()) {
            assert(views(a@)[i as int] != views(b@)[i as int]);
            return false;
        }
    }
    assert(views(a@) =~= views(b@));
    true
}

fn find_condition(v: &Vec<(String, JsonCondition)>, key: &str) -> (r: Option<usize>)
    ensures
        match r {
            Some(i) => i < v@.len() && v@[i as int].0@ == key@,
            None => forall|i: int| 0 <= i < v@.len() ==> (#[trigger] v@[i]).0@ != key@,
        },
{
    for i in 0..v.len()
        invariant
            forall|k: int| 0 <= k < i ==> (#[trigger] v@[k]).0@ != key@,
    {
        if str_eq(v[i].0.as_str(), key) {
            return Some(i);
        }
    }
    None
}

proof fn lemma_condition_map_at(v: Seq<(String, JsonCondition)>, i: int)
    requires
        distinct_condition_names(v),
        0 <= i < v.len(),
    ensures
        condition_map(v).contains_key(v[i].0@),
        condition_map(v)[v[i].0@] == (v[i].1.jtype@, v[i].1.options@),
{
    let k = v[i].0@;
    assert(condition_map(v).dom().contains(k));
    let j = choose|j: int| 0 <= j < v.len() && (#[trigger] v[j]).0@ == k;
    if j != i {
        assert(v[j].0@ != v[i].0@);
    }
}

fn condition_lists_equal(a: &Vec<(String, JsonCondition)>, b: &Vec<(String, JsonCondition)>) -> (r:
    bool)
    requires
        distinct_condition_names(a@),
        distinct_condition_names(b@),
    ensures
        r == (condition_map(a@) == condition_map(b@)),
{
    let ghost ma = condition_map(a@);
    let ghost mb = condition_map(b@);
    if a.len() != b.len() {
        proof {
            // Equal maps of lists with distinct names have as many entries.
            if ma == mb {
                lemma_distinct_len(a@, b@);
            }
        }
        return false;
    }
    for i in 0..a.len()
        invariant
            a@.len() == b@.len(),
            distinct_condition_names(a@),
            distinct_condition_names(b@),
            ma == condition_map(a@),
            mb == condition_map(b@),
            forall|k: int|
                0 <= k < i ==> mb.contains_key((#[trigger] a@[k]).0@) && mb[a@[k].0@] == ma[a@[k].0@],
    {
        proof {
            lemma_condition_map_at(a@, i as int);
        }
        match find_condition(b, a[i].0.as_str()) {
            None => {
                proof {
                    if mb.contains_key(a@[i as int].0@) {
                        let j = choose|j: int| 0 <= j < b@.len() && (#[trigger] b@[j]).0@ == a@[i as int].0@;
                        assert(b@[j].0@ != a@[i as int].0@);
                    }
                }
                return false;
            },
            Some(j) => {
                proof {
                    lemma_condition_map_at(b@, j as int);
                }
                if !str_eq(a[i].1.jtype.as_str(), b[j].1.jtype.as_str()) || !str_eq(
                    a[i].1.options.as_str(),
                    b[j].1.options.as_str(),
                ) {
                    return false;
                }
            },
        }
    }
    proof {
        assert forall|k: Seq<char>| ma.contains_key(k) implies mb.contains_key(k) && mb[k] == ma[k] by {
            let i = choose|i: int| 0 <= i < a@.len() && (#[trigger] a@[i]).0@ == k;
            lemma_condition_map_at(a@, i);
        }
        assert forall|k: Seq<char>| mb.contains_key(k) implies ma.contains_key(k) by {
            lemma_keys_cover(a@, b@);
        }
        assert(ma =~= mb);
    }
    true
}

proof fn lemma_distinct_len(a: Seq<(String, JsonCondition)>, b: Seq<(String, JsonCondition)>)
    requires
        distinct_condition_names(a),
        distinct_condition_names(b),
        condition_map(a) == condition_map(b),
    ensures
        a.len() == b.len(),
{
    let ka = a.map_values(|p: (String, JsonCondition)| p.0@);
    let kb = b.map_values(|p: (String, JsonCondition)| p.0@);
    assert(ka.no_duplicates()) by {
        assert forall|i: int, j: int| 0 <= i < ka.len() && 0 <= j < ka.len() && i != j implies ka[i] != ka[j] by {
            assert(a[i].0@ != a[j].0@);
        }
    }
    assert(kb.no_duplicates()) by {
        assert forall|i: int, j: int| 0 <= i < kb.len() && 0 <= j < kb.len() && i != j implies kb[i] != kb[j] by {
            assert(b[i].0@ != b[j].0@);
        }
    }
    assert(ka.to_set() =~= kb.to_set()) by {
        assert forall|k: Seq<char>| ka.to_set().contains(k) implies kb.to_set().contains(k) by {
            let i = choose|i: int| 0 <= i < ka.len() && ka[i] == k;
            assert(a[i].0@ == k);
            assert(condition_map(a).contains_key(k));
            assert(condition_map(b).contains_key(k));
            let j = choose|j: int| 0 <= j < b.len() && (#[trigger] b[j]).0@ == k;
            assert(kb[j] == k);
        }
        assert forall|k: Seq<char>| kb.to_set().contains(k) implies ka.to_set().contains(k) by {
            let j = choose|j: int| 0 <= j < kb.len() && kb[j] == k;
            assert(b[j].0@ == k);
            assert(condition_map(b).contains_key(k));
            assert(condition_map(a).contains_key(k));
            let i = choose|i: int| 0 <= i < a.len() && (#[trigger] a[i]).0@ == k;
            assert(ka[i] == k);
        }
    }
    ka.unique_seq_to_set();
    kb.unique_seq_to_set();
}

proof fn lemma_keys_cover(a: Seq<(String, JsonCondition)>, b: Seq<(String, JsonCondition)>)
    requires
        a.len() == b.len(),
        distinct_condition_names(a),
        distinct_condition_names(b),
        forall|k: int| 0 <= k < a.len() ==> condition_map(b).contains_key((#[trigger] a[k]).0@),
    ensures
        forall|k: Seq<char>| condition_map(b).contains_key(k) ==> condition_map(a).contains_key(k),
{
    let ka = a.map_values(|p: (String, JsonCondition)| p.0@);
    let kb = b.map_values(|p: (String, JsonCondition)| p.0@);
    assert(ka.no_duplicates()) by {
        assert forall|i: int, j: int| 0 <= i < ka.len() && 0 <= j < ka.len() && i != j implies ka[i] != ka[j] by {
            assert(a[i].0@ != a[j].0@);
        }
    }
    assert(kb.no_duplicates()) by {
        assert forall|i: int, j: int| 0 <= i < kb.len() && 0 <= j < kb.len() && i != j implies kb[i] != kb[j] by {
            assert(b[i].0@ != b[j].0@);
        }
    }
    ka.unique_seq_to_set();
    kb.unique_seq_to_set();
    assert(ka.to_set().subset_of(kb.to_set())) by {
        assert forall|k: Seq<char>| ka.to_set().contains(k) implies kb.to_set().contains(k) by {
            let i = choose|i: int| 0 <= i < ka.len() && ka[i] == k;
            assert(a[i].0@ == k);
            let j = choose|j: int| 0 <= j < b.len() && (#[trigger] b[j]).0@ == k;
            assert(kb[j] == k);
        }
    }
    vstd::set_lib::lemma_subset_equality(ka.to_set(), kb.to_set());
    assert forall|k: Seq<char>| condition_map(b).contains_key(k) implies condition_map(a).contains_key(k) by {
        let j = choose|j: int| 0 <= j < b.len() && (#[trigger] b[j]).0@ == k;
        assert(kb[j] == k);
        assert(kb.to_set().contains(k));
        assert(ka.to_set().contains(k));
        let i = choose|i: int| 0 <= i < ka.len() && ka[i] == k;
        assert(a[i].0@ == k);
    }
}

impl Statement {
    /// The character that opens a pattern in a statement's lists.
    pub fn get_start_delimiter(&self) -> (r: char)
        ensures
            r == '<',
    {
        '<'
    }

    /// The character that closes a pattern in a statement's lists.
    pub fn get_end_delimiter(&self) -> (r: char)
        ensures
            r == '>',
    {
        '>'
    }

    /// Whether two statements are equal (see [`statements_equal`]).
    pub fn equals(&self, other: &Statement) -> (r: bool)
        requires
            statement_ok(*self),
            statement_ok(*other),
        ensures
            r == statements_equal(*self, *other),
    {
        let same_effect = match (&self.effect, &other.effect) {
            (Effect::Allow, Effect::Allow) => true,
            (Effect::Deny, Effect::Deny) => true,
            _ => false,
        };
        if !same_effect {
            return false;
        }
        if !strings_equal(&self.subjects, &other.subjects) || !strings_equal(
            &self.actions,
            &other.actions,
        ) || !strings_equal(&self.resources, &other.resources) {
            return false;
        }
        let conds = match (&self.conditions, &other.conditions) {
            (None, None) => true,
            (Some(x), Some(y)) => condition_lists_equal(x, y),
            _ => false,
        };
        if !conds {
            return false;
        }
        match (&self.meta, &other.meta) {
            (Some(m1), Some(m2)) => str_eq(m1.as_str(), m2.as_str()),
            _ => false,
        }
    }
}

/// Statement equality is symmetric.
pub proof fn lemma_statement_eq_symmetric(a: Statement, b: Statement)
    ensures
        statements_equal(a, b) == statements_equal(b, a),
{
}

/// A statement equals itself exactly when it carries meta data.
pub proof fn lemma_statement_eq_reflexive(a: Statement)
    ensures
        statements_equal(a, a) <==> a.meta is Some,
{
}

} // verus!
