//! Checks on request input: field validation rules and request headers.

use vstd::prelude::*;
use vstd::string::*;

verus! {

/// Whether `validator`'s URL rule accepts `s`: it asks `url::Url::parse`.
pub uninterp spec fn url_valid_of(s: Seq<char>) -> bool;

/// Calls `validator::ValidateUrl::validate_url` on a string.
#[verifier::external_body]
pub(crate) fn url_valid(s: &str) -> (r: bool)
    ensures
        r == url_valid_of(s@),
{
    validator::ValidateUrl::validate_url(&s)
}

/// Whether `s` has at least `min` and at most `max` characters, where
/// given: the length rule of `validator`, which counts characters.
pub fn char_count_within(s: &str, min: Option<u64>, max: Option<u64>) -> (r: bool)
    ensures
        r == crate::oidc::auth::length_ok(
            s@,
            match min {
                Some(m) => Some(m as nat),
                None => None,
            },
            match max {
                Some(m) => Some(m as nat),
                None => None,
            },
        ),
{
    let n = s.unicode_len() as u64;
    match min {
        Some(m) => if n < m {
            return false;
        },
        None => {},
    }
    match max {
        Some(m) => if n > m {
            return false;
        },
        None => {},
    }
    true
}

} // verus!
