//! Hashing, encoding, comparison and randomness, through their crates, and
//! the password hashing built on them.

use vstd::prelude::*;

use crate::errors::{any, WithBacktrace};

verus! {

/// The SHA-256 digest of the UTF-8 bytes of the text `s`.
pub uninterp spec fn sha256_of(s: Seq<char>) -> Seq<u8>;

/// The character of the six-bit value `v` in the base64 alphabet: the
/// letters, the digits, then `+` and `/`, or `-` and `_` in the URL-safe
/// alphabet.
pub open spec fn base64_char(v: int, url: bool) -> char {
    if v < 26 {
        (65 + v) as char
    } else if v < 52 {
        (71 + v) as char
    } else if v < 62 {
        (v - 4) as char
    } else if v == 62 {
        if url {
            '-'
        } else {
            '+'
        }
    } else if url {
        '_'
    } else {
        '/'
    }
}

/// The base64 encoding of `b`: every three bytes give four characters,
/// six bits each, most significant first; a last one or two bytes give
/// two or three characters, filled up with `=` to four where `pad`.
pub open spec fn base64_of(b: Seq<u8>, url: bool, pad: bool) -> Seq<char>
    decreases b.len(),
{
    if b.len() == 0 {
        Seq::empty()
    } else if b.len() == 1 {
        let x = b[0] as int;
        seq![base64_char(x / 4, url), base64_char((x % 4) * 16, url)] + if pad {
            seq!['=', '=']
        } else {
            Seq::empty()
        }
    } else if b.len() == 2 {
        let (x, y) = (b[0] as int, b[1] as int);
        seq![
            base64_char(x / 4, url),
            base64_char((x % 4) * 16 + y / 16, url),
            base64_char((y % 16) * 4, url),
        ] + if pad {
            seq!['=']
        } else {
            Seq::empty()
        }
    } else {
        let (x, y, z) = (b[0] as int, b[1] as int, b[2] as int);
        seq![
            base64_char(x / 4, url),
            base64_char((x % 4) * 16 + y / 16, url),
            base64_char((y % 16) * 4 + z / 64, url),
            base64_char(z % 64, url),
        ] + base64_of(b.skip(3), url, pad)
    }
}

proof fn lemma_base64_char_not_dot(v: int, url: bool)
    requires
        0 <= v < 64,
    ensures
        base64_char(v, url) != '.',
{
}

/// No base64 alphabet holds a dot.
pub proof fn lemma_base64_has_no_dot(b: Seq<u8>, url: bool, pad: bool)
    ensures
        forall|i: int| 0 <= i < base64_of(b, url, pad).len() ==> base64_of(b, url, pad)[i] != '.',
    decreases b.len(),
{
    let e = base64_of(b, url, pad);
    if b.len() >= 3 {
        let (x, y, z) = (b[0] as int, b[1] as int, b[2] as int);
        let head = seq![
            base64_char(x / 4, url),
            base64_char((x % 4) * 16 + y / 16, url),
            base64_char((y % 16) * 4 + z / 64, url),
            base64_char(z % 64, url),
        ];
        assert(e == head + base64_of(b.skip(3), url, pad));
        lemma_base64_char_not_dot(x / 4, url);
        lemma_base64_char_not_dot((x % 4) * 16 + y / 16, url);
        lemma_base64_char_not_dot((y % 16) * 4 + z / 64, url);
        lemma_base64_char_not_dot(z % 64, url);
        lemma_base64_has_no_dot(b.skip(3), url, pad);
        assert forall|i: int| 0 <= i < e.len() implies e[i] != '.' by {
            if i >= 4 {
                assert(e[i] == base64_of(b.skip(3), url, pad)[i - 4]);
            }
        }
    } else if b.len() == 2 {
        let (x, y) = (b[0] as int, b[1] as int);
        lemma_base64_char_not_dot(x / 4, url);
        lemma_base64_char_not_dot((x % 4) * 16 + y / 16, url);
        lemma_base64_char_not_dot((y % 16) * 4, url);
    } else if b.len() == 1 {
        let x = b[0] as int;
        lemma_base64_char_not_dot(x / 4, url);
        lemma_base64_char_not_dot((x % 4) * 16, url);
    }
}

proof fn lemma_base64_char_injective(v: int, w: int, url: bool)
    requires
        0 <= v < 64,
        0 <= w < 64,
        base64_char(v, url) == base64_char(w, url),
    ensures
        v == w,
{
}

proof fn lemma_base64_group(x: u8, y: u8, z: u8, x2: u8, y2: u8, z2: u8)
    requires
        x / 4 == x2 / 4,
        (x % 4) * 16 + y / 16 == (x2 % 4) * 16 + y2 / 16,
        (y % 16) * 4 + z / 64 == (y2 % 16) * 4 + z2 / 64,
        z % 64 == z2 % 64,
    ensures
        x == x2 && y == y2 && z == z2,
{
    assert(x == x2 && y == y2 && z == z2) by (bit_vector)
        requires
            x / 4 == x2 / 4,
            (x % 4) * 16 + y / 16 == (x2 % 4) * 16 + y2 / 16,
            (y % 16) * 4 + z / 64 == (y2 % 16) * 4 + z2 / 64,
            z % 64 == z2 % 64,
    ;
}

/// Unpadded base64 is one to one: the text gives back the bytes.
pub proof fn lemma_base64_nopad_injective(a: Seq<u8>, b: Seq<u8>, url: bool)
    requires
        base64_of(a, url, false) == base64_of(b, url, false),
    ensures
        a == b,
    decreases a.len(),
{
    let ea = base64_of(a, url, false);
    let eb = base64_of(b, url, false);
    if a.len() >= 3 {
        assert(eb.len() >= 4);
        assert(b.len() >= 3);
        let (x, y, z) = (a[0], a[1], a[2]);
        let (x2, y2, z2) = (b[0], b[1], b[2]);
        assert(ea == seq![
            base64_char((x as int) / 4, url),
            base64_char(((x as int) % 4) * 16 + (y as int) / 16, url),
            base64_char(((y as int) % 16) * 4 + (z as int) / 64, url),
            base64_char((z as int) % 64, url),
        ] + base64_of(a.skip(3), url, false));
        assert(eb == seq![
            base64_char((x2 as int) / 4, url),
            base64_char(((x2 as int) % 4) * 16 + (y2 as int) / 16, url),
            base64_char(((y2 as int) % 16) * 4 + (z2 as int) / 64, url),
            base64_char((z2 as int) % 64, url),
        ] + base64_of(b.skip(3), url, false));
        assert(ea[0] == eb[0] && ea[1] == eb[1] && ea[2] == eb[2] && ea[3] == eb[3]);
        lemma_base64_char_injective((x as int) / 4, (x2 as int) / 4, url);
        lemma_base64_char_injective(((x as int) % 4) * 16 + (y as int) / 16, ((x2 as int) % 4) * 16 + (y2 as int) / 16, url);
        lemma_base64_char_injective(((y as int) % 16) * 4 + (z as int) / 64, ((y2 as int) % 16) * 4 + (z2 as int) / 64, url);
        lemma_base64_char_injective((z as int) % 64, (z2 as int) % 64, url);
        lemma_base64_group(x, y, z, x2, y2, z2);
        assert(ea.skip(4) =~= base64_of(a.skip(3), url, false));
        assert(eb.skip(4) =~= base64_of(b.skip(3), url, false));
        lemma_base64_nopad_injective(a.skip(3), b.skip(3), url);
        assert(a.len() == b.len());
        assert forall|i: int| 0 <= i < a.len() implies a[i] == b[i] by {
            if i >= 3 {
                assert(a[i] == a.skip(3)[i - 3] && b[i] == b.skip(3)[i - 3]);
            }
        }
        assert(a =~= b);
    } else if a.len() == 2 {
        assert(b.len() == 2);
        let (x, y) = (a[0], a[1]);
        let (x2, y2) = (b[0], b[1]);
        assert(ea[0] == eb[0] && ea[1] == eb[1] && ea[2] == eb[2]);
        lemma_base64_char_injective((x as int) / 4, (x2 as int) / 4, url);
        lemma_base64_char_injective(((x as int) % 4) * 16 + (y as int) / 16, ((x2 as int) % 4) * 16 + (y2 as int) / 16, url);
        lemma_base64_char_injective(((y as int) % 16) * 4, ((y2 as int) % 16) * 4, url);
        lemma_base64_group(x, y, 0, x2, y2, 0);
        assert(a =~= b);
    } else if a.len() == 1 {
        assert(b.len() == 1);
        let x = a[0];
        let x2 = b[0];
        assert(ea[0] == eb[0] && ea[1] == eb[1]);
        lemma_base64_char_injective((x as int) / 4, (x2 as int) / 4, url);
        lemma_base64_char_injective(((x as int) % 4) * 16, ((x2 as int) % 4) * 16, url);
        lemma_base64_group(x, 0, 0, x2, 0, 0);
        assert(a =~= b);
    } else {
        if b.len() >= 3 {
            assert(eb.len() >= 4);
        } else if b.len() > 0 {
            assert(eb.len() > 0);
        }
        assert(a =~= b);
    }
}

/// The standard base64 encoding, with padding, of `b`.
pub open spec fn base64_standard_of(b: Seq<u8>) -> Seq<char> {
    base64_of(b, false, true)
}

/// The URL-safe base64 encoding, without padding, of `b`.
pub open spec fn base64_url_nopad_of(b: Seq<u8>) -> Seq<char> {
    base64_of(b, true, false)
}

/// The encoded Argon2 hash that `argon2::hash_encoded` gives for the
/// password `pwd` with the salt `salt` and the default configuration keyed
/// with `secret`, or `None` where it fails.
pub uninterp spec fn argon2_hash_of(pwd: Seq<char>, salt: Seq<char>, secret: Seq<char>) -> Option<
    Seq<char>,
>;

/// What `argon2::verify_encoded_ext` answers for the encoded hash
/// `encoded`, the password `pwd` and the secret `secret`, or `None` where
/// it fails.
pub uninterp spec fn argon2_verify_of(encoded: Seq<char>, pwd: Seq<char>, secret: Seq<char>) -> Option<
    bool,
>;

/// Calls `Sha256::digest` on the bytes of `s`.
#[verifier::external_body]
pub(crate) fn sha256_text(s: &str) -> (r: Vec<u8>)
    ensures
        r@ == sha256_of(s@),
        r@.len() == 32,
{
    <sha2::Sha256 as sha2::Digest>::digest(s.as_bytes()).to_vec()
}

/// Calls `Engine::encode` of `base64::engine::general_purpose::STANDARD`.
#[verifier::external_body]
pub(crate) fn base64_standard(b: &[u8]) -> (r: String)
    ensures
        r@ == base64_standard_of(b@),
{
    base64::Engine::encode(&base64::engine::general_purpose::STANDARD, b)
}

/// Calls `Engine::encode` of `base64::engine::general_purpose::URL_SAFE_NO_PAD`.
#[verifier::external_body]
pub(crate) fn base64_url_nopad(b: &[u8]) -> (r: String)
    ensures
        r@ == base64_url_nopad_of(b@),
{
    base64::Engine::encode(&base64::engine::general_purpose::URL_SAFE_NO_PAD, b)
}

/// Calls `constant_time_eq::constant_time_eq`, which compares the lengths
/// and then every byte.
#[verifier::external_body]
pub(crate) fn bytes_eq_constant_time(a: &[u8], b: &[u8]) -> (r: bool)
    ensures
        r == (a@ == b@),
{
    constant_time_eq::constant_time_eq(a, b)
}

/// An ASCII letter or digit.
pub open spec fn is_alphanumeric_ascii(c: char) -> bool {
    ('a' <= c && c <= 'z') || ('A' <= c && c <= 'Z') || ('0' <= c && c <= '9')
}

/// Samples `rand::distr::Alphanumeric` with the thread's generator: a
/// random ASCII letter or digit.
#[verifier::external_body]
pub(crate) fn random_alphanumeric() -> (c: char)
    ensures
        is_alphanumeric_ascii(c),
{
    char::from(rand::Rng::sample(&mut rand::rng(), rand::distr::Alphanumeric))
}

/// A string of `n` random ASCII letters and digits.
pub fn random_alphanumeric_string(n: usize) -> (r: String)
    ensures
        r@.len() == n,
        forall|i: int| 0 <= i < n ==> is_alphanumeric_ascii(#[trigger] r@[i]),
{
    let mut s = String::new();
    for i in 0..n
        invariant
            s@.len() == i,
            forall|k: int| 0 <= k < i ==> is_alphanumeric_ascii(#[trigger] s@[k]),
    {
        let c = random_alphanumeric();
        s.push(c);
    }
    s
}

/// Whether `c` is a lower-case hexadecimal digit.
pub open spec fn is_lower_hex(c: char) -> bool {
    ('0' <= c && c <= '9') || ('a' <= c && c <= 'f')
}

/// Whether `s` is the hyphenated lower-case text of a random (version 4,
/// RFC 4122 variant) UUID: 32 hexadecimal digits in groups of 8, 4, 4, 4
/// and 12 joined by hyphens, the version digit `4` and the variant digit
/// one of `8`, `9`, `a` and `b`. The other digits are random.
pub open spec fn is_v4_uuid_text(s: Seq<char>) -> bool {
    &&& s.len() == 36
    &&& forall|i: int|
        0 <= i < 36 ==> if i == 8 || i == 13 || i == 18 || i == 23 {
            #[trigger] s[i] == '-'
        } else {
            is_lower_hex(s[i])
        }
    &&& s[14] == '4'
    &&& (s[19] == '8' || s[19] == '9' || s[19] == 'a' || s[19] == 'b')
}

/// Calls `uuid::Uuid::new_v4` and gives its text (`Display`, which is the
/// hyphenated lower-case form). Which random UUID comes out is left
/// unstated.
#[verifier::external_body]
pub(crate) fn new_uuid() -> (r: String)
    ensures
        is_v4_uuid_text(r@),
{
    uuid::Uuid::new_v4().to_string()
}

/// The largest distance, in seconds, of a `chrono` date-time from the Unix
/// epoch: its dates span the years -262143 to 262142, about 8.34e12
/// seconds either way.
pub open spec fn max_timestamp() -> int {
    8_400_000_000_000
}

/// Calls `chrono::Utc::now` and gives the seconds since the Unix epoch
/// (`timestamp`). The time itself is left unstated; like every `chrono`
/// date-time it lies within the range of dates that `chrono` represents.
#[verifier::external_body]
pub(crate) fn now_timestamp() -> (r: i64)
    ensures
        -max_timestamp() <= r <= max_timestamp(),
{
    chrono::Utc::now().timestamp()
}

/// Calls `argon2::hash_encoded` with the default configuration keyed with
/// `secret`. Where it fails, the error's text is given; that text is left
/// unstated.
#[verifier::external_body]
pub(crate) fn argon2_hash_encoded(pwd: &str, salt: &str, secret: &str) -> (r: Result<String, String>)
    ensures
        match r {
            Ok(h) => argon2_hash_of(pwd@, salt@, secret@) == Some(h@),
            Err(_) => argon2_hash_of(pwd@, salt@, secret@) is None,
        },
{
    let cfg = argon2::Config { secret: secret.as_bytes(), ..Default::default() };
    argon2::hash_encoded(pwd.as_bytes(), salt.as_bytes(), &cfg).map_err(|e| e.to_string())
}

/// Calls `argon2::verify_encoded_ext` with no associated data. It decodes
/// the parameters and salt from `encoded` and hashes `pwd` with them and
/// `secret`, so a hash that `hash_encoded` made from the same password and
/// secret verifies. Where it fails, the error's text is given; that text is
/// left unstated.
#[verifier::external_body]
pub(crate) fn argon2_verify_encoded(encoded: &str, pwd: &str, secret: &str) -> (r: Result<bool, String>)
    ensures
        match r {
            Ok(b) => argon2_verify_of(encoded@, pwd@, secret@) == Some(b),
            Err(_) => argon2_verify_of(encoded@, pwd@, secret@) is None,
        },
        r matches Ok(true) || forall|salt: Seq<char>|
            argon2_hash_of(pwd@, salt, secret@) != Some(encoded@),
{
    argon2::verify_encoded_ext(encoded, pwd.as_bytes(), secret.as_bytes(), &[]).map_err(
        |e| e.to_string(),
    )
}

/// Hashes `password` with a fresh salt of 255 random ASCII letters and
/// digits and the default Argon2 configuration keyed with `secret`.
pub fn encrypt(password: &str, secret: &str) -> (r: Result<String, WithBacktrace>)
    ensures
        exists|salt: Seq<char>|
            {
                &&& salt.len() == 255
                &&& forall|i: int| 0 <= i < 255 ==> is_alphanumeric_ascii(#[trigger] salt[i])
                &&& match argon2_hash_of(password@, salt, secret@) {
                    Some(h) => r is Ok && r->Ok_0@ == h,
                    None => r is Err && r->Err_0.spec_source() is Any,
                }
            },
{
    let salt = random_alphanumeric_string(255);
    match argon2_hash_encoded(password, salt.as_str(), secret) {
        Ok(h) => Ok(h),
        Err(t) => Err(any(t.as_str())),
    }
}

/// Whether `pwd` is the password that the encoded Argon2 hash `encoded`
/// was made from, with the secret `secret`.
pub fn verify(encoded: &str, pwd: &str, secret: &str) -> (r: Result<bool, WithBacktrace>)
    ensures
        match argon2_verify_of(encoded@, pwd@, secret@) {
            Some(b) => r is Ok && r->Ok_0 == b,
            None => r is Err && r->Err_0.spec_source() is Any,
        },
        (exists|salt: Seq<char>| argon2_hash_of(pwd@, salt, secret@) == Some(encoded@)) ==> (r
            matches Ok(b) && b),
{
    match argon2_verify_encoded(encoded, pwd, secret) {
        Ok(b) => Ok(b),
        Err(t) => Err(any(t.as_str())),
    }
}

} // verus!
