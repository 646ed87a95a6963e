//! Character-level string utilities shared by the rest of the library.
//!
//! Strings are handled as sequences of `char`s; each function here states
//! its result over `Seq<char>` so that callers can reason about the exact
//! text they build.

use vstd::prelude::*;
use vstd::string::*;

verus! {

pub assume_specification[ String::push ](s: &mut String, ch: char)
    ensures
        final(s)@ == old(s)@.push(ch),
;

/// The characters of `s`, in order.
pub fn chars_of(s: &str) -> (v: Vec<char>)
    ensures
        v@ == s@,
{
    let n = s.unicode_len();
    let mut v: Vec<char> = Vec::new();
    for i in 0..n
        invariant
            n == s@.len(),
            v@ == s@.subrange(0, i as int),
    {
        v.push(s.get_char(i));
        assert(v@ =~= s@.subrange(0, i + 1));
    }
    assert(v@ =~= s@);
    v
}

/// A string made of the characters `v`.
pub fn string_of(v: &[char]) -> (s: String)
    ensures
        s@ == v@,
{
    let mut s = String::new();
    for i in 0..v.len()
        invariant
            s@ == v@.subrange(0, i as int),
    {
        s.push(v[i]);
        assert(s@ =~= v@.subrange(0, i + 1));
    }
    assert(s@ =~= v@);
    s
}

/// The concatenation of `a` and `b`.
pub fn concat2(a: &str, b: &str) -> (r: String)
    ensures
        r@ == a@ + b@,
{
    let mut r = String::from_str(a);
    r.append(b);
    r
}

/// Whether two strings hold the same characters.
pub fn str_eq(a: &str, b: &str) -> (r: bool)
    ensures
        r == (a@ == b@),
{
    let x = chars_of(a);
    let y = chars_of(b);
    seq_eq(&x, &y)
}

/// Whether two character slices are equal.
pub fn seq_eq(x: &[char], y: &[char]) -> (r: bool)
    ensures
        r == (x@ == y@),
{
    if x.len() != y.len() {
        return false;
    }
    for i in 0..x.len()
        invariant
            x@.len() == y@.len(),
            forall|j: int| 0 <= j < i ==> x@[j] == y@[j],
    {
        if x[i] != y[i] {
            return false;
        }
    }
    assert(x@ =~= y@);
    true
}

/// Whether `c` has the Unicode `White_Space` property, which is what
/// `char::is_whitespace` tests.
pub open spec fn is_ws(c: char) -> bool {
    let u = c as u32;
    ||| 0x09 <= u <= 0x0D
    ||| u == 0x20
    ||| u == 0x85
    ||| u == 0xA0
    ||| u == 0x1680
    ||| 0x2000 <= u <= 0x200A
    ||| u == 0x2028
    ||| u == 0x2029
    ||| u == 0x202F
    ||| u == 0x205F
    ||| u == 0x3000
}

/// Executable form of [`is_ws`].
pub fn is_whitespace(c: char) -> (r: bool)
    ensures
        r == is_ws(c),
{
    let u = c as u32;
    (0x09 <= u && u <= 0x0D) || u == 0x20 || u == 0x85 || u == 0xA0 || u == 0x1680 || (0x2000
        <= u && u <= 0x200A) || u == 0x2028 || u == 0x2029 || u == 0x202F || u == 0x205F || u
        == 0x3000
}

/// The words of `s` still to come, given the word `cur` being read and the
/// words `acc` already complete: maximal runs of characters that are not
/// whitespace, in order.
pub open spec fn words_from(s: Seq<char>, cur: Seq<char>, acc: Seq<Seq<char>>) -> Seq<Seq<char>>
    decreases s.len(),
{
    if s.len() == 0 {
        if cur.len() > 0 {
            acc.push(cur)
        } else {
            acc
        }
    } else if is_ws(s[0]) {
        words_from(s.drop_first(), Seq::empty(), if cur.len() > 0 { acc.push(cur) } else { acc })
    } else {
        words_from(s.drop_first(), cur.push(s[0]), acc)
    }
}

/// The words of `s`, as `str::split_whitespace` yields them.
pub open spec fn words(s: Seq<char>) -> Seq<Seq<char>> {
    words_from(s, Seq::empty(), Seq::empty())
}

/// The views of a vector of strings.
pub open spec fn views(v: Seq<String>) -> Seq<Seq<char>> {
    v.map_values(|x: String| x@)
}

/// Splits `s` at whitespace, as `str::split_whitespace` does.
pub fn split_whitespace(s: &str) -> (r: Vec<String>)
    ensures
        views(r@) == words(s@),
{
    let cs = chars_of(s);
    let mut acc: Vec<String> = Vec::new();
    let mut cur: Vec<char> = Vec::new();
    assert(cs@.skip(0) =~= cs@);
    assert(views(acc@) =~= Seq::<Seq<char>>::empty());
    assert(cur@ =~= Seq::<char>::empty());
    for i in 0..cs.len()
        invariant
            cs@ == s@,
            words_from(cs@.skip(i as int), cur@, views(acc@)) == words(s@),
    {
        assert(cs@.skip(i as int).drop_first() =~= cs@.skip(i + 1));
        let c = cs[i];
        if is_whitespace(c) {
            if cur.len() > 0 {
                let ghost before = acc@;
                let w = string_of(&cur);
                acc.push(w);
                assert(views(acc@) =~= views(before).push(cur@));
            }
            cur = Vec::new();
            assert(cur@ =~= Seq::<char>::empty());
        } else {
            cur.push(c);
        }
    }
    assert(cs@.skip(cs@.len() as int) =~= Seq::<char>::empty());
    if cur.len() > 0 {
        let ghost before = acc@;
        let w = string_of(&cur);
        acc.push(w);
        assert(views(acc@) =~= views(before).push(cur@));
    }
    acc
}


/// Whether `s` begins with `p`.
pub open spec fn has_prefix(s: Seq<char>, p: Seq<char>) -> bool {
    p.len() <= s.len() && s.take(p.len() as int) == p
}

/// Whether `s[from..]` begins with `p`.
pub fn starts_with_at(s: &[char], from: usize, p: &[char]) -> (r: bool)
    requires
        from <= s@.len(),
    ensures
        r == has_prefix(s@.skip(from as int), p@),
{
    if p.len() > s.len() - from {
        return false;
    }
    let end = from + p.len();
    for j in 0..p.len()
        invariant
            from + p@.len() <= s@.len(),
            end == from + p@.len(),
            forall|k: int| 0 <= k < j ==> s@[from + k] == p@[k],
    {
        if s[from + j] != p[j] {
            assert(s@.skip(from as int).take(p@.len() as int)[j as int] != p@[j as int]);
            return false;
        }
    }
    assert(s@.skip(from as int).take(p@.len() as int) =~= p@);
    true
}

/// `s` with every leading copy of `p` removed, as `str::trim_start_matches`
/// does with a non-empty pattern.
pub open spec fn trim_prefix_all(s: Seq<char>, p: Seq<char>) -> Seq<char>
    decreases s.len(),
{
    if p.len() > 0 && has_prefix(s, p) {
        trim_prefix_all(s.skip(p.len() as int), p)
    } else {
        s
    }
}

/// Removes every leading copy of `p` from `s`.
pub fn trim_start_matches(s: &[char], p: &[char]) -> (r: Vec<char>)
    ensures
        r@ == trim_prefix_all(s@, p@),
{
    let n = s.len();
    let mut i: usize = 0;
    let mut go = p.len() > 0;
    assert(s@.skip(0) =~= s@);
    while go
        invariant
            n == s@.len(),
            i <= n,
            trim_prefix_all(s@.skip(i as int), p@) == trim_prefix_all(s@, p@),
            go ==> p@.len() > 0,
            !go ==> !(p@.len() > 0 && has_prefix(s@.skip(i as int), p@)),
        decreases n - i + (if go { 1int } else { 0int }),
    {
        if starts_with_at(s, i, p) {
            assert(s@.skip(i as int).skip(p@.len() as int) =~= s@.skip(i + p@.len()));
            i = i + p.len();
        } else {
            go = false;
        }
    }
    let mut r: Vec<char> = Vec::new();
    for j in i..s.len()
        invariant
            i <= s@.len(),
            r@ == s@.subrange(i as int, j as int),
    {
        r.push(s[j]);
        assert(r@ =~= s@.subrange(i as int, j + 1));
    }
    assert(r@ =~= s@.skip(i as int));
    r
}

/// `s` with every trailing `c` removed, as `str::trim_end_matches` does
/// with a character.
pub open spec fn trim_end_char(s: Seq<char>, c: char) -> Seq<char>
    decreases s.len(),
{
    if s.len() > 0 && s.last() == c {
        trim_end_char(s.drop_last(), c)
    } else {
        s
    }
}

/// Removes every trailing `c` from `s`.
pub fn trim_end_matches_char(s: &[char], c: char) -> (r: Vec<char>)
    ensures
        r@ == trim_end_char(s@, c),
{
    let mut n: usize = s.len();
    assert(s@.take(n as int) =~= s@);
    while n > 0 && s[n - 1] == c
        invariant
            n <= s@.len(),
            trim_end_char(s@.take(n as int), c) == trim_end_char(s@, c),
        decreases n,
    {
        assert(s@.take(n as int).drop_last() =~= s@.take(n - 1));
        n = n - 1;
    }
    let mut r: Vec<char> = Vec::new();
    for j in 0..n
        invariant
            n <= s@.len(),
            r@ == s@.take(j as int),
    {
        r.push(s[j]);
        assert(r@ =~= s@.take(j + 1));
    }
    r
}

/// Whether `x` is one of the strings of `v`.
pub fn contains_string(v: &Vec<String>, x: &str) -> (r: bool)
    ensures
        r == views(v@).contains(x@),
{
    for i in 0..v.len()
        invariant
            forall|j: int| 0 <= j < i ==> views(v@)[j] != x@,
    {
        if str_eq(v[i].as_str(), x) {
            assert(views(v@)[i as int] == x@);
            return true;
        }
    }
    proof {
        if views(v@).contains(x@) {
            let j = choose|j: int| 0 <= j < views(v@).len() && views(v@)[j] == x@;
            assert(views(v@)[j] != x@);
        }
    }
    false
}

/// Whether `n` occurs in `h` as a contiguous run.
pub open spec fn contains_seq<T>(h: Seq<T>, n: Seq<T>) -> bool {
    exists|i: int| 0 <= i <= h.len() - n.len() && #[trigger] h.subrange(i, i + n.len()) == n
}

/// Whether `n` occurs in `h`, as `str::contains` tests it.
pub fn contains_chars(h: &[char], n: &[char]) -> (r: bool)
    ensures
        r == contains_seq(h@, n@),
{
    if n.len() > h.len() {
        return false;
    }
    if n.len() == 0 {
        assert(h@.subrange(0, 0 + n@.len() as int) =~= n@);
        return true;
    }
    let hl = h.len();
    let last = hl - n.len();
    let mut i: usize = 0;
    while i <= last
        invariant
            hl == h@.len(),
            n@.len() > 0,
            last == h@.len() - n@.len(),
            i <= last + 1,
            forall|k: int| 0 <= k < i ==> #[trigger] h@.subrange(k, k + n@.len()) != n@,
        decreases last + 1 - i,
    {
        if starts_with_at(h, i, n) {
            assert(h@.subrange(i as int, i + n@.len()) =~= h@.skip(i as int).take(n@.len() as int));
            return true;
        }
        assert(h@.subrange(i as int, i + n@.len()) =~= h@.skip(i as int).take(n@.len() as int));
        i = i + 1;
    }
    false
}


/// The pieces of `s` still to come when splitting at `c`, given the piece
/// `cur` being read and the pieces `acc` already complete.
pub open spec fn split_from(s: Seq<char>, c: char, cur: Seq<char>, acc: Seq<Seq<char>>) -> Seq<Seq<char>>
    decreases s.len(),
{
    if s.len() == 0 {
        acc.push(cur)
    } else if s[0] == c {
        split_from(s.drop_first(), c, Seq::empty(), acc.push(cur))
    } else {
        split_from(s.drop_first(), c, cur.push(s[0]), acc)
    }
}

/// The pieces of `s` between occurrences of `c`, as `str::split` gives
/// them with a character pattern (empty pieces included).
pub open spec fn split_char(s: Seq<char>, c: char) -> Seq<Seq<char>> {
    split_from(s, c, Seq::empty(), Seq::empty())
}

/// Splits `s` at every `c`.
pub fn split_at_char(s: &str, c: char) -> (r: Vec<String>)
    ensures
        views(r@) == split_char(s@, c),
{
    let cs = chars_of(s);
    let mut acc: Vec<String> = Vec::new();
    let mut cur: Vec<char> = Vec::new();
    assert(cs@.skip(0) =~= cs@);
    assert(views(acc@) =~= Seq::<Seq<char>>::empty());
    assert(cur@ =~= Seq::<char>::empty());
    for i in 0..cs.len()
        invariant
            cs@ == s@,
            split_from(cs@.skip(i as int), c, cur@, views(acc@)) == split_char(s@, c),
    {
        assert(cs@.skip(i as int).drop_first() =~= cs@.skip(i + 1));
        let x = cs[i];
        if x == c {
            let ghost before = acc@;
            let w = string_of(&cur);
            acc.push(w);
            assert(views(acc@) =~= views(before).push(cur@));
            cur = Vec::new();
            assert(cur@ =~= Seq::<char>::empty());
        } else {
            cur.push(x);
        }
    }
    assert(cs@.skip(cs@.len() as int) =~= Seq::<char>::empty());
    let ghost before = acc@;
    let w = string_of(&cur);
    acc.push(w);
    assert(views(acc@) =~= views(before).push(cur@));
    acc
}

} // verus!
