//! What the HTTP layer decides from a request: the access request a call
//! amounts to, list-or-watch requests, the caller's host and address, and
//! the filters of watched lists.

use vstd::prelude::*;
use vstd::string::*;

use crate::errors::{any, bad_request, forbidden, WithBacktrace};
use crate::json::{json_quote, json_quote_of};
use crate::num::{i64_to_text, int_text};
use crate::oidc::uri::{parse_uri, uri_error_text_of, uri_parses, uri_query_of};
use crate::pim::{find_pair, Request};
use crate::text::{
    chars_of, split_at_char, split_char, str_eq, string_of, trim_end_char, trim_end_matches_char,
    trim_prefix_all, trim_start_matches, views,
};

verus! {

/// The action an HTTP method stands for.
pub open spec fn action_of(method: Seq<char>) -> Seq<char> {
    if method == "POST"@ {
        "create"@
    } else if method == "GET"@ {
        "get"@
    } else if method == "PUT"@ {
        "update"@
    } else if method == "PATCH"@ {
        "patch"@
    } else if method == "DELETE"@ {
        "delete"@
    } else {
        Seq::empty()
    }
}

/// The action the HTTP method `method` stands for.
pub fn action_of_method(method: &str) -> (r: &'static str)
    ensures
        r@ == action_of(method@),
{
    if str_eq(method, "POST") {
        "create"
    } else if str_eq(method, "GET") {
        "get"
    } else if str_eq(method, "PUT") {
        "update"
    } else if str_eq(method, "PATCH") {
        "patch"
    } else if str_eq(method, "DELETE") {
        proof {
            reveal_strlit("");
        }
        "delete"
    } else {
        proof {
            reveal_strlit("");
        }
        ""
    }
}

/// The resource a request path names: `crn:iam:`, then the first segment
/// after the version (the segment after leading `/v`s, up to its first
/// `/`) without trailing `s`s, then `:` and the next segment where there is
/// one. `/v1/users/7` names `crn:iam:user:7`.
pub open spec fn resource_of(path: Seq<char>) -> Seq<char> {
    let segs = split_char(trim_prefix_all(path, "/v"@), '/');
    "crn:iam:"@ + (if segs.len() > 1 {
        trim_end_char(segs[1], 's')
    } else {
        Seq::empty()
    }) + (if segs.len() > 2 {
        ":"@ + segs[2]
    } else {
        Seq::empty()
    })
}

/// The resource the request path `path` names.
pub fn resource_from_path(path: &str) -> (r: String)
    ensures
        r@ == resource_of(path@),
{
    let p = chars_of(path);
    let v = chars_of("/v");
    let rest = trim_start_matches(&p, &v);
    let rest_text = string_of(&rest);
    let segs = split_at_char(rest_text.as_str(), '/');
    let mut resource = String::from_str("crn:iam:");
    if segs.len() > 1 {
        let s1 = chars_of(segs[1].as_str());
        let t = trim_end_matches_char(&s1, 's');
        let t_text = string_of(&t);
        resource.append(t_text.as_str());
        assert(views(segs@)[1] == segs@[1]@);
    }
    let ghost mid = resource@;
    if segs.len() > 2 {
        resource.append(":");
        resource.append(segs[2].as_str());
        assert(views(segs@)[2] == segs@[2]@);
    }
    assert(resource@ =~= resource_of(path@));
    resource
}

/// The access request a call of `method` on `path` by `subject` amounts
/// to, with the caller's address and host (each as a JSON string) as its
/// context.
pub fn access_request(method: &str, path: &str, subject: &str, client_ip: &str, host: &str) -> (r:
    Request)
    ensures
        r.resource@ == resource_of(path@),
        r.action@ == action_of(method@),
        r.subject@ == subject@,
        r.context@.len() == 2,
        r.context@[0].0@ == "client_ip"@,
        r.context@[0].1@ == json_quote_of(client_ip@),
        r.context@[1].0@ == "host"@,
        r.context@[1].1@ == json_quote_of(host@),
{
    let mut context: Vec<(String, String)> = Vec::new();
    context.push((String::from_str("client_ip"), json_quote(client_ip)));
    context.push((String::from_str("host"), json_quote(host)));
    Request {
        resource: resource_from_path(path),
        action: String::from_str(action_of_method(method)),
        subject: String::from_str(subject),
        context,
    }
}

/// The context a request has after adding the facts `extra` (each value a
/// plain string, added as a JSON string): an added fact replaces one of
/// the same name.
pub open spec fn context_after(
    ctx: Seq<(String, String)>,
    extra: Seq<(String, String)>,
) -> Map<Seq<char>, Seq<char>> {
    crate::json::pairs_map(ctx).union_prefer_right(
        Map::new(
            |k: Seq<char>| exists|i: int| 0 <= i < extra.len() && (#[trigger] extra[i]).0@ == k,
            |k: Seq<char>|
                json_quote_of(
                    extra[choose|i: int| 0 <= i < extra.len() && (#[trigger] extra[i]).0@ == k].1@,
                ),
        ),
    )
}

/// Adds the facts `extra` to the request's context before a policy check.
pub fn add_context(req: &mut Request, extra: &Vec<(String, String)>)
    requires
        crate::json::distinct_keys(old(req).context@),
        crate::json::distinct_keys(extra@),
    ensures
        crate::json::distinct_keys(final(req).context@),
        crate::json::pairs_map(final(req).context@) == context_after(old(req).context@, extra@),
        final(req).resource == old(req).resource,
        final(req).action == old(req).action,
        final(req).subject == old(req).subject,
{
    let ghost start = req.context@;
    let ghost extra_map = Map::new(
        |k: Seq<char>| exists|i: int| 0 <= i < extra@.len() && (#[trigger] extra@[i]).0@ == k,
        |k: Seq<char>|
            json_quote_of(
                extra@[choose|i: int| 0 <= i < extra@.len() && (#[trigger] extra@[i]).0@ == k].1@,
            ),
    );
    let ghost res0 = req.resource;
    let ghost act0 = req.action;
    let ghost sub0 = req.subject;
    for i in 0..extra.len()
        invariant
            req.resource == res0,
            req.action == act0,
            req.subject == sub0,
            crate::json::distinct_keys(extra@),
            crate::json::distinct_keys(req.context@),
            crate::json::pairs_map(req.context@) == crate::json::pairs_map(start).union_prefer_right(
                extra_map.restrict(extra@.take(i as int).map_values(|p: (String, String)| p.0@).to_set()),
            ),
            extra_map == Map::new(
                |k: Seq<char>| exists|i: int| 0 <= i < extra@.len() && (#[trigger] extra@[i]).0@ == k,
                |k: Seq<char>|
                    json_quote_of(
                        extra@[choose|i: int| 0 <= i < extra@.len() && (#[trigger] extra@[i]).0@
                            == k].1@,
                    ),
            ),
    {
        let key = extra[i].0.clone();
        let value = json_quote(extra[i].1.as_str());
        let ghost before = req.context@;
        let ghost k = key@;
        proof {
            assert(extra_map.contains_key(k)) by {
                assert(extra@[i as int].0@ == k);
            }
            let j = choose|j: int| 0 <= j < extra@.len() && (#[trigger] extra@[j]).0@ == k;
            if j != i {
                assert(extra@[j].0@ != extra@[i as int].0@);
            }
            assert(extra_map[k] == value@);
        }
        match find_pair(&req.context, key.as_str()) {
            Some(j) => {
                req.context.set(j, (key, value));
                proof {
                    lemma_pairs_set(before, j as int, req.context@);
                }
            },
            None => {
                req.context.push((key, value));
                proof {
                    assert(req.context@.drop_last() =~= before);
                    lemma_pairs_push(before, req.context@);
                }
            },
        }
        proof {
            let dom_before = extra@.take(i as int).map_values(|p: (String, String)| p.0@).to_set();
            let dom_after = extra@.take(i + 1).map_values(|p: (String, String)| p.0@).to_set();
            assert(dom_after =~= dom_before.insert(k)) by {
                assert forall|x: Seq<char>| dom_after.contains(x) implies dom_before.insert(k).contains(x) by {
                    let m = extra@.take(i + 1).map_values(|p: (String, String)| p.0@);
                    let t = choose|t: int| 0 <= t < m.len() && m[t] == x;
                    if t < i {
                        assert(extra@.take(i as int).map_values(|p: (String, String)| p.0@)[t] == x);
                    }
                }
                assert forall|x: Seq<char>| dom_before.insert(k).contains(x) implies dom_after.contains(x) by {
                    let m = extra@.take(i + 1).map_values(|p: (String, String)| p.0@);
                    if x == k {
                        assert(m[i as int] == k);
                    } else {
                        let mb = extra@.take(i as int).map_values(|p: (String, String)| p.0@);
                        let t = choose|t: int| 0 <= t < mb.len() && mb[t] == x;
                        assert(m[t] == x);
                    }
                }
            }
            assert(crate::json::pairs_map(req.context@) =~= crate::json::pairs_map(start).union_prefer_right(
                extra_map.restrict(dom_after),
            ));
        }
    }
    proof {
        let dom = extra@.take(extra@.len() as int).map_values(|p: (String, String)| p.0@).to_set();
        assert(extra@.take(extra@.len() as int) =~= extra@);
        assert(extra_map.restrict(dom) =~= extra_map) by {
            assert forall|k: Seq<char>| extra_map.contains_key(k) implies dom.contains(k) by {
                let t = choose|t: int| 0 <= t < extra@.len() && (#[trigger] extra@[t]).0@ == k;
                assert(extra@.map_values(|p: (String, String)| p.0@)[t] == k);
            }
        }
    }
}

proof fn lemma_pairs_set(before: Seq<(String, String)>, j: int, after: Seq<(String, String)>)
    requires
        crate::json::distinct_keys(before),
        0 <= j < before.len(),
        after == before.update(j, after[j]),
        after[j].0@ == before[j].0@,
    ensures
        crate::json::distinct_keys(after),
        crate::json::pairs_map(after) == crate::json::pairs_map(before).insert(after[j].0@, after[j].1@),
{
    let k = after[j].0@;
    assert(crate::json::distinct_keys(after)) by {
        assert forall|a: int, b: int| 0 <= a < after.len() && 0 <= b < after.len() && a != b implies (#[trigger] after[a]).0@ != (#[trigger] after[b]).0@ by {
            assert(after[a].0@ == before[a].0@);
            assert(after[b].0@ == before[b].0@);
        }
    }
    let ma = crate::json::pairs_map(after);
    let mb = crate::json::pairs_map(before).insert(k, after[j].1@);
    assert forall|x: Seq<char>| #[trigger] ma.contains_key(x) <==> mb.contains_key(x) by {
        if ma.contains_key(x) {
            let t = choose|t: int| 0 <= t < after.len() && (#[trigger] after[t]).0@ == x;
            assert(before[t].0@ == after[t].0@);
        }
        if mb.contains_key(x) && x != k {
            let t = choose|t: int| 0 <= t < before.len() && (#[trigger] before[t]).0@ == x;
            assert(after[t].0@ == before[t].0@);
        }
        if x == k {
            assert(after[j].0@ == x);
        }
    }
    assert forall|x: Seq<char>| ma.contains_key(x) implies #[trigger] ma[x] == mb[x] by {
        let t = choose|t: int| 0 <= t < after.len() && (#[trigger] after[t]).0@ == x;
        if x == k {
            if t != j {
                assert(after[t].0@ != after[j].0@);
            }
        } else {
            let s = choose|s: int| 0 <= s < before.len() && (#[trigger] before[s]).0@ == x;
            if s != t {
                assert(before[s].0@ != before[t].0@);
            }
            assert(t != j);
            assert(after[t] == before[t]);
        }
    }
    assert(ma =~= mb);
}

proof fn lemma_pairs_push(before: Seq<(String, String)>, after: Seq<(String, String)>)
    requires
        crate::json::distinct_keys(before),
        after.len() == before.len() + 1,
        after.drop_last() == before,
        forall|i: int| 0 <= i < before.len() ==> (#[trigger] before[i]).0@ != after.last().0@,
    ensures
        crate::json::distinct_keys(after),
        crate::json::pairs_map(after) == crate::json::pairs_map(before).insert(after.last().0@, after.last().1@),
{
    let n = before.len();
    let k = after.last().0@;
    assert forall|i: int| 0 <= i < n implies after[i] == #[trigger] before[i] by {
        assert(after.drop_last()[i] == after[i]);
    }
    assert(crate::json::distinct_keys(after)) by {
        assert forall|a: int, b: int| 0 <= a < after.len() && 0 <= b < after.len() && a != b implies (#[trigger] after[a]).0@ != (#[trigger] after[b]).0@ by {
            if a < n && b < n {
                assert(after[a] == before[a]);
                assert(after[b] == before[b]);
            } else if a < n {
                assert(after[a] == before[a]);
            } else {
                assert(after[b] == before[b]);
            }
        }
    }
    let ma = crate::json::pairs_map(after);
    let mb = crate::json::pairs_map(before).insert(k, after.last().1@);
    assert forall|x: Seq<char>| #[trigger] ma.contains_key(x) <==> mb.contains_key(x) by {
        if ma.contains_key(x) && x != k {
            let t = choose|t: int| 0 <= t < after.len() && (#[trigger] after[t]).0@ == x;
            assert(t < n);
            assert(before[t] == after[t]);
        }
        if mb.contains_key(x) && x != k {
            let t = choose|t: int| 0 <= t < before.len() && (#[trigger] before[t]).0@ == x;
            assert(after[t] == before[t]);
        }
        if x == k {
            assert(after[n as int].0@ == x);
        }
    }
    assert forall|x: Seq<char>| ma.contains_key(x) implies #[trigger] ma[x] == mb[x] by {
        let t = choose|t: int| 0 <= t < after.len() && (#[trigger] after[t]).0@ == x;
        if x == k {
            if t != n {
                assert(after[t] == before[t]);
            }
        } else {
            assert(t != n);
            let s = choose|s: int| 0 <= s < before.len() && (#[trigger] before[s]).0@ == x;
            assert(after[t] == before[t]);
            if s != t {
                assert(before[s].0@ != before[t].0@);
            }
        }
    }
    assert(ma =~= mb);
}

/// What a list request asks for.
#[derive(Debug)]
pub enum ListWatch<T> {
    /// The current list.
    List(T),
    /// A stream of changes, as server-sent events.
    Watch(T),
    /// A stream of changes over a WebSocket.
    Ws(T),
}

/// The query of a list request: whether to watch, and the list's own
/// parameters.
#[derive(Debug)]
pub struct ListWatchParam<T> {
    pub watch: Option<bool>,
    pub param: T,
}

/// A request part that has passed validation.
#[derive(Debug)]
pub struct Valid<T>(pub T);

/// ASCII lower case of a byte.
pub open spec fn ascii_lower(b: u8) -> u8 {
    if 65 <= b <= 90 {
        (b + 32) as u8
    } else {
        b
    }
}

pub open spec fn lower_bytes(s: Seq<u8>) -> Seq<u8> {
    s.map_values(|b: u8| ascii_lower(b))
}

/// Whether a header's value equals `value` ignoring ASCII case.
pub open spec fn header_equals(header: Option<Seq<u8>>, value: Seq<u8>) -> bool {
    match header {
        Some(h) => lower_bytes(h) == lower_bytes(value),
        None => false,
    }
}

/// Whether a header's value is UTF-8 text that, in ASCII lower case,
/// contains `value`.
pub open spec fn header_has(header: Option<Seq<u8>>, value: Seq<u8>) -> bool {
    match header {
        Some(h) => vstd::utf8::valid_utf8(h) && crate::text::contains_seq(lower_bytes(h), value),
        None => false,
    }
}

/// Calls `std::str::from_utf8` and tells whether it succeeds: whether the
/// bytes are valid UTF-8.
#[verifier::external_body]
pub(crate) fn is_utf8(b: &[u8]) -> (r: bool)
    ensures
        r == vstd::utf8::valid_utf8(b@),
{
    std::str::from_utf8(b).is_ok()
}

fn lower(b: u8) -> (r: u8)
    ensures
        r == ascii_lower(b),
{
    if 65 <= b && b <= 90 {
        b + 32
    } else {
        b
    }
}

fn lowered(b: &[u8]) -> (r: Vec<u8>)
    ensures
        r@ == lower_bytes(b@),
{
    let mut r: Vec<u8> = Vec::new();
    for i in 0..b.len()
        invariant
            r@ == lower_bytes(b@.take(i as int)),
    {
        r.push(lower(b[i]));
        assert(lower_bytes(b@.take(i + 1)) =~= lower_bytes(b@.take(i as int)).push(ascii_lower(b@[i as int])));
    }
    assert(b@.take(b@.len() as int) =~= b@);
    r
}

fn bytes_equal(a: &[u8], b: &[u8]) -> (r: bool)
    ensures
        r == (a@ == b@),
{
    if a.len() != b.len() {
        return false;
    }
    for i in 0..a.len()
        invariant
            a@.len() == b@.len(),
            forall|k: int| 0 <= k < i ==> a@[k] == b@[k],
    {
        if a[i] != b[i] {
            return false;
        }
    }
    assert(a@ =~= b@);
    true
}

fn bytes_contain(h: &[u8], n: &[u8]) -> (r: bool)
    ensures
        r == crate::text::contains_seq(h@, n@),
{
    if n.len() > h.len() {
        return false;
    }
    if n.len() == 0 {
        assert(h@.subrange(0, 0 + n@.len() as int) =~= n@);
        return true;
    }
    let hl = h.len();
    let last = hl - n.len();
    let mut i: usize = 0;
    while i <= last
        invariant
            hl == h@.len(),
            n@.len() > 0,
            last == h@.len() - n@.len(),
            i <= last + 1,
            forall|k: int| 0 <= k < i ==> #[trigger] h@.subrange(k, k + n@.len()) != n@,
        decreases last + 1 - i,
    {
        let mut same = true;
        for j in 0..n.len()
            invariant
                i <= last,
                hl == h@.len(),
                last == h@.len() - n@.len(),
                same == (forall|t: int| 0 <= t < j ==> h@[i + t] == n@[t]),
        {
            if h[i + j] != n[j] {
                same = false;
            }
        }
        if same {
            assert(h@.subrange(i as int, i + n@.len()) =~= n@);
            return true;
        }
        assert(h@.subrange(i as int, i + n@.len()) != n@) by {
            let t = choose|t: int| 0 <= t < n@.len() && h@[i + t] != n@[t];
            assert(h@.subrange(i as int, i + n@.len())[t] == h@[i + t]);
        }
        i = i + 1;
    }
    false
}

/// Whether the header value `header` equals `value` ignoring ASCII case.
pub fn header_eq(header: Option<&[u8]>, value: &str) -> (r: bool)
    ensures
        r == header_equals(
            match header {
                Some(h) => Some(h@),
                None => None,
            },
            value.spec_bytes(),
        ),
{
    match header {
        Some(h) => {
            let a = lowered(h);
            let b = lowered(value.as_bytes());
            bytes_equal(&a, &b)
        },
        None => false,
    }
}

/// Whether the header value `header` is UTF-8 text that, in ASCII lower
/// case, contains `value`.
pub fn header_contains(header: Option<&[u8]>, value: &str) -> (r: bool)
    ensures
        r == header_has(
            match header {
                Some(h) => Some(h@),
                None => None,
            },
            value.spec_bytes(),
        ),
{
    match header {
        Some(h) => {
            if !is_utf8(h) {
                return false;
            }
            let a = lowered(h);
            bytes_contain(&a, value.as_bytes())
        },
        None => false,
    }
}

impl<T> ListWatch<T> {
    /// What a list request asks for: a WebSocket where the request upgrades
    /// to one (its `Upgrade` header is `websocket` and its `Connection`
    /// header contains `upgrade`), else a watch where it asks for one, else
    /// the list.
    pub fn classify(upgrade: Option<&[u8]>, connection: Option<&[u8]>, param: ListWatchParam<T>) -> (r:
        ListWatch<T>)
        ensures
            ({
                let up = match upgrade {
                    Some(h) => Some(h@),
                    None => None,
                };
                let conn = match connection {
                    Some(h) => Some(h@),
                    None => None,
                };
                if header_equals(up, "websocket".spec_bytes()) && header_has(
                    conn,
                    "upgrade".spec_bytes(),
                ) {
                    r == ListWatch::Ws(param.param)
                } else if param.watch == Some(true) {
                    r == ListWatch::Watch(param.param)
                } else {
                    r == ListWatch::List(param.param)
                }
            }),
    {
        if header_eq(upgrade, "websocket") && header_contains(connection, "upgrade") {
            return ListWatch::Ws(param.param);
        }
        let watch = match param.watch {
            Some(w) => w,
            None => false,
        };
        if watch {
            return ListWatch::Watch(param.param);
        }
        ListWatch::List(param.param)
    }
}

/// The caller's origin as the service sees it.
#[derive(Debug)]
pub struct Host {
    pub host: String,
}

impl Host {
    /// The caller's origin from its headers: the `Referer` where there is
    /// one, else `<protocol>://<host>` from `X-Forwarded-Proto` (`http`
    /// where absent) and `X-Forwarded-Host` (the `Host` header where
    /// absent).
    pub fn from_headers(
        referer: Option<&str>,
        forwarded_proto: Option<&str>,
        forwarded_host: Option<&str>,
        host: Option<&str>,
    ) -> (r: Host)
        requires
            referer is None && forwarded_host is None ==> host is Some,
        ensures
            r.host@ == match referer {
                Some(x) => x@,
                None => (match forwarded_proto {
                    Some(p) => p@,
                    None => "http"@,
                }) + "://"@ + (match forwarded_host {
                    Some(h) => h@,
                    None => host->0@,
                }),
            },
    {
        match referer {
            Some(x) => Host { host: String::from_str(x) },
            None => {
                let protocol = match forwarded_proto {
                    Some(p) => p,
                    None => "http",
                };
                let h = match forwarded_host {
                    Some(h) => h,
                    None => match host {
                        Some(h) => h,
                        None => "",
                    },
                };
                let mut s = String::from_str(protocol);
                s.append("://");
                s.append(h);
                Host { host: s }
            },
        }
    }
}

/// The part of an `X-Real-IP` header before its first comma (all of it
/// where it has none): the address the service then reads.
pub open spec fn real_ip_part(s: Seq<char>) -> Seq<char> {
    if exists|i: int| 0 <= i < s.len() && s[i] == ',' {
        s.take(choose|i: int| 0 <= i < s.len() && s[i] == ',' && forall|k: int| 0 <= k < i ==> s[k] != ',')
    } else {
        s
    }
}

/// The part of the `X-Real-IP` header `value` before its first comma.
pub fn real_ip_candidate(value: &str) -> (r: String)
    ensures
        r@ == real_ip_part(value@),
{
    let v = chars_of(value);
    for i in 0..v.len()
        invariant
            v@ == value@,
            forall|k: int| 0 <= k < i ==> v@[k] != ',',
    {
        if v[i] == ',' {
            let mut r = String::new();
            for j in 0..i
                invariant
                    j <= i,
                    i < v@.len(),
                    r@ == v@.take(j as int),
            {
                r.push(v[j]);
                assert(r@ =~= v@.take(j + 1));
            }
            proof {
                let c = choose|c: int| 0 <= c < value@.len() && value@[c] == ',' && forall|k: int|
                    0 <= k < c ==> value@[k] != ',';
                if c < i {
                    assert(v@[c] != ',');
                }
                if c > i {
                    assert(value@[i as int] != ',');
                }
            }
            return r;
        }
    }
    String::from_str(value)
}

/// The address of the client that sent a request.
#[derive(Debug)]
pub struct ClientIp<A> {
    pub ip: A,
}

/// The client's address: the one read from the `X-Real-IP` header, where
/// there is such a header and [`real_ip_candidate`] of it reads as an
/// address (`from_header`); else the peer address of the connection
/// (`peer`), where the connection gives one; else the error of getting it.
pub fn client_ip<A>(from_header: Option<A>, peer: Result<A, String>) -> (r: Result<ClientIp<A>, WithBacktrace>)
    ensures
        match (from_header, peer) {
            (Some(a), _) => r matches Ok(c) && c.ip == a,
            (None, Ok(p)) => r matches Ok(c) && c.ip == p,
            (None, Err(m)) => r is Err && r->Err_0.spec_source() is Any
                && r->Err_0.spec_source()->Any_0@ == m@,
        },
{
    match from_header {
        Some(a) => Ok(ClientIp { ip: a }),
        None => match peer {
            Ok(p) => Ok(ClientIp { ip: p }),
            Err(m) => Err(any(m.as_str())),
        },
    }
}

/// Whether a watched item is left out of a stream that lists by id and
/// account: where the list asks for an id or account, the item must have
/// it.
pub fn skip_by_id_and_account(
    value_id: &str,
    value_account: &str,
    id: &Option<String>,
    account: &Option<String>,
) -> (r: bool)
    ensures
        r == ((id is Some && id->0@ != value_id@) || (account is Some && account->0@
            != value_account@)),
{
    match id {
        Some(v) => if !str_eq(value_id, v.as_str()) {
            return true;
        },
        None => {},
    }
    match account {
        Some(v) => if !str_eq(value_account, v.as_str()) {
            return true;
        },
        None => {},
    }
    false
}

/// Whether a watched item is left out of a stream that lists by id.
pub fn skip_by_id(value_id: &str, id: &Option<String>) -> (r: bool)
    ensures
        r == (id is Some && id->0@ != value_id@),
{
    match id {
        Some(v) => !str_eq(value_id, v.as_str()),
        None => false,
    }
}

/// What the receiving side of a watch's WebSocket got from the client.
#[derive(Debug)]
pub enum WsIncoming {
    /// The stream of messages has ended.
    Ended,
    /// Reading a message failed.
    Failed,
    /// A close message.
    Close,
    /// Any other message.
    Other,
}

/// Whether the receiving side of a watch's WebSocket stops after `m`: on a
/// close message or a failed read. It goes on waiting after any other
/// message, and also after the end of the stream.
pub fn ws_receive_stops(m: &WsIncoming) -> (r: bool)
    ensures
        r == (m is Failed || m is Close),
{
    match m {
        WsIncoming::Failed => true,
        WsIncoming::Close => true,
        _ => false,
    }
}

/// The `Cache-Control` value of the published keys: they may be cached
/// until the next rotation, and at least two minutes.
pub fn keys_cache_control(next_rotation: i64, now: i64) -> (r: String)
    requires
        i64::MIN <= next_rotation - now <= i64::MAX,
    ensures
        r@ == "max-age="@ + int_text(
            if next_rotation - now < 120 {
                120
            } else {
                next_rotation - now
            },
        ) + ", must-revalidate"@,
{
    let mut max_age = next_rotation - now;
    if max_age < 120 {
        max_age = 120;
    }
    let mut s = String::from_str("max-age=");
    let t = i64_to_text(max_age);
    s.append(t.as_str());
    s.append(", must-revalidate");
    s
}

/// Where the login form posts to: the callback (`/callback` where none is
/// given) with the state added to its query.
pub fn login_post_url(callback: Option<&str>, state: &str) -> (r: Result<String, WithBacktrace>)
    ensures
        ({
            let u = match callback {
                Some(c) => c@,
                None => "/callback"@,
            };
            if uri_parses(u) {
                r is Ok && r->Ok_0@ == u + (if uri_query_of(u) is None {
                    "?"@
                } else {
                    "&"@
                }) + "state="@ + state@
            } else {
                r is Err && r->Err_0.spec_source() is BadRequest
                    && r->Err_0.spec_source()->BadRequest_0@ == uri_error_text_of(u)
            }
        }),
{
    let mut u = match callback {
        Some(c) => String::from_str(c),
        None => String::from_str("/callback"),
    };
    let parsed = match parse_uri(u.as_str()) {
        Ok(p) => p,
        Err(t) => return Err(bad_request(t.as_str())),
    };
    proof {
        reveal_strlit("?");
        reveal_strlit("&");
    }
    if parsed.query.is_none() {
        u.push('?');
    } else {
        u.push('&');
    }
    u.append("state=");
    u.append(state);
    Ok(u)
}

/// The login form of the password connector.
#[derive(Debug)]
pub struct Password {
    /// Where the form posts to.
    pub post_url: String,
    /// The scopes the client asked for.
    pub scopes: Vec<String>,
    pub username_prompt: String,
}

/// The login form for the authorization request `state`, whose client
/// asked for `scopes`: it posts to the callback with the state added.
pub fn password_page(callback: Option<&str>, state: &str, scopes: Vec<String>) -> (r: Result<
    Password,
    WithBacktrace,
>)
    ensures
        ({
            let u = match callback {
                Some(c) => c@,
                None => "/callback"@,
            };
            if uri_parses(u) {
                r is Ok && r->Ok_0.post_url@ == u + (if uri_query_of(u) is None {
                    "?"@
                } else {
                    "&"@
                }) + "state="@ + state@ && r->Ok_0.scopes == scopes
                    && r->Ok_0.username_prompt@ == "Enter your username"@
            } else {
                r is Err && r->Err_0.spec_source() is BadRequest
                    && r->Err_0.spec_source()->BadRequest_0@ == uri_error_text_of(u)
            }
        }),
{
    let post_url = login_post_url(callback, state)?;
    Ok(Password { post_url, scopes, username_prompt: String::from_str("Enter your username") })
}

/// A page rendered from the template `T`.
#[derive(Debug)]
pub struct HtmlTemplate<T>(pub T);

/// The service's routes; the HTTP layer builds them.
#[derive(Debug)]
pub struct AppRouter;

/// The facts a policy check adds about the record it guards: the account
/// the record belongs to, where it has one.
pub fn account_facts(account_id: &Option<String>) -> (r: Vec<(String, String)>)
    ensures
        match account_id {
            Some(a) => r@.len() == 1 && r@[0].0@ == "account_id"@ && r@[0].1 == *a,
            None => r@.len() == 0,
        },
        crate::json::distinct_keys(r@),
{
    let mut v: Vec<(String, String)> = Vec::new();
    match account_id {
        Some(a) => v.push((String::from_str("account_id"), a.clone())),
        None => {},
    }
    v
}

/// A byte `http::HeaderValue::to_str` accepts: visible ASCII or a tab.
pub open spec fn is_visible_ascii(b: u8) -> bool {
    (32 <= b && b < 127) || b == 9
}

/// The text of the header value `b`, as `http::HeaderValue::to_str` reads
/// it: `None` unless every byte is visible ASCII or a tab.
pub fn header_text(b: &[u8]) -> (r: Option<String>)
    ensures
        (forall|i: int| 0 <= i < b@.len() ==> is_visible_ascii(#[trigger] b@[i])) ==> (r matches Some(
            t,
        ) && t@ == b@.map_values(|x: u8| x as char)),
        !(forall|i: int| 0 <= i < b@.len() ==> is_visible_ascii(#[trigger] b@[i])) ==> r is None,
{
    let mut t = String::new();
    for i in 0..b.len()
        invariant
            forall|k: int| 0 <= k < i ==> is_visible_ascii(#[trigger] b@[k]),
            t@ == b@.take(i as int).map_values(|x: u8| x as char),
    {
        let c = b[i];
        if !((32 <= c && c < 127) || c == 9) {
            return None;
        }
        t.push(c as char);
        assert(t@ =~= b@.take(i + 1).map_values(|x: u8| x as char));
    }
    assert(b@.take(b@.len() as int) =~= b@);
    Some(t)
}

/// The user a request acts for, from its `X-User-ID` header: refused where
/// the header is missing; empty where it is not visible ASCII.
pub fn user_id_header(header: Option<&[u8]>) -> (r: Result<String, WithBacktrace>)
    ensures
        match header {
            None => r is Err && r->Err_0.spec_source() is Forbidden
                && r->Err_0.spec_source()->Forbidden_0@ == "missing X-User-ID"@,
            Some(b) => r is Ok && if forall|i: int|
                0 <= i < b@.len() ==> is_visible_ascii(#[trigger] b@[i]) {
                r->Ok_0@ == b@.map_values(|x: u8| x as char)
            } else {
                r->Ok_0@.len() == 0
            },
        },
{
    match header {
        None => Err(forbidden("missing X-User-ID")),
        Some(b) => match header_text(b) {
            Some(t) => Ok(t),
            None => Ok(String::new()),
        },
    }
}

} // verus!
