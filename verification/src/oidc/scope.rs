//! Checking the scopes an OpenID Connect client asks for, and working out
//! the audience of the tokens it will get.

use vstd::prelude::*;

use crate::errors::{bad_request, WithBacktrace};
use crate::json::{debug_strings, debug_text_of};
use crate::model::Client;
use crate::text::{
    chars_of, contains_string, has_prefix, seq_eq, string_of, trim_prefix_all, trim_start_matches,
    views,
};

verus! {

pub open spec fn scope_openid() -> Seq<char> {
    "openid"@
}

/// The prefix of a scope that asks for a token whose audience is another
/// client.
pub open spec fn cross_client_prefix() -> Seq<char> {
    "audience:server:client_id:"@
}

/// Scopes that are recognised and need nothing further.
pub open spec fn is_plain_scope(s: Seq<char>) -> bool {
    ||| s == "offline_access"@
    ||| s == "email"@
    ||| s == "profile"@
    ||| s == "groups"@
    ||| s == "federated:id"@
    ||| s == cross_client_prefix()
}

/// How a requested scope is judged.
#[derive(Debug)]
pub enum ScopeClass {
    /// `openid`.
    OpenId,
    /// Another recognised scope.
    Plain,
    /// A scope that is not recognised.
    Unrecognized,
    /// A cross-client scope naming another client.
    Invalid,
    /// A cross-client scope naming the client itself: whether it is allowed
    /// depends on that client's trusted peers.
    Peer,
}

/// How the scope `s` requested by `client_id` is judged.
pub open spec fn scope_class(client_id: Seq<char>, s: Seq<char>) -> ScopeClass {
    if s == scope_openid() {
        ScopeClass::OpenId
    } else if is_plain_scope(s) {
        ScopeClass::Plain
    } else if !has_prefix(s, cross_client_prefix()) {
        ScopeClass::Unrecognized
    } else if trim_prefix_all(s, cross_client_prefix()) != client_id {
        ScopeClass::Invalid
    } else {
        ScopeClass::Peer
    }
}

/// Whether some scope needs the record of the client itself.
pub open spec fn needs_peer_lookup(client_id: Seq<char>, scopes: Seq<Seq<char>>) -> bool {
    exists|i: int| 0 <= i < scopes.len() && scope_class(client_id, #[trigger] scopes[i]) is Peer
}

/// The unrecognised scopes, in order.
pub open spec fn unrecognized_scopes(client_id: Seq<char>, scopes: Seq<Seq<char>>) -> Seq<
    Seq<char>,
>
    decreases scopes.len(),
{
    if scopes.len() == 0 {
        Seq::empty()
    } else {
        let rest = unrecognized_scopes(client_id, scopes.drop_last());
        if scope_class(client_id, scopes.last()) is Unrecognized {
            rest.push(scopes.last())
        } else {
            rest
        }
    }
}

/// The scopes the client may not request, in order, given whether the
/// client trusts itself as a peer.
pub open spec fn invalid_scopes(client_id: Seq<char>, scopes: Seq<Seq<char>>, trusted: bool) -> Seq<
    Seq<char>,
>
    decreases scopes.len(),
{
    if scopes.len() == 0 {
        Seq::empty()
    } else {
        let rest = invalid_scopes(client_id, scopes.drop_last(), trusted);
        let c = scope_class(client_id, scopes.last());
        if c is Invalid || (c is Peer && !trusted) {
            rest.push(scopes.last())
        } else {
            rest
        }
    }
}

/// The audiences named by the allowed cross-client scopes, in order.
pub open spec fn peer_audience(client_id: Seq<char>, scopes: Seq<Seq<char>>, trusted: bool) -> Seq<
    Seq<char>,
>
    decreases scopes.len(),
{
    if scopes.len() == 0 {
        Seq::empty()
    } else {
        let rest = peer_audience(client_id, scopes.drop_last(), trusted);
        if scope_class(client_id, scopes.last()) is Peer && trusted {
            rest.push(trim_prefix_all(scopes.last(), cross_client_prefix()))
        } else {
            rest
        }
    }
}

proof fn lemma_no_peer_scopes_ignore_trust(client_id: Seq<char>, scopes: Seq<Seq<char>>)
    requires
        !needs_peer_lookup(client_id, scopes),
    ensures
        invalid_scopes(client_id, scopes, true) == invalid_scopes(client_id, scopes, false),
        peer_audience(client_id, scopes, true) == peer_audience(client_id, scopes, false),
    decreases scopes.len(),
{
    if scopes.len() > 0 {
        let rest = scopes.drop_last();
        assert(!needs_peer_lookup(client_id, rest)) by {
            if needs_peer_lookup(client_id, rest) {
                let i = choose|i: int| 0 <= i < rest.len() && scope_class(client_id, #[trigger] rest[i]) is Peer;
                assert(scopes[i] == rest[i]);
            }
        }
        assert(!(scope_class(client_id, scopes[scopes.len() - 1]) is Peer));
        lemma_no_peer_scopes_ignore_trust(client_id, rest);
    }
}

/// Where no scope names the client as a peer, checking the scopes does not
/// depend on the client's record: every outcome of the fetch gives the
/// same answer.
pub proof fn lemma_scope_outcome_ignores_peers(
    client_id: Seq<char>,
    scopes: Seq<Seq<char>>,
    p1: Option<Seq<Seq<char>>>,
    p2: Option<Seq<Seq<char>>>,
)
    requires
        !needs_peer_lookup(client_id, scopes),
    ensures
        scope_outcome(client_id, scopes, p1) == scope_outcome(client_id, scopes, p2),
{
    lemma_no_peer_scopes_ignore_trust(client_id, scopes);
}

/// The standard scopes: `openid`, `offline_access`, `email`, `profile`,
/// `groups` and `federated:id`.
pub open spec fn standard_scope(s: Seq<char>) -> bool {
    ||| s == seq!['o', 'p', 'e', 'n', 'i', 'd']
    ||| s == seq!['o', 'f', 'f', 'l', 'i', 'n', 'e', '_', 'a', 'c', 'c', 'e', 's', 's']
    ||| s == seq!['e', 'm', 'a', 'i', 'l']
    ||| s == seq!['p', 'r', 'o', 'f', 'i', 'l', 'e']
    ||| s == seq!['g', 'r', 'o', 'u', 'p', 's']
    ||| s == seq!['f', 'e', 'd', 'e', 'r', 'a', 't', 'e', 'd', ':', 'i', 'd']
}

proof fn lemma_standard_scope_class(client_id: Seq<char>, s: Seq<char>)
    requires
        standard_scope(s),
    ensures
        scope_class(client_id, s) is OpenId || scope_class(client_id, s) is Plain,
{
    reveal_strlit("openid");
    reveal_strlit("offline_access");
    reveal_strlit("email");
    reveal_strlit("profile");
    reveal_strlit("groups");
    reveal_strlit("federated:id");
    assert("openid"@ =~= seq!['o', 'p', 'e', 'n', 'i', 'd']);
    assert("offline_access"@ =~= seq!['o', 'f', 'f', 'l', 'i', 'n', 'e', '_', 'a', 'c', 'c', 'e', 's', 's']);
    assert("email"@ =~= seq!['e', 'm', 'a', 'i', 'l']);
    assert("profile"@ =~= seq!['p', 'r', 'o', 'f', 'i', 'l', 'e']);
    assert("groups"@ =~= seq!['g', 'r', 'o', 'u', 'p', 's']);
    assert("federated:id"@ =~= seq!['f', 'e', 'd', 'e', 'r', 'a', 't', 'e', 'd', ':', 'i', 'd']);
}

proof fn lemma_standard_scopes_pass(client_id: Seq<char>, scopes: Seq<Seq<char>>, trusted: bool)
    requires
        forall|i: int| 0 <= i < scopes.len() ==> standard_scope(#[trigger] scopes[i]),
    ensures
        unrecognized_scopes(client_id, scopes).len() == 0,
        invalid_scopes(client_id, scopes, trusted).len() == 0,
        peer_audience(client_id, scopes, trusted).len() == 0,
        !needs_peer_lookup(client_id, scopes),
    decreases scopes.len(),
{
    if scopes.len() > 0 {
        let rest = scopes.drop_last();
        assert forall|i: int| 0 <= i < rest.len() implies standard_scope(#[trigger] rest[i]) by {
            assert(rest[i] == scopes[i]);
        }
        lemma_standard_scopes_pass(client_id, rest, trusted);
        lemma_standard_scope_class(client_id, scopes.last());
    }
    assert forall|i: int| 0 <= i < scopes.len() implies !(scope_class(client_id, #[trigger] scopes[i]) is Peer) by {
        lemma_standard_scope_class(client_id, scopes[i]);
    }
}

/// Every standard scope is recognised: a request of `openid` with any of
/// the standard scopes (`offline_access`, `email`, `profile`, `groups`,
/// `federated:id`) is accepted, whatever the client's record, and the
/// tokens' audience is the client alone.
pub proof fn lemma_standard_scopes_accepted(
    client_id: Seq<char>,
    scopes: Seq<Seq<char>>,
    peers: Option<Seq<Seq<char>>>,
)
    requires
        scopes.contains(seq!['o', 'p', 'e', 'n', 'i', 'd']),
        forall|i: int| 0 <= i < scopes.len() ==> standard_scope(#[trigger] scopes[i]),
    ensures
        scope_outcome(client_id, scopes, peers) == Ok::<Seq<Seq<char>>, ScopeFailure>(seq![client_id]),
{
    let trusted = peers is Some && peers->0.contains(client_id);
    lemma_standard_scopes_pass(client_id, scopes, trusted);
    reveal_strlit("openid");
    assert("openid"@ =~= seq!['o', 'p', 'e', 'n', 'i', 'd']);
}

/// The prefix of cross-client scopes, as written out.
pub open spec fn cross_client_prefix_text() -> Seq<char> {
    seq![
        'a', 'u', 'd', 'i', 'e', 'n', 'c', 'e', ':', 's', 'e', 'r', 'v', 'e', 'r', ':', 'c', 'l',
        'i', 'e', 'n', 't', '_', 'i', 'd', ':',
    ]
}

proof fn lemma_unknown_scope_class(client_id: Seq<char>, s: Seq<char>)
    requires
        !standard_scope(s),
        !(cross_client_prefix_text().len() <= s.len() && s.take(cross_client_prefix_text().len() as int)
            == cross_client_prefix_text()),
    ensures
        scope_class(client_id, s) is Unrecognized,
{
    reveal_strlit("openid");
    reveal_strlit("offline_access");
    reveal_strlit("email");
    reveal_strlit("profile");
    reveal_strlit("groups");
    reveal_strlit("federated:id");
    reveal_strlit("audience:server:client_id:");
    assert("openid"@ =~= seq!['o', 'p', 'e', 'n', 'i', 'd']);
    assert("offline_access"@ =~= seq!['o', 'f', 'f', 'l', 'i', 'n', 'e', '_', 'a', 'c', 'c', 'e', 's', 's']);
    assert("email"@ =~= seq!['e', 'm', 'a', 'i', 'l']);
    assert("profile"@ =~= seq!['p', 'r', 'o', 'f', 'i', 'l', 'e']);
    assert("groups"@ =~= seq!['g', 'r', 'o', 'u', 'p', 's']);
    assert("federated:id"@ =~= seq!['f', 'e', 'd', 'e', 'r', 'a', 't', 'e', 'd', ':', 'i', 'd']);
    assert("audience:server:client_id:"@ =~= cross_client_prefix_text());
    if s == cross_client_prefix_text() {
        assert(s.take(s.len() as int) =~= s);
    }
}

proof fn lemma_unrecognized_listed(client_id: Seq<char>, scopes: Seq<Seq<char>>, i: int)
    requires
        0 <= i < scopes.len(),
        scope_class(client_id, scopes[i]) is Unrecognized,
    ensures
        unrecognized_scopes(client_id, scopes).contains(scopes[i]),
    decreases scopes.len(),
{
    let rest = scopes.drop_last();
    if i < scopes.len() - 1 {
        assert(rest[i] == scopes[i]);
        lemma_unrecognized_listed(client_id, rest, i);
        let u = unrecognized_scopes(client_id, rest);
        let k = choose|k: int| 0 <= k < u.len() && u[k] == scopes[i];
        if scope_class(client_id, scopes.last()) is Unrecognized {
            assert(u.push(scopes.last())[k] == scopes[i]);
        }
    } else {
        let u = unrecognized_scopes(client_id, rest);
        assert(u.push(scopes.last())[u.len() as int] == scopes[i]);
    }
}

/// A scope that is neither a standard scope nor a cross-client scope
/// (one starting with `audience:server:client_id:`) is not recognised: a
/// request of `openid` with it is refused, and the refusal lists it,
/// whatever the client's record.
pub proof fn lemma_unknown_scopes_refused(
    client_id: Seq<char>,
    scopes: Seq<Seq<char>>,
    peers: Option<Seq<Seq<char>>>,
    i: int,
)
    requires
        peers is Some,
        scopes.contains(seq!['o', 'p', 'e', 'n', 'i', 'd']),
        0 <= i < scopes.len(),
        !standard_scope(scopes[i]),
        !(cross_client_prefix_text().len() <= scopes[i].len() && scopes[i].take(
            cross_client_prefix_text().len() as int,
        ) == cross_client_prefix_text()),
    ensures
        scope_outcome(client_id, scopes, peers) matches Err(ScopeFailure::Unrecognized(l))
            && l.contains(scopes[i]),
{
    lemma_unknown_scope_class(client_id, scopes[i]);
    lemma_unrecognized_listed(client_id, scopes, i);
    reveal_strlit("openid");
    assert("openid"@ =~= seq!['o', 'p', 'e', 'n', 'i', 'd']);
}

/// `openid` must be asked for: without it a request is refused for that,
/// whatever the client's record holds, once it is fetched.
pub proof fn lemma_openid_required(client_id: Seq<char>, scopes: Seq<Seq<char>>, peers: Option<Seq<Seq<char>>>)
    requires
        peers is Some,
        !scopes.contains(seq!['o', 'p', 'e', 'n', 'i', 'd']),
    ensures
        scope_outcome(client_id, scopes, peers) == Err::<Seq<Seq<char>>, ScopeFailure>(ScopeFailure::MissingOpenId),
{
    reveal_strlit("openid");
    assert("openid"@ =~= seq!['o', 'p', 'e', 'n', 'i', 'd']);
}

/// Why a scope request is refused.
pub enum ScopeFailure {
    /// Fetching the client's record failed.
    Lookup,
    /// `openid` is missing.
    MissingOpenId,
    /// Some scopes are not recognised.
    Unrecognized(Seq<Seq<char>>),
    /// Some scopes may not be requested by this client.
    Invalid(Seq<Seq<char>>),
}

/// The outcome of checking the scopes `scopes` requested by `client_id`,
/// where `peers` is what fetching that client's record gave: its trusted
/// peers, or `None` where the fetch failed. On success, the audience of the
/// tokens to issue.
pub open spec fn scope_outcome(
    client_id: Seq<char>,
    scopes: Seq<Seq<char>>,
    peers: Option<Seq<Seq<char>>>,
) -> Result<Seq<Seq<char>>, ScopeFailure> {
    let trusted = peers is Some && peers->0.contains(client_id);
    if needs_peer_lookup(client_id, scopes) && peers is None {
        Err(ScopeFailure::Lookup)
    } else if !scopes.contains(scope_openid()) {
        Err(ScopeFailure::MissingOpenId)
    } else if unrecognized_scopes(client_id, scopes).len() > 0 {
        Err(ScopeFailure::Unrecognized(unrecognized_scopes(client_id, scopes)))
    } else if invalid_scopes(client_id, scopes, trusted).len() > 0 {
        Err(ScopeFailure::Invalid(invalid_scopes(client_id, scopes, trusted)))
    } else if peer_audience(client_id, scopes, trusted).len() == 0 {
        Ok(seq![client_id])
    } else {
        Ok(peer_audience(client_id, scopes, trusted))
    }
}

/// The trusted peers held by a fetched client record, or `None` where the
/// fetch failed.
pub open spec fn peers_of(lookup: Result<Client, WithBacktrace>) -> Option<Seq<Seq<char>>> {
    match lookup {
        Ok(c) => Some(views(c.trusted_peers@)),
        Err(_) => None,
    }
}

/// The error text for each refusal that is not a failed fetch.
pub open spec fn scope_failure_text(f: ScopeFailure) -> Seq<char> {
    match f {
        ScopeFailure::Lookup => Seq::empty(),
        ScopeFailure::MissingOpenId => "Missing required scope(s) [\"openid\"]."@,
        ScopeFailure::Unrecognized(l) => "Unrecognized scope(s) "@ + debug_text_of(l),
        ScopeFailure::Invalid(l) => "Client can't request scope(s) "@ + debug_text_of(l),
    }
}

/// The error that reports a scope refusal: a failed fetch hands its own
/// error on; the others are bad requests with their text.
pub open spec fn scope_error_matches(
    e: WithBacktrace,
    f: ScopeFailure,
    lookup: Result<Client, WithBacktrace>,
) -> bool {
    match f {
        ScopeFailure::Lookup => lookup is Err && e.spec_source() == lookup->Err_0.spec_source(),
        _ => e.spec_source() is BadRequest && e.spec_source()->BadRequest_0@ == scope_failure_text(
            f,
        ),
    }
}

/// Whether checking the scopes will consult the client's own record, so
/// that a caller need only fetch it then.
pub fn scopes_need_client(client_id: &str, scopes: &Vec<String>) -> (r: bool)
    ensures
        r == needs_peer_lookup(client_id@, views(scopes@)),
{
    let id = chars_of(client_id);
    for i in 0..scopes.len()
        invariant
            id@ == client_id@,
            forall|j: int| 0 <= j < i ==> !(scope_class(client_id@, #[trigger] views(scopes@)[j]) is Peer),
    {
        let s = chars_of(scopes[i].as_str());
        if classify_scope(&id, &s) == 4 {
            assert(scope_class(client_id@, views(scopes@)[i as int]) is Peer);
            return true;
        }
    }
    false
}

/// The class of a scope, numbered 0 (`OpenId`) to 4 (`Peer`) in the order
/// of [`ScopeClass`].
fn classify_scope(client_id: &Vec<char>, s: &Vec<char>) -> (r: u8)
    ensures
        r < 5,
        (r == 0) == (scope_class(client_id@, s@) is OpenId),
        (r == 1) == (scope_class(client_id@, s@) is Plain),
        (r == 2) == (scope_class(client_id@, s@) is Unrecognized),
        (r == 3) == (scope_class(client_id@, s@) is Invalid),
        (r == 4) == (scope_class(client_id@, s@) is Peer),
{
    let text = string_of(s);
    let t = text.as_str();
    if crate::text::str_eq(t, "openid") {
        return 0;
    }
    if crate::text::str_eq(t, "offline_access") || crate::text::str_eq(t, "email")
        || crate::text::str_eq(t, "profile") || crate::text::str_eq(t, "groups")
        || crate::text::str_eq(t, "federated:id") || crate::text::str_eq(
        t,
        "audience:server:client_id:",
    ) {
        return 1;
    }
    let prefix = chars_of("audience:server:client_id:");
    if !crate::text::starts_with_at(s, 0, &prefix) {
        assert(s@.skip(0) =~= s@);
        return 2;
    }
    assert(s@.skip(0) =~= s@);
    let peer = trim_start_matches(s, &prefix);
    if !seq_eq(&peer, client_id) {
        return 3;
    }
    4
}

/// Checks the scopes `scopes` that the client `client_id` requests, and
/// gives the audience of the tokens to issue. `lookup` is what fetching the
/// record of the client `client_id` gave; it is consulted only where a
/// cross-client scope names that client.
pub fn valid_scope(
    client_id: &str,
    scopes: &Vec<String>,
    lookup: &Result<Client, WithBacktrace>,
) -> (r: Result<Vec<String>, WithBacktrace>)
    ensures
        match scope_outcome(client_id@, views(scopes@), peers_of(*lookup)) {
            Ok(aud) => r is Ok && views(r->Ok_0@) == aud,
            Err(f) => r is Err && scope_error_matches(r->Err_0, f, *lookup),
        },
{
    let ghost cid = client_id@;
    let ghost sv = views(scopes@);
    let ghost peers = peers_of(*lookup);
    let ghost trusted = peers is Some && peers->0.contains(cid);
    let id = chars_of(client_id);
    let trusted_exec = match lookup {
        Ok(c) => contains_string(&c.trusted_peers, client_id),
        Err(_) => false,
    };
    assert(trusted_exec == trusted);
    let mut has_open_id = false;
    let mut unrecognized: Vec<String> = Vec::new();
    let mut invalid: Vec<String> = Vec::new();
    let mut audience: Vec<String> = Vec::new();
    for i in 0..scopes.len()
        invariant
            id@ == cid,
            cid == client_id@,
            sv == views(scopes@),
            peers == peers_of(*lookup),
            trusted_exec == trusted,
            trusted == (peers is Some && peers->0.contains(cid)),
            has_open_id == sv.take(i as int).contains(scope_openid()),
            views(unrecognized@) == unrecognized_scopes(cid, sv.take(i as int)),
            views(invalid@) == invalid_scopes(cid, sv.take(i as int), trusted),
            views(audience@) == peer_audience(cid, sv.take(i as int), trusted),
            !needs_peer_lookup(cid, sv.take(i as int)) || lookup is Ok,
    {
        let ghost pre = sv.take(i as int);
        let ghost next = sv.take(i + 1);
        assert(next.drop_last() =~= pre);
        assert(next.last() == sv[i as int]);
        let scope = &scopes[i];
        let s = chars_of(scope.as_str());
        assert(s@ == sv[i as int]);
        let class = classify_scope(&id, &s);
        let ghost before_u = unrecognized@;
        let ghost before_i = invalid@;
        let ghost before_a = audience@;
        if class == 0 {
            has_open_id = true;
        } else if class == 2 {
            unrecognized.push(scope.clone());
            assert(views(unrecognized@) =~= views(before_u).push(sv[i as int]));
        } else if class == 3 {
            invalid.push(scope.clone());
            assert(views(invalid@) =~= views(before_i).push(sv[i as int]));
        } else if class == 4 {
            match lookup {
                Err(e) => {
                    assert(needs_peer_lookup(cid, sv)) by {
                        assert(scope_class(cid, sv[i as int]) is Peer);
                    }
                    return Err(e.clone());
                },
                Ok(_) => {},
            }
            if trusted_exec {
                let prefix = chars_of("audience:server:client_id:");
                let peer = trim_start_matches(&s, &prefix);
                audience.push(string_of(&peer));
                assert(views(audience@) =~= views(before_a).push(
                    trim_prefix_all(sv[i as int], cross_client_prefix()),
                ));
            } else {
                invalid.push(scope.clone());
                assert(views(invalid@) =~= views(before_i).push(sv[i as int]));
            }
        }
        assert(has_open_id == next.contains(scope_openid())) by {
            if next.contains(scope_openid()) && !pre.contains(scope_openid()) {
                let k = choose|k: int| 0 <= k < next.len() && next[k] == scope_openid();
                if k < i {
                    assert(pre[k] == next[k]);
                }
            }
            if pre.contains(scope_openid()) {
                let k = choose|k: int| 0 <= k < pre.len() && pre[k] == scope_openid();
                assert(next[k] == pre[k]);
            }
            if class == 0 {
                assert(next[i as int] == scope_openid());
            }
        }
        assert(!needs_peer_lookup(cid, next) || lookup is Ok) by {
            if needs_peer_lookup(cid, next) && lookup is Err {
                let k = choose|k: int|
                    0 <= k < next.len() && scope_class(cid, #[trigger] next[k]) is Peer;
                if k < i {
                    assert(pre[k] == next[k]);
                }
            }
        }
    }
    assert(sv.take(scopes@.len() as int) =~= sv);
    if !has_open_id {
        return Err(bad_request("Missing required scope(s) [\"openid\"]."));
    }
    if unrecognized.len() > 0 {
        let list = debug_strings(&unrecognized);
        let msg = crate::text::concat2("Unrecognized scope(s) ", list.as_str());
        return Err(bad_request(msg.as_str()));
    }
    if invalid.len() > 0 {
        let list = debug_strings(&invalid);
        let msg = crate::text::concat2("Client can't request scope(s) ", list.as_str());
        return Err(bad_request(msg.as_str()));
    }
    if audience.len() == 0 {
        audience.push(String::from_str(client_id));
        assert(views(audience@) =~= seq![cid]);
    }
    Ok(audience)
}

/// Every audience a successful scope check gives is the client itself, and
/// there is at least one.
pub proof fn lemma_audience_is_client(
    client_id: Seq<char>,
    scopes: Seq<Seq<char>>,
    peers: Option<Seq<Seq<char>>>,
)
    ensures
        scope_outcome(client_id, scopes, peers) matches Ok(aud) ==> aud.len() > 0 && forall|
            k: int,
        | 0 <= k < aud.len() ==> #[trigger] aud[k] == client_id,
{
    let trusted = peers is Some && peers->0.contains(client_id);
    lemma_peer_audience_is_client(client_id, scopes, trusted);
}

proof fn lemma_peer_audience_is_client(client_id: Seq<char>, scopes: Seq<Seq<char>>, trusted: bool)
    ensures
        forall|k: int|
            0 <= k < peer_audience(client_id, scopes, trusted).len() ==> #[trigger] peer_audience(
                client_id,
                scopes,
                trusted,
            )[k] == client_id,
    decreases scopes.len(),
{
    if scopes.len() > 0 {
        lemma_peer_audience_is_client(client_id, scopes.drop_last(), trusted);
        let pa = peer_audience(client_id, scopes, trusted);
        let rest = peer_audience(client_id, scopes.drop_last(), trusted);
        assert forall|k: int| 0 <= k < pa.len() implies #[trigger] pa[k] == client_id by {
            if k < rest.len() {
                assert(pa[k] == rest[k]);
            }
        }
    }
}

/// A successful scope check always includes `openid`.
pub proof fn lemma_ok_requires_openid(
    client_id: Seq<char>,
    scopes: Seq<Seq<char>>,
    peers: Option<Seq<Seq<char>>>,
)
    ensures
        scope_outcome(client_id, scopes, peers) is Ok ==> scopes.contains(scope_openid()),
{
}

} // verus!
