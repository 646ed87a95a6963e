//! The refresh-token grant: when a refresh token is still good, whether it
//! is rotated, and what the offline session records of its use.

use vstd::prelude::*;

use crate::crypto::new_uuid;
use crate::errors::{bad_request, not_found, WithBacktrace};
use crate::json::{debug_strings, debug_text_of};
use crate::model::{OfflineSession, RefreshToken};
use crate::oidc::token::{find_session_token, session_well_formed, ClaimRefreshToken};
use crate::text::{contains_string, str_eq, views};

verus! {

/// The longest lifetime, in seconds, a refresh grant accepts.
pub open spec fn max_lifetime_secs() -> int {
    8_000_000_000_000
}

/// The parameters of a refresh token grant.
#[derive(Debug)]
pub struct RefreshGrantOpts {
    pub client_id: String,
    pub client_secret: String,
    /// The refresh token as the client holds it: JSON text of a
    /// `ClaimRefreshToken`.
    pub refresh_token: String,
    pub scope: String,
}

/// How refresh tokens age and rotate. Lifetimes are in seconds; zero
/// switches the check off.
#[derive(Debug)]
pub struct RefreshGrant {
    /// How long a refresh token lives at most.
    pub absolute_lifetime: i64,
    /// How long a refresh token stays good without being used.
    pub valid_if_not_used_for: i64,
    /// How long after its last use a token may be presented again.
    pub reuse_interval: i64,
    /// Whether each use replaces the token's secret value.
    pub rotate_refresh_tokens: bool,
}

/// Whether the instant `now` is later than `start` plus `secs` seconds, with
/// instants in nanoseconds; never where `secs` is zero.
pub open spec fn past(now: int, start: int, secs: int) -> bool {
    secs != 0 && now > start + secs * 1_000_000_000
}

/// Whether `now` is earlier than `start` plus `secs` seconds; never where
/// `secs` is zero.
pub open spec fn within(now: int, start: int, secs: int) -> bool {
    secs != 0 && now < start + secs * 1_000_000_000
}

pub open spec fn grant_ok(g: RefreshGrant) -> bool {
    &&& -max_lifetime_secs() <= g.absolute_lifetime <= max_lifetime_secs()
    &&& -max_lifetime_secs() <= g.valid_if_not_used_for <= max_lifetime_secs()
    &&& -max_lifetime_secs() <= g.reuse_interval <= max_lifetime_secs()
}

/// Whether, at `now`, a use of the refresh token turns the presented value
/// `pb` and the stored token `sb` into `pa` and `sa` with the outcome `r`
/// (the instant recorded as the last use): the presented value must be the
/// stored one, or, where tokens rotate and the token may still be reused,
/// the obsolete one; rotation moves the stored value to the obsolete one
/// and gives a fresh 36-character value where the token may not be reused
/// yet.
pub open spec fn is_rotation(
    g: RefreshGrant,
    now: int,
    pb: ClaimRefreshToken,
    sb: RefreshToken,
    pa: ClaimRefreshToken,
    sa: RefreshToken,
    r: Result<i64, WithBacktrace>,
) -> bool {
    let reuse = within(
        now,
        sb.last_used_at as int,
        g.reuse_interval as int,
    );
    let rotate = g.rotate_refresh_tokens;
    let ps = pb.token@;
    match r {
        Err(e) => rotate && (if reuse {
            sb.token@ != ps && sb.obsolete_token@ != ps
        } else {
            sb.token@ != ps
        }) && e.spec_source() is BadRequest && e.spec_source()->BadRequest_0@
            == "refresh token has already been used"@,
        Ok(last_used) => {
            &&& pa.refresh_id == pb.refresh_id
            &&& (if rotate && reuse {
                &&& (sb.token@ == ps || sb.obsolete_token@ == ps)
                &&& pa.token@ == (if sb.obsolete_token@ == ps {
                    sb.token@
                } else {
                    ps
                })
                &&& last_used == sb.last_used_at
                &&& sa.obsolete_token == sb.obsolete_token
            } else if rotate {
                &&& sb.token@ == ps
                &&& pa.token@.len() == 36
                &&& sa.obsolete_token == sb.token
                &&& last_used == now
            } else {
                &&& pa.token == pb.token
                &&& last_used == now
                &&& sa.obsolete_token == sb.obsolete_token
            })
            &&& sa.token@ == pa.token@
            &&& sa.last_used_at == last_used
            &&& sa.connector_data is None
            &&& sa.id == sb.id
            &&& sa.client_id == sb.client_id
            &&& sa.scopes == sb.scopes
            &&& sa.nonce == sb.nonce
            &&& sa.claim == sb.claim
            &&& sa.connector_id == sb.connector_id
            &&& sa.created_at == sb.created_at
        },
    }
}

/// Why the presented refresh token is refused, if it is: it must belong to
/// the client, match the stored value, and not have outlived its lifetime
/// nor gone unused too long.
pub open spec fn token_refusal(
    g: RefreshGrant,
    client_id: Seq<char>,
    stored: RefreshToken,
    presented: Seq<char>,
    now: int,
) -> Option<Seq<char>> {
    if stored.client_id@ != client_id {
        Some("refresh token does not belong to this client"@)
    } else if stored.token@ != presented {
        Some("invalid refresh token"@)
    } else if past(now, stored.created_at as int, g.absolute_lifetime as int) {
        Some("refresh token expired"@)
    } else if past(now, stored.last_used_at as int, g.valid_if_not_used_for as int) {
        Some("refresh token expired because it was not used in time"@)
    } else {
        None
    }
}

fn later_than(now: i64, start: i64, secs: i64) -> (r: bool)
    requires
        -max_lifetime_secs() <= secs <= max_lifetime_secs(),
    ensures
        r == (now > start + secs * 1_000_000_000),
{
    let end: i128 = start as i128 + secs as i128 * 1_000_000_000i128;
    (now as i128) > end
}

fn earlier_than(now: i64, start: i64, secs: i64) -> (r: bool)
    requires
        -max_lifetime_secs() <= secs <= max_lifetime_secs(),
    ensures
        r == (now < start + secs * 1_000_000_000),
{
    let end: i128 = start as i128 + secs as i128 * 1_000_000_000i128;
    (now as i128) < end
}

impl RefreshGrant {
    /// Whether a token made at `created_at` has outlived the absolute
    /// lifetime at `now` (instants in nanoseconds since the Unix epoch).
    pub fn completely_expired(&self, now: i64, created_at: i64) -> (r: bool)
        requires
            grant_ok(*self),
        ensures
            r == past(now as int, created_at as int, self.absolute_lifetime as int),
    {
        if self.absolute_lifetime == 0 {
            return false;
        }
        later_than(now, created_at, self.absolute_lifetime)
    }

    /// Whether a token last used at `last_used` has gone unused too long.
    pub fn expired_because_unused(&self, now: i64, last_used: i64) -> (r: bool)
        requires
            grant_ok(*self),
        ensures
            r == past(now as int, last_used as int, self.valid_if_not_used_for as int),
    {
        if self.valid_if_not_used_for == 0 {
            return false;
        }
        later_than(now, last_used, self.valid_if_not_used_for)
    }

    /// Whether a token last used at `last_used` may still be presented again.
    pub fn allow_reused(&self, now: i64, last_used: i64) -> (r: bool)
        requires
            grant_ok(*self),
        ensures
            r == within(now as int, last_used as int, self.reuse_interval as int),
    {
        if self.reuse_interval == 0 {
            return false;
        }
        earlier_than(now, last_used, self.reuse_interval)
    }

    /// The checks of a presented refresh token against the stored one, in
    /// order: it belongs to the client, its value matches, it has not
    /// outlived its lifetime, and it has not gone unused too long.
    pub fn check_token(
        &self,
        client_id: &str,
        stored: &RefreshToken,
        presented: &ClaimRefreshToken,
        now: i64,
    ) -> (r: Result<(), WithBacktrace>)
        requires
            grant_ok(*self),
        ensures
            match token_refusal(*self, client_id@, *stored, presented.token@, now as int) {
                None => r is Ok,
                Some(m) => r is Err && r->Err_0.spec_source() is BadRequest
                    && r->Err_0.spec_source()->BadRequest_0@ == m,
            },
    {
        if !str_eq(stored.client_id.as_str(), client_id) {
            return Err(bad_request("refresh token does not belong to this client"));
        }
        if !str_eq(stored.token.as_str(), presented.token.as_str()) {
            return Err(bad_request("invalid refresh token"));
        }
        if self.completely_expired(now, stored.created_at) {
            return Err(bad_request("refresh token expired"));
        }
        if self.expired_because_unused(now, stored.last_used_at) {
            return Err(bad_request("refresh token expired because it was not used in time"));
        }
        Ok(())
    }

    /// Applies a use of the refresh token at `now`: checks the presented
    /// value, rotates the stored one where the grant says so, and records
    /// the use. Gives the instant recorded as the last use.
    ///
    /// Where tokens rotate and the token may not be reused yet, the stored
    /// value becomes the obsolete one and the new value is a fresh UUID.
    pub fn rotate(
        &self,
        presented: &mut ClaimRefreshToken,
        stored: &mut RefreshToken,
        now: i64,
    ) -> (r: Result<i64, WithBacktrace>)
        requires
            grant_ok(*self),
        ensures
            is_rotation(*self, now as int, *old(presented), *old(stored), *final(presented), *final(stored), r),
    {
        let mut last_used = now;
        let reused_allow = self.allow_reused(now, stored.last_used_at);
        if !self.rotate_refresh_tokens && reused_allow {
            stored.connector_data = None;
        } else if self.rotate_refresh_tokens && reused_allow {
            if !str_eq(stored.token.as_str(), presented.token.as_str()) && !str_eq(
                stored.obsolete_token.as_str(),
                presented.token.as_str(),
            ) {
                return Err(bad_request("refresh token has already been used"));
            }
            if str_eq(stored.obsolete_token.as_str(), presented.token.as_str()) {
                presented.token = stored.token.clone();
            }
            last_used = stored.last_used_at;
            stored.connector_data = None;
        } else if self.rotate_refresh_tokens && !reused_allow {
            if !str_eq(stored.token.as_str(), presented.token.as_str()) {
                return Err(bad_request("refresh token has already been used"));
            }
            stored.obsolete_token = stored.token.clone();
            presented.token = new_uuid();
        }
        stored.token = presented.token.clone();
        stored.last_used_at = last_used;
        stored.connector_data = None;
        Ok(last_used)
    }
}

/// The requested scopes that the refresh token was not granted, in order.
pub open spec fn unauthorized_scopes(requested: Seq<Seq<char>>, granted: Seq<Seq<char>>) -> Seq<
    Seq<char>,
>
    decreases requested.len(),
{
    if requested.len() == 0 {
        Seq::empty()
    } else {
        let rest = unauthorized_scopes(requested.drop_last(), granted);
        if granted.contains(requested.last()) {
            rest
        } else {
            rest.push(requested.last())
        }
    }
}

/// Compares the requested scopes with those the refresh token was granted.
/// The grant goes on only where some requested scope was not granted, and
/// is refused, with the list of such scopes (empty), where all were.
pub fn check_requested_scopes(requested: &Vec<String>, granted: &Vec<String>) -> (r: Result<
    (),
    WithBacktrace,
>)
    ensures
        r is Ok <==> unauthorized_scopes(views(requested@), views(granted@)).len() > 0,
        r matches Err(e) ==> e.spec_source() is BadRequest && e.spec_source()->BadRequest_0@
            == "Requested scopes contain unauthorized scope(s): "@ + debug_text_of(
            unauthorized_scopes(views(requested@), views(granted@)),
        ),
{
    let ghost req = views(requested@);
    let ghost gr = views(granted@);
    let mut unauthorized: Vec<String> = Vec::new();
    for i in 0..requested.len()
        invariant
            req == views(requested@),
            gr == views(granted@),
            views(unauthorized@) == unauthorized_scopes(req.take(i as int), gr),
    {
        assert(req.take(i + 1).drop_last() =~= req.take(i as int));
        let ghost before = unauthorized@;
        if !contains_string(granted, requested[i].as_str()) {
            unauthorized.push(requested[i].clone());
            assert(views(unauthorized@) =~= views(before).push(req[i as int]));
        }
    }
    assert(req.take(requested@.len() as int) =~= req);
    if unauthorized.len() == 0 {
        let list = debug_strings(&unauthorized);
        let msg = crate::text::concat2(
            "Requested scopes contain unauthorized scope(s): ",
            list.as_str(),
        );
        return Err(bad_request(msg.as_str()));
    }
    Ok(())
}

/// A refresh request that asks only for scopes the token was granted is
/// always refused.
pub proof fn lemma_granted_scopes_refused(requested: Seq<Seq<char>>, granted: Seq<Seq<char>>)
    requires
        forall|i: int| 0 <= i < requested.len() ==> granted.contains(#[trigger] requested[i]),
    ensures
        unauthorized_scopes(requested, granted).len() == 0,
    decreases requested.len(),
{
    if requested.len() > 0 {
        let rest = requested.drop_last();
        assert forall|i: int| 0 <= i < rest.len() implies granted.contains(#[trigger] rest[i]) by {
            assert(rest[i] == requested[i]);
        }
        lemma_granted_scopes_refused(rest, granted);
        assert(granted.contains(requested[requested.len() - 1]));
    }
}

/// The connector data a refresh goes on with: the token's own, or else the
/// offline session's.
pub fn refresh_connector_data(token: &Option<String>, session: &Option<String>) -> (r: Option<
    String,
>)
    ensures
        r == (if token is Some {
            *token
        } else {
            *session
        }),
{
    match token {
        Some(v) => Some(v.clone()),
        None => crate::model::clone_opt_string(session),
    }
}

/// The offline session a refresh goes on with: the first one found.
pub fn first_session(mut sessions: Vec<OfflineSession>) -> (r: Result<
    OfflineSession,
    WithBacktrace,
>)
    ensures
        match r {
            Ok(s) => sessions@.len() > 0 && s == sessions@[0],
            Err(e) => sessions@.len() == 0 && e.spec_source() is NotFound
                && e.spec_source()->NotFound_0@ == "Offline session not found"@,
        },
{
    if sessions.len() == 0 {
        return Err(not_found("Offline session not found"));
    }
    Ok(sessions.remove(0))
}

/// Whether `token` holds the session's refresh token for its client.
pub open spec fn holds_client(s: OfflineSession, token: RefreshToken) -> bool {
    exists|i: int|
        0 <= i < s.refresh@.len() && (#[trigger] s.refresh@[i]).client_id@ == token.client_id@
}

/// Whether recording the use of the refresh token `token` at `last_used`
/// turns the offline session `before` into `after` with the outcome `r`:
/// where the session holds a token for the client, it must be this one, its
/// last use becomes `last_used` and the session takes the connector data
/// `connector_data` where there is any; a session that holds no token for
/// the client is left as it was.
pub open spec fn is_session_use(
    before: OfflineSession,
    after: OfflineSession,
    token: RefreshToken,
    last_used: i64,
    connector_data: Option<String>,
    r: Result<(), WithBacktrace>,
) -> bool {
    &&& session_well_formed(after)
    &&& after.id == before.id
    &&& after.user_id == before.user_id
    &&& after.conn_id == before.conn_id
    &&& after.refresh@.len() == before.refresh@.len()
    &&& match r {
        Ok(()) => {
            &&& forall|i: int|
                0 <= i < before.refresh@.len() ==> {
                    let o = #[trigger] before.refresh@[i];
                    let n = after.refresh@[i];
                    if o.client_id@ == token.client_id@ {
                        &&& o.id@ == token.id@
                        &&& n.id == o.id && n.client_id == o.client_id && n.created_at
                            == o.created_at
                        &&& n.last_used_at == last_used
                    } else {
                        n == o
                    }
                }
            &&& holds_client(before, token) ==> after.connector_data == (if connector_data is Some {
                connector_data
            } else {
                before.connector_data
            })
        },
        Err(e) => exists|i: int|
            0 <= i < before.refresh@.len() && (#[trigger] before.refresh@[i]).client_id@
                == token.client_id@ && before.refresh@[i].id@ != token.id@
                && e.spec_source() is BadRequest && e.spec_source()->BadRequest_0@
                == "refresh token invalid"@,
    }
    &&& !holds_client(before, token) ==> after == before
}

/// Records the use of the refresh token `token` at `last_used` in the
/// offline session: where the session holds a token for the client, it
/// must be this one; its last use is updated, and the session takes the
/// connector data the connector refreshed, where there is any.
pub fn record_session_use(
    session: &mut OfflineSession,
    token: &RefreshToken,
    last_used: i64,
    connector_data: &Option<String>,
) -> (r: Result<(), WithBacktrace>)
    requires
        session_well_formed(*old(session)),
    ensures
        is_session_use(*old(session), *final(session), *token, last_used, *connector_data, r),
{
    match find_session_token(session, token.client_id.as_str()) {
        None => Ok(()),
        Some(i) => {
            if !str_eq(session.refresh[i].id.as_str(), token.id.as_str()) {
                return Err(bad_request("refresh token invalid"));
            }
            let mut entry = session.refresh[i].clone();
            entry.last_used_at = last_used;
            let ghost before = session.refresh@;
            session.refresh.set(i, entry);
            match connector_data {
                Some(d) => {
                    session.connector_data = Some(d.clone());
                },
                None => {},
            }
            assert forall|k: int|
                0 <= k < before.len() implies {
                let o = #[trigger] before[k];
                let n = session.refresh@[k];
                if o.client_id@ == token.client_id@ {
                    &&& o.id@ == token.id@
                    &&& n.id == o.id && n.client_id == o.client_id && n.created_at == o.created_at
                    &&& n.last_used_at == last_used
                } else {
                    n == o
                }
            } by {
                if k != i {
                    assert(before[k].client_id@ != before[i as int].client_id@);
                }
            }
            assert(session_well_formed(*session)) by {
                assert forall|a: int, b: int|
                    0 <= a < session.refresh@.len() && 0 <= b < session.refresh@.len() && a
                        != b implies (#[trigger] session.refresh@[a]).client_id@ != (
                #[trigger] session.refresh@[b]).client_id@ by {
                    assert(session.refresh@[a].client_id == before[a].client_id);
                    assert(session.refresh@[b].client_id == before[b].client_id);
                }
            }
            Ok(())
        },
    }
}

} // verus!
