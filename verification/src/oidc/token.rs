//! Tokens: the claims an ID token carries, the grant types of the token
//! endpoint, refresh tokens and the offline sessions that hold them.

use vstd::prelude::*;

use crate::crypto::{
    base64_standard, base64_standard_of, max_timestamp, now_timestamp, sha256_of, sha256_text,
};
use crate::errors::{bad_request, not_found, WithBacktrace};
use crate::oidc::key::Keys;
use crate::json::{json_quote, json_quote_of};
use crate::model::{Claim, OfflineSession, RefreshToken, RefreshTokenRef};
use crate::text::{contains_string, str_eq, views};

verus! {

/// The claims of an ID or access token.
#[derive(Debug)]
pub struct Claims {
    /// The audience.
    pub aud: String,
    /// When the token expires, in seconds since the Unix epoch.
    pub exp: i64,
    /// When the token becomes valid, in seconds since the Unix epoch.
    pub nbf: i64,
    /// The issuer.
    pub iss: String,
    pub nonce: String,
    /// The access token issued beside an ID token; in a signed ID token,
    /// its hash.
    pub access_token: Option<String>,
    pub claim: Claim,
}

impl Clone for Claims {
    fn clone(&self) -> (r: Self)
        ensures
            r == *self,
    {
        Claims {
            aud: self.aud.clone(),
            exp: self.exp,
            nbf: self.nbf,
            iss: self.iss.clone(),
            nonce: self.nonce.clone(),
            access_token: crate::model::clone_opt_string(&self.access_token),
            claim: self.claim.clone(),
        }
    }
}

/// What a client holds as its refresh token: the stored token's id and
/// its current secret value.
#[derive(Debug)]
pub struct ClaimRefreshToken {
    pub refresh_id: String,
    pub token: String,
}

impl ClaimRefreshToken {
    /// The JSON text of this value, as the client receives it.
    pub fn to_json(&self) -> (r: String)
        ensures
            r@ == "{\"refresh_id\":"@ + json_quote_of(self.refresh_id@) + ",\"token\":"@
                + json_quote_of(self.token@) + "}"@,
    {
        let mut s = String::from_str("{\"refresh_id\":");
        let a = json_quote(self.refresh_id.as_str());
        s.append(a.as_str());
        s.append(",\"token\":");
        let b = json_quote(self.token.as_str());
        s.append(b.as_str());
        s.append("}");
        s
    }
}

/// The answer of the token endpoint.
#[derive(Debug)]
pub struct TokenResponse {
    pub access_token: String,
    pub token_type: String,
    pub expires_in: Option<i64>,
    pub refresh_token: Option<String>,
    pub id_token: Option<String>,
    pub scopes: Option<Vec<String>>,
}

/// The grants the token endpoint supports.
#[derive(Debug)]
pub enum GrantType {
    AuthorizationCode,
    RefreshToken,
    Password,
}

/// The grant a `grant_type` parameter names.
pub open spec fn grant_type_of(t: Seq<char>) -> Option<GrantType> {
    if t == "authorization_code"@ {
        Some(GrantType::AuthorizationCode)
    } else if t == "refresh_token"@ {
        Some(GrantType::RefreshToken)
    } else if t == "password"@ {
        Some(GrantType::Password)
    } else {
        None
    }
}

/// Reads the `grant_type` parameter of a token request.
pub fn grant_type(t: &str) -> (r: Result<GrantType, WithBacktrace>)
    ensures
        match grant_type_of(t@) {
            Some(g) => r is Ok && r->Ok_0 == g,
            None => r is Err && r->Err_0.spec_source() is BadRequest
                && r->Err_0.spec_source()->BadRequest_0@ == "unknown grant type: "@ + t@,
        },
{
    if str_eq(t, "authorization_code") {
        Ok(GrantType::AuthorizationCode)
    } else if str_eq(t, "refresh_token") {
        Ok(GrantType::RefreshToken)
    } else if str_eq(t, "password") {
        Ok(GrantType::Password)
    } else {
        let msg = crate::text::concat2("unknown grant type: ", t);
        Err(bad_request(msg.as_str()))
    }
}

/// The JSON array of the strings `l`, as `serde_json::to_string` writes a
/// list of strings: quoted strings between brackets, separated by commas.
pub open spec fn json_array(l: Seq<Seq<char>>) -> Seq<char> {
    "["@ + json_items(l) + "]"@
}

pub open spec fn json_items(l: Seq<Seq<char>>) -> Seq<char>
    decreases l.len(),
{
    if l.len() == 0 {
        Seq::empty()
    } else if l.len() == 1 {
        json_quote_of(l[0])
    } else {
        json_items(l.drop_last()) + ","@ + json_quote_of(l.last())
    }
}

/// The `aud` claim for the audience `l`: empty for none, the audience
/// itself for one, and a JSON array for more.
pub open spec fn audience_claim(l: Seq<Seq<char>>) -> Seq<char> {
    if l.len() == 0 {
        Seq::empty()
    } else if l.len() == 1 {
        l[0]
    } else {
        json_array(l)
    }
}

/// Writes the `aud` claim for the audience `audience`.
pub fn audience_text(audience: &Vec<String>) -> (r: String)
    ensures
        r@ == audience_claim(views(audience@)),
{
    if audience.len() == 0 {
        return String::new();
    }
    if audience.len() == 1 {
        return audience[0].clone();
    }
    let ghost l = views(audience@);
    let mut items = json_quote(audience[0].as_str());
    assert(l.take(1).drop_last() =~= Seq::<Seq<char>>::empty());
    for i in 1..audience.len()
        invariant
            l == views(audience@),
            audience@.len() > 1,
            items@ == json_items(l.take(i as int)),
    {
        items.append(",");
        let q = json_quote(audience[i].as_str());
        items.append(q.as_str());
        assert(l.take(i + 1).drop_last() =~= l.take(i as int));
    }
    assert(l.take(audience@.len() as int) =~= l);
    let mut s = String::from_str("[");
    s.append(items.as_str());
    s.append("]");
    s
}

/// The signing algorithms keys can name.
#[derive(Debug)]
pub enum SigningAlgorithm {
    HS256,
    ES256,
    RS256,
}

/// The algorithm a key names, or HS256 where it names none.
pub fn algorithm_or_default(a: &Option<SigningAlgorithm>) -> (r: SigningAlgorithm)
    ensures
        r == match a {
            Some(x) => *x,
            None => SigningAlgorithm::HS256,
        },
{
    match a {
        Some(SigningAlgorithm::HS256) => SigningAlgorithm::HS256,
        Some(SigningAlgorithm::ES256) => SigningAlgorithm::ES256,
        Some(SigningAlgorithm::RS256) => SigningAlgorithm::RS256,
        None => SigningAlgorithm::HS256,
    }
}

/// Whether a verification key with the id `key_id` may have signed a token
/// whose header names the key `kid`: where the header names a key, it must
/// be this one.
pub fn key_may_verify(kid: &Option<String>, key_id: &Option<String>) -> (r: bool)
    ensures
        r == (kid is None || (key_id is Some && key_id->0@ == kid->0@)),
{
    match kid {
        None => true,
        Some(k) => match key_id {
            Some(id) => str_eq(id.as_str(), k.as_str()),
            None => false,
        },
    }
}

/// Whether `r` are the claims `claims` as signed into a token issued at
/// `now` that lives `expire_sec` seconds: valid from `now` until
/// `now + expire_sec`, and with the access token, where there is one,
/// replaced by the standard base64 of its SHA-256 digest.
pub open spec fn is_token_claims(r: Claims, claims: Claims, now: int, expire_sec: int) -> bool {
    &&& r.exp == now + expire_sec
    &&& r.nbf == now
    &&& r.aud == claims.aud
    &&& r.iss == claims.iss
    &&& r.nonce == claims.nonce
    &&& r.claim == claims.claim
    &&& match claims.access_token {
        Some(a) => r.access_token is Some && r.access_token->0@ == base64_standard_of(
            sha256_of(a@),
        ),
        None => r.access_token is None,
    }
}

/// Issues and checks signed tokens with the keys of a key store.
#[derive(Debug)]
pub struct AccessToken<T> {
    key_store: T,
    expire_sec: i64,
    aud: std::collections::HashSet<String>,
}

impl<T> AccessToken<T> {
    /// A token issuer whose tokens live `expire_sec` seconds and are checked
    /// against the audiences `aud` (none where empty).
    pub fn new(key_store: T, expire_sec: i64, aud: std::collections::HashSet<String>) -> (r: Self)
        ensures
            r.spec_expire_sec() == expire_sec,
            r.spec_key_store() == key_store,
            r.spec_aud() == aud,
    {
        AccessToken { key_store, expire_sec, aud }
    }

    pub closed spec fn spec_expire_sec(&self) -> i64 {
        self.expire_sec
    }

    pub closed spec fn spec_key_store(&self) -> T {
        self.key_store
    }

    pub closed spec fn spec_aud(&self) -> std::collections::HashSet<String> {
        self.aud
    }

    /// The key store tokens are signed with.
    pub fn key_store(&self) -> (r: &T)
        ensures
            *r == self.spec_key_store(),
    {
        &self.key_store
    }

    /// The audiences tokens are checked against.
    pub fn audiences(&self) -> (r: &std::collections::HashSet<String>)
        ensures
            *r == self.spec_aud(),
    {
        &self.aud
    }

    /// The claims to sign into a token issued at `now` (seconds since the
    /// Unix epoch): valid from `now` for the issuer's lifetime, and with the
    /// access token, where there is one, replaced by the standard base64 of
    /// its SHA-256 digest.
    pub fn token_claims(&self, claims: &Claims, now: i64) -> (r: Claims)
        requires
            i64::MIN <= now + self.spec_expire_sec() <= i64::MAX,
        ensures
            is_token_claims(r, *claims, now as int, self.spec_expire_sec() as int),
    {
        let mut c = claims.clone();
        c.exp = now + self.expire_sec;
        c.nbf = now;
        match &claims.access_token {
            Some(a) => {
                let digest = sha256_text(a.as_str());
                c.access_token = Some(base64_standard(&digest));
            },
            None => {},
        }
        c
    }

    /// The claims to sign into a token issued now, by the clock of the
    /// machine; `None` where the token's expiry does not fit in an `i64`,
    /// which can only be for a lifetime within the clock's range of the
    /// bounds of `i64`.
    pub fn signing_claims(&self, claims: &Claims) -> (r: Option<Claims>)
        ensures
            r matches Some(c) ==> exists|now: i64|
                #[trigger] is_token_claims(c, *claims, now as int, self.spec_expire_sec() as int),
            i64::MIN + max_timestamp() <= self.spec_expire_sec() <= i64::MAX - max_timestamp()
                ==> r is Some,
    {
        let now = now_timestamp();
        match now.checked_add(self.expire_sec) {
            Some(_) => {
                let c = self.token_claims(claims, now);
                assert(is_token_claims(c, *claims, now as int, self.spec_expire_sec() as int));
                Some(c)
            },
            None => None,
        }
    }
}

/// The signing keys to issue a token with: the first set the key store
/// holds.
pub fn first_keys<K>(mut keys: Vec<Keys<K>>) -> (r: Result<Keys<K>, WithBacktrace>)
    ensures
        keys@.len() == 0 ==> r is Err && r->Err_0.spec_source() is NotFound
            && r->Err_0.spec_source()->NotFound_0@ == "key not found"@,
        keys@.len() > 0 ==> r == Ok::<Keys<K>, WithBacktrace>(keys@[0]),
{
    if keys.len() == 0 {
        return Err(not_found("key not found"));
    }
    Ok(keys.remove(0))
}

/// Whether the requested scopes ask for a refresh token.
pub fn wants_refresh_token(scopes: &Vec<String>) -> (r: bool)
    ensures
        r == views(scopes@).contains("offline_access"@),
{
    contains_string(scopes, "offline_access")
}

/// A new refresh token for a login, made at `now` (nanoseconds since the
/// Unix epoch) with the id `id` and the secret value `token`.
pub fn new_refresh_token(
    id: String,
    client_id: &str,
    scopes: &Vec<String>,
    nonce: &str,
    token: String,
    claim: &Claim,
    connector_id: &str,
    connector_data: &Option<String>,
    now: i64,
) -> (r: RefreshToken)
    ensures
        r.id == id,
        r.client_id@ == client_id@,
        r.scopes@ == scopes@,
        r.nonce@ == nonce@,
        r.token == token,
        r.obsolete_token@.len() == 0,
        r.claim == *claim,
        r.connector_id@ == connector_id@,
        r.connector_data == *connector_data,
        r.created_at == 0,
        r.last_used_at == now,
{
    RefreshToken {
        id,
        client_id: String::from_str(client_id),
        scopes: clone_strings(scopes),
        nonce: String::from_str(nonce),
        token,
        obsolete_token: String::new(),
        claim: claim.clone(),
        connector_id: String::from_str(connector_id),
        connector_data: crate::model::clone_opt_string(connector_data),
        created_at: 0,
        last_used_at: now,
    }
}

/// A copy of a list of strings.
pub fn clone_strings(v: &Vec<String>) -> (r: Vec<String>)
    ensures
        r@ == v@,
{
    let mut r: Vec<String> = Vec::new();
    for i in 0..v.len()
        invariant
            r@ == v@.take(i as int),
    {
        r.push(v[i].clone());
        assert(r@ =~= v@.take(i + 1));
    }
    assert(v@.take(v@.len() as int) =~= v@);
    r
}

/// The value to hand the client for a refresh token.
pub fn refresh_token_value(t: &RefreshToken) -> (r: String)
    ensures
        r@ == "{\"refresh_id\":"@ + json_quote_of(t.id@) + ",\"token\":"@ + json_quote_of(t.token@)
            + "}"@,
{
    let c = ClaimRefreshToken { refresh_id: t.id.clone(), token: t.token.clone() };
    c.to_json()
}

/// A session holds at most one refresh token per client.
pub open spec fn session_well_formed(s: OfflineSession) -> bool {
    forall|i: int, j: int|
        0 <= i < s.refresh@.len() && 0 <= j < s.refresh@.len() && i != j ==> (
        #[trigger] s.refresh@[i]).client_id@ != (#[trigger] s.refresh@[j]).client_id@
}

/// The index of the refresh token a session holds for `client_id`.
pub fn find_session_token(s: &OfflineSession, client_id: &str) -> (r: Option<usize>)
    ensures
        match r {
            Some(i) => i < s.refresh@.len() && s.refresh@[i as int].client_id@ == client_id@,
            None => forall|i: int|
                0 <= i < s.refresh@.len() ==> (#[trigger] s.refresh@[i]).client_id@ != client_id@,
        },
{
    for i in 0..s.refresh.len()
        invariant
            forall|k: int| 0 <= k < i ==> (#[trigger] s.refresh@[k]).client_id@ != client_id@,
    {
        if str_eq(s.refresh[i].client_id.as_str(), client_id) {
            return Some(i);
        }
    }
    None
}

/// What registering a new refresh token in the user's offline session
/// comes to.
#[derive(Debug)]
pub enum OfflineStep {
    /// The session already holds a refresh token for the client: this is
    /// its id, to be deleted; the session is left as it was.
    Superseded(String),
    /// The session to save.
    Save(OfflineSession),
}

/// Registers the refresh token `token_ref` in the offline session of its
/// user and connector. `existing` is the session found, if any; a new one
/// gets the id `new_id` and the user, connector and connector data given.
pub fn register_refresh_token(
    existing: Option<OfflineSession>,
    new_id: String,
    token_ref: RefreshTokenRef,
    user_id: &str,
    conn_id: &str,
    connector_data: &Option<String>,
) -> (r: OfflineStep)
    requires
        existing matches Some(s) ==> session_well_formed(s),
    ensures
        match existing {
            None => r matches OfflineStep::Save(s) && s.id == new_id && s.user_id@ == user_id@
                && s.conn_id@ == conn_id@ && s.connector_data == *connector_data && s.refresh@
                == seq![token_ref],
            Some(old) => match r {
                OfflineStep::Superseded(id) => exists|i: int|
                    0 <= i < old.refresh@.len() && (#[trigger] old.refresh@[i]).client_id@
                        == token_ref.client_id@ && old.refresh@[i].id == id,
                OfflineStep::Save(s) => (forall|i: int|
                    0 <= i < old.refresh@.len() ==> (#[trigger] old.refresh@[i]).client_id@
                        != token_ref.client_id@) && s.id == old.id && s.user_id == old.user_id
                    && s.conn_id == old.conn_id && s.connector_data == *connector_data
                    && s.refresh@ == old.refresh@.push(token_ref),
            },
        },
        r matches OfflineStep::Save(s) ==> session_well_formed(s),
{
    match existing {
        None => {
            let mut refresh: Vec<RefreshTokenRef> = Vec::new();
            refresh.push(token_ref);
            OfflineStep::Save(
                OfflineSession {
                    id: new_id,
                    user_id: String::from_str(user_id),
                    conn_id: String::from_str(conn_id),
                    connector_data: crate::model::clone_opt_string(connector_data),
                    refresh,
                },
            )
        },
        Some(mut session) => {
            match find_session_token(&session, token_ref.client_id.as_str()) {
                Some(i) => OfflineStep::Superseded(session.refresh[i].id.clone()),
                None => {
                    let ghost old_refresh = session.refresh@;
                    session.refresh.push(token_ref);
                    session.connector_data = crate::model::clone_opt_string(connector_data);
                    assert(session_well_formed(session)) by {
                        assert forall|i: int, j: int|
                            0 <= i < session.refresh@.len() && 0 <= j < session.refresh@.len()
                                && i != j implies (#[trigger] session.refresh@[i]).client_id@ != (
                        #[trigger] session.refresh@[j]).client_id@ by {
                            if i < old_refresh.len() && j < old_refresh.len() {
                                assert(session.refresh@[i] == old_refresh[i]);
                                assert(session.refresh@[j] == old_refresh[j]);
                            } else if i < old_refresh.len() {
                                assert(session.refresh@[i] == old_refresh[i]);
                            } else {
                                assert(session.refresh@[j] == old_refresh[j]);
                            }
                        }
                    }
                    OfflineStep::Save(session)
                },
            }
        },
    }
}

/// What a finished login does to the user's offline session for its
/// connector: `None` where there is nothing to save.
pub fn session_after_login(
    existing: Option<OfflineSession>,
    new_id: String,
    user_id: &str,
    conn_id: &str,
    connector_data: &Option<String>,
) -> (r: Option<OfflineSession>)
    ensures
        match existing {
            None => r matches Some(s) && s.id == new_id && s.user_id@ == user_id@ && s.conn_id@
                == conn_id@ && s.connector_data == *connector_data && s.refresh@.len() == 0,
            Some(old) => match connector_data {
                Some(d) => r matches Some(s) && s.id == old.id && s.user_id == old.user_id
                    && s.conn_id == old.conn_id && s.refresh == old.refresh && s.connector_data
                    == Some(*d),
                None => r is None,
            },
        },
{
    match existing {
        None => Some(
            OfflineSession {
                id: new_id,
                user_id: String::from_str(user_id),
                conn_id: String::from_str(conn_id),
                connector_data: crate::model::clone_opt_string(connector_data),
                refresh: Vec::new(),
            },
        ),
        Some(mut session) => match connector_data {
            Some(d) => {
                session.connector_data = Some(d.clone());
                Some(session)
            },
            None => None,
        },
    }
}

} // verus!
