//! The authorization request of the OpenID Connect code flow: its
//! parameters, their validation, and turning it into a request the service
//! keeps while the user logs in.

use vstd::prelude::*;

use crate::errors::{bad_request, WithBacktrace};
use crate::crypto::new_uuid;
use crate::model::{clone_opt_string, Claim, Client, Connector, StoredAuthRequest};
use crate::oidc::connect::Identity;
use crate::oidc::scope::{
    lemma_scope_outcome_ignores_peers, needs_peer_lookup, peers_of, scope_error_matches, scope_outcome,
    scopes_need_client, valid_scope, ScopeFailure,
};
use crate::oidc::uri::{parse_uri, uri_host_of, uri_parses, uri_scheme_of};
use crate::text::{contains_string, split_whitespace, str_eq, views, words};
use crate::valid::{char_count_within, url_valid, url_valid_of};

verus! {

/// The query parameters of an authorization request.
#[derive(Debug)]
pub struct AuthRequest {
    pub response_type: String,
    pub client_id: String,
    pub redirect_uri: String,
    pub scope: String,
    pub state: String,
    pub nonce: String,
    pub code_challenge: String,
    pub code_challenge_method: Option<String>,
    pub connector_id: Option<String>,
    pub skip_approval: Option<bool>,
}

/// The state parameter that comes back from the login page.
#[derive(Debug)]
pub struct AuthRequestState {
    pub state: String,
    pub callback: Option<String>,
}

/// A signed reference to an authorization request, for the approval page.
#[derive(Debug)]
pub struct ReqHmac {
    pub req: String,
    pub hmac: String,
    pub approval: Option<String>,
}

/// Whether `s` holds between `min` and `max` characters (no bound where
/// `None`), as the length rule of `validator` counts them.
pub open spec fn length_ok(s: Seq<char>, min: Option<nat>, max: Option<nat>) -> bool {
    &&& (min matches Some(m) ==> s.len() >= m)
    &&& (max matches Some(m) ==> s.len() <= m)
}

/// The names of the fields of `r` that break its validation rules, in the
/// order the fields are declared.
pub open spec fn auth_request_violations(r: AuthRequest) -> Seq<Seq<char>> {
    let a: Seq<Seq<char>> = if length_ok(r.response_type@, Some(1), Some(255)) {
        Seq::empty()
    } else {
        seq!["response_type"@]
    };
    let b = if length_ok(r.client_id@, Some(1), Some(255)) {
        a
    } else {
        a.push("client_id"@)
    };
    let c = if url_valid_of(r.redirect_uri@) {
        b
    } else {
        b.push("redirect_uri"@)
    };
    let d = if length_ok(r.state@, Some(1), Some(255)) {
        c
    } else {
        c.push("state"@)
    };
    let e = if length_ok(r.nonce@, Some(1), Some(255)) {
        d
    } else {
        d.push("nonce"@)
    };
    let f = if length_ok(r.code_challenge@, Some(1), None) {
        e
    } else {
        e.push("code_challenge"@)
    };
    match r.connector_id {
        Some(c) => if length_ok(c@, Some(1), None) {
            f
        } else {
            f.push("connector_id"@)
        },
        None => f,
    }
}

impl AuthRequest {
    /// Checks the validation rules of the request's fields: lengths of 1 to
    /// 255 characters for the response type, client, state and nonce, a
    /// URL for the redirect URI, a non-empty code challenge and a non-empty
    /// connector id where one is given. Gives the names of the fields that
    /// break a rule.
    pub fn validate(&self) -> (r: Result<(), Vec<String>>)
        ensures
            match r {
                Ok(()) => auth_request_violations(*self).len() == 0,
                Err(v) => v@.len() > 0 && views(v@) == auth_request_violations(*self),
            },
    {
        let mut v: Vec<String> = Vec::new();
        if !char_count_within(self.response_type.as_str(), Some(1), Some(255)) {
            v.push(String::from_str("response_type"));
        }
        let ghost a = views(v@);
        if !char_count_within(self.client_id.as_str(), Some(1), Some(255)) {
            v.push(String::from_str("client_id"));
        }
        assert(views(v@) =~= (if length_ok(self.client_id@, Some(1), Some(255)) { a } else { a.push("client_id"@) }));
        let ghost b = views(v@);
        if !url_valid(self.redirect_uri.as_str()) {
            v.push(String::from_str("redirect_uri"));
        }
        assert(views(v@) =~= (if url_valid_of(self.redirect_uri@) { b } else { b.push("redirect_uri"@) }));
        let ghost c = views(v@);
        if !char_count_within(self.state.as_str(), Some(1), Some(255)) {
            v.push(String::from_str("state"));
        }
        assert(views(v@) =~= (if length_ok(self.state@, Some(1), Some(255)) { c } else { c.push("state"@) }));
        let ghost d = views(v@);
        if !char_count_within(self.nonce.as_str(), Some(1), Some(255)) {
            v.push(String::from_str("nonce"));
        }
        assert(views(v@) =~= (if length_ok(self.nonce@, Some(1), Some(255)) { d } else { d.push("nonce"@) }));
        let ghost e = views(v@);
        if !char_count_within(self.code_challenge.as_str(), Some(1), None) {
            v.push(String::from_str("code_challenge"));
        }
        assert(views(v@) =~= (if length_ok(self.code_challenge@, Some(1), None) { e } else { e.push("code_challenge"@) }));
        let ghost f = views(v@);
        match &self.connector_id {
            Some(cid) => {
                if !char_count_within(cid.as_str(), Some(1), None) {
                    v.push(String::from_str("connector_id"));
                }
                assert(views(v@) =~= (if length_ok(cid@, Some(1), None) { f } else { f.push("connector_id"@) }));
            },
            None => {},
        }
        assert(views(v@) =~= auth_request_violations(*self));
        if v.len() == 0 {
            Ok(())
        } else {
            Err(v)
        }
    }
}

proof fn lemma_push_contains(s: Seq<Seq<char>>, x: Seq<char>, y: Seq<char>)
    ensures
        s.push(x).contains(y) <==> (s.contains(y) || x == y),
{
    if s.contains(y) {
        let i = choose|i: int| 0 <= i < s.len() && s[i] == y;
        assert(s.push(x)[i] == y);
    }
    if x == y {
        assert(s.push(x)[s.len() as int] == y);
    }
    if s.push(x).contains(y) {
        let i = choose|i: int| 0 <= i < s.push(x).len() && s.push(x)[i] == y;
        if i < s.len() {
            assert(s[i] == y);
        }
    }
}

/// The field names, as written out.
pub open spec fn field_response_type() -> Seq<char> {
    seq!['r', 'e', 's', 'p', 'o', 'n', 's', 'e', '_', 't', 'y', 'p', 'e']
}

pub open spec fn field_client_id() -> Seq<char> {
    seq!['c', 'l', 'i', 'e', 'n', 't', '_', 'i', 'd']
}

pub open spec fn field_redirect_uri() -> Seq<char> {
    seq!['r', 'e', 'd', 'i', 'r', 'e', 'c', 't', '_', 'u', 'r', 'i']
}

pub open spec fn field_state() -> Seq<char> {
    seq!['s', 't', 'a', 't', 'e']
}

pub open spec fn field_nonce() -> Seq<char> {
    seq!['n', 'o', 'n', 'c', 'e']
}

pub open spec fn field_code_challenge() -> Seq<char> {
    seq!['c', 'o', 'd', 'e', '_', 'c', 'h', 'a', 'l', 'l', 'e', 'n', 'g', 'e']
}

pub open spec fn field_connector_id() -> Seq<char> {
    seq!['c', 'o', 'n', 'n', 'e', 'c', 't', 'o', 'r', '_', 'i', 'd']
}

/// Each field rule of an authorization request, on its own: a field is
/// named among the violations exactly when it breaks its rule.
/// `response_type`, `client_id`, `state` and `nonce` must hold 1 to 255
/// characters, `redirect_uri` must be a URL, `code_challenge` must not be
/// empty, and `connector_id`, where given, must not be empty. The request
/// passes exactly when every rule holds.
pub proof fn lemma_auth_request_field_rules(r: AuthRequest)
    ensures
        auth_request_violations(r).contains(field_response_type()) <==> !(1 <= r.response_type@.len()
            <= 255),
        auth_request_violations(r).contains(field_client_id()) <==> !(1 <= r.client_id@.len() <= 255),
        auth_request_violations(r).contains(field_redirect_uri()) <==> !url_valid_of(r.redirect_uri@),
        auth_request_violations(r).contains(field_state()) <==> !(1 <= r.state@.len() <= 255),
        auth_request_violations(r).contains(field_nonce()) <==> !(1 <= r.nonce@.len() <= 255),
        auth_request_violations(r).contains(field_code_challenge()) <==> r.code_challenge@.len() == 0,
        auth_request_violations(r).contains(field_connector_id()) <==> (r.connector_id matches Some(c)
            && c@.len() == 0),
        auth_request_violations(r).len() == 0 <==> {
            &&& 1 <= r.response_type@.len() <= 255
            &&& 1 <= r.client_id@.len() <= 255
            &&& url_valid_of(r.redirect_uri@)
            &&& 1 <= r.state@.len() <= 255
            &&& 1 <= r.nonce@.len() <= 255
            &&& r.code_challenge@.len() > 0
            &&& (r.connector_id matches Some(c) ==> c@.len() > 0)
        },
{
    reveal_strlit("response_type");
    reveal_strlit("client_id");
    reveal_strlit("redirect_uri");
    reveal_strlit("state");
    reveal_strlit("nonce");
    reveal_strlit("code_challenge");
    reveal_strlit("connector_id");
    let names = seq![
        field_response_type(),
        field_client_id(),
        field_redirect_uri(),
        field_state(),
        field_nonce(),
        field_code_challenge(),
        field_connector_id(),
    ];
    assert("response_type"@ =~= names[0]);
    assert("client_id"@ =~= names[1]);
    assert("redirect_uri"@ =~= names[2]);
    assert("state"@ =~= names[3]);
    assert("nonce"@ =~= names[4]);
    assert("code_challenge"@ =~= names[5]);
    assert("connector_id"@ =~= names[6]);
    assert forall|i: int, j: int| 0 <= i < 7 && 0 <= j < 7 && i != j implies names[i] != names[j] by {
        if names[i] == names[j] {
            assert(names[i].len() == names[j].len());
            assert(names[i][0] == names[j][0]);
            assert(names[i][1] == names[j][1]);
            assert(names[i][2] == names[j][2]);
        }
    }
    let a: Seq<Seq<char>> = if length_ok(r.response_type@, Some(1), Some(255)) {
        Seq::empty()
    } else {
        seq!["response_type"@]
    };
    let b = if length_ok(r.client_id@, Some(1), Some(255)) { a } else { a.push("client_id"@) };
    let c = if url_valid_of(r.redirect_uri@) { b } else { b.push("redirect_uri"@) };
    let d = if length_ok(r.state@, Some(1), Some(255)) { c } else { c.push("state"@) };
    let e = if length_ok(r.nonce@, Some(1), Some(255)) { d } else { d.push("nonce"@) };
    let f = if length_ok(r.code_challenge@, Some(1), None) { e } else { e.push("code_challenge"@) };
    let g = match r.connector_id {
        Some(x) => if length_ok(x@, Some(1), None) { f } else { f.push("connector_id"@) },
        None => f,
    };
    assert(g == auth_request_violations(r));
    assert(Seq::<Seq<char>>::empty().push("response_type"@) =~= seq!["response_type"@]);
    let all = seq!["response_type"@, "client_id"@, "redirect_uri"@, "state"@, "nonce"@, "code_challenge"@, "connector_id"@];
    assert forall|y: Seq<char>| all.contains(y) implies (g.contains(y) <==> (
        (y == "response_type"@ && !length_ok(r.response_type@, Some(1), Some(255)))
        || (y == "client_id"@ && !length_ok(r.client_id@, Some(1), Some(255)))
        || (y == "redirect_uri"@ && !url_valid_of(r.redirect_uri@))
        || (y == "state"@ && !length_ok(r.state@, Some(1), Some(255)))
        || (y == "nonce"@ && !length_ok(r.nonce@, Some(1), Some(255)))
        || (y == "code_challenge"@ && !length_ok(r.code_challenge@, Some(1), None))
        || (y == "connector_id"@ && (r.connector_id matches Some(x) && !length_ok(x@, Some(1), None)))
    )) by {
        lemma_push_contains(Seq::empty(), "response_type"@, y);
        lemma_push_contains(a, "client_id"@, y);
        lemma_push_contains(b, "redirect_uri"@, y);
        lemma_push_contains(c, "state"@, y);
        lemma_push_contains(d, "nonce"@, y);
        lemma_push_contains(e, "code_challenge"@, y);
        lemma_push_contains(f, "connector_id"@, y);
    }
    assert(all[0] == "response_type"@ && all[1] == "client_id"@ && all[2] == "redirect_uri"@);
    assert(all[3] == "state"@ && all[4] == "nonce"@ && all[5] == "code_challenge"@ && all[6] == "connector_id"@);
    assert(all.contains("response_type"@) && all.contains("client_id"@) && all.contains("redirect_uri"@));
    assert(all.contains("state"@) && all.contains("nonce"@) && all.contains("code_challenge"@));
    assert(all.contains("connector_id"@));
    if g.len() > 0 {
        assert(g.contains(g[0]));
    }
}

/// Whether `c` may redirect to `u`: `u` is one of its registered redirect
/// URIs, or the client has neither an account nor registered URIs and `u`
/// is an `http` URI on `localhost`.
pub open spec fn redirect_uri_allowed(c: Client, u: Seq<char>) -> bool {
    ||| views(c.redirect_uris@).contains(u)
    ||| {
        &&& c.account_id@.len() == 0
        &&& c.redirect_uris@.len() == 0
        &&& uri_parses(u)
        &&& uri_scheme_of(u) == Some("http"@)
        &&& uri_host_of(u) == Some("localhost"@)
    }
}

/// Whether the client `client_value` may redirect to `redirect_uri`.
pub fn validate_redirect_uri(client_value: &Client, redirect_uri: &str) -> (r: bool)
    ensures
        r == redirect_uri_allowed(*client_value, redirect_uri@),
{
    if contains_string(&client_value.redirect_uris, redirect_uri) {
        return true;
    }
    if client_value.account_id.as_str().unicode_len() != 0 || client_value.redirect_uris.len()
        != 0 {
        return false;
    }
    let u = match parse_uri(redirect_uri) {
        Ok(v) => v,
        Err(_) => return false,
    };
    let http_scheme = match &u.scheme {
        Some(s) => str_eq(s.as_str(), "http"),
        None => false,
    };
    if !http_scheme {
        return false;
    }
    match &u.host {
        Some(h) => str_eq(h.as_str(), "localhost"),
        None => false,
    }
}

/// The response types the service knows.
pub open spec fn is_response_type(t: Seq<char>) -> bool {
    t == "code"@ || t == "token"@ || t == "id_token"@
}

/// The first response type that the service does not know.
pub open spec fn first_unknown_response_type(types: Seq<Seq<char>>) -> Option<Seq<char>>
    decreases types.len(),
{
    if types.len() == 0 {
        None
    } else if !is_response_type(types[0]) {
        Some(types[0])
    } else {
        first_unknown_response_type(types.drop_first())
    }
}

/// Why an authorization request is refused.
pub enum AuthRequestFailure {
    Scope(ScopeFailure),
    NoResponseType,
    UnknownResponseType(Seq<char>),
    TokenAlone,
    MissingNonce,
    InvalidChallengeMethod,
    ClientLookup,
    InvalidRedirect,
}

/// The code challenge method a request settles on: `plain` unless it names
/// one.
pub open spec fn challenge_method(m: Option<Seq<char>>) -> Seq<char> {
    match m {
        Some(v) => v,
        None => "plain"@,
    }
}

/// The outcome of checking the authorization request `req`, where `client`
/// is what fetching the record of its client gave.
pub open spec fn auth_request_outcome(
    req: AuthRequest,
    client: Result<Client, WithBacktrace>,
) -> Result<(), AuthRequestFailure> {
    let scopes = words(req.scope@);
    let types = words(req.response_type@);
    let has_code = types.contains("code"@);
    let has_token = types.contains("token"@);
    let has_id_token = types.contains("id_token"@);
    let method = crate::oidc::uri::opt_view(req.code_challenge_method);
    if scope_outcome(req.client_id@, scopes, peers_of(client)) is Err {
        Err(
            AuthRequestFailure::Scope(
                scope_outcome(req.client_id@, scopes, peers_of(client))->Err_0,
            ),
        )
    } else if types.len() == 0 {
        Err(AuthRequestFailure::NoResponseType)
    } else if first_unknown_response_type(types) is Some {
        Err(AuthRequestFailure::UnknownResponseType(first_unknown_response_type(types)->0))
    } else if !has_code && !has_id_token && has_token {
        Err(AuthRequestFailure::TokenAlone)
    } else if !has_code && req.nonce@.len() == 0 {
        Err(AuthRequestFailure::MissingNonce)
    } else if method is Some && method->0 != "plain"@ && method->0 != "S256"@ {
        Err(AuthRequestFailure::InvalidChallengeMethod)
    } else if client is Err {
        Err(AuthRequestFailure::ClientLookup)
    } else if !redirect_uri_allowed(client->Ok_0, req.redirect_uri@) {
        Err(AuthRequestFailure::InvalidRedirect)
    } else {
        Ok(())
    }
}

/// The error that reports each refusal.
pub open spec fn auth_error_matches(
    e: WithBacktrace,
    f: AuthRequestFailure,
    client: Result<Client, WithBacktrace>,
) -> bool {
    match f {
        AuthRequestFailure::Scope(sf) => scope_error_matches(e, sf, client),
        AuthRequestFailure::ClientLookup => client is Err && e.spec_source()
            == client->Err_0.spec_source(),
        _ => e.spec_source() is BadRequest && e.spec_source()->BadRequest_0@ == auth_failure_text(
            f,
        ),
    }
}

/// The error text of the refusals that are bad requests.
pub open spec fn auth_failure_text(f: AuthRequestFailure) -> Seq<char> {
    match f {
        AuthRequestFailure::NoResponseType => "no response_type provided"@,
        AuthRequestFailure::UnknownResponseType(t) => "Invalid response_type value "@ + t,
        AuthRequestFailure::TokenAlone => "response_type 'token' must be provided with [\"code\", \"id_token\"]."@,
        AuthRequestFailure::MissingNonce => "response_type 'token' requires a nonce."@,
        AuthRequestFailure::InvalidChallengeMethod => "Invalid code_challenge_method value"@,
        AuthRequestFailure::InvalidRedirect => "Invalid redirect_uri"@,
        _ => Seq::empty(),
    }
}

/// The checks of the authorization request `req` that read no record,
/// made before the client's record is fetched. Where a scope names the
/// client as a peer, checking the scopes needs that record, so nothing is
/// checked here (`Ok`). Else the scopes, the response types, the nonce and
/// the code challenge method are checked: a refusal here is the one
/// [`parse_auth_request`] gives whatever fetching the record gives, and
/// after `Ok` it can refuse only on the fetch or the redirect URI.
pub fn check_auth_request(req: &AuthRequest) -> (r: Result<(), WithBacktrace>)
    ensures
        r is Err ==> !needs_peer_lookup(req.client_id@, words(req.scope@)),
        r matches Err(e) ==> forall|c: Result<Client, WithBacktrace>|
            #[trigger] auth_request_outcome(*req, c) matches Err(f) && auth_error_matches(e, f, c),
        r is Ok ==> needs_peer_lookup(req.client_id@, words(req.scope@)) || forall|
            c: Result<Client, WithBacktrace>,
        |
            (#[trigger] auth_request_outcome(*req, c) matches Err(f) ==> f is ClientLookup
                || f is InvalidRedirect),
{
    let scopes = split_whitespace(req.scope.as_str());
    if scopes_need_client(req.client_id.as_str(), &scopes) {
        return Ok(());
    }
    let mut uris: Vec<String> = Vec::new();
    uris.push(req.redirect_uri.clone());
    let probe = Client {
        id: req.client_id.clone(),
        secret: String::new(),
        name: String::new(),
        logo_url: String::new(),
        account_id: String::new(),
        redirect_uris: uris,
        trusted_peers: Vec::new(),
    };
    assert(views(probe.redirect_uris@)[0] == req.redirect_uri@);
    assert(redirect_uri_allowed(probe, req.redirect_uri@));
    let lookup: Result<Client, WithBacktrace> = Ok(probe);
    let checked = parse_auth_request(req, &lookup);
    let ghost cid = req.client_id@;
    let ghost sv = words(req.scope@);
    assert forall|c: Result<Client, WithBacktrace>|
        scope_outcome(cid, sv, #[trigger] peers_of(c)) == scope_outcome(cid, sv, peers_of(lookup)) by {
        lemma_scope_outcome_ignores_peers(cid, sv, peers_of(c), peers_of(lookup));
    }
    match checked {
        Ok(_) => {
            assert forall|c: Result<Client, WithBacktrace>|
                (#[trigger] auth_request_outcome(*req, c) matches Err(f) ==> f is ClientLookup
                    || f is InvalidRedirect) by {
                assert(scope_outcome(cid, sv, peers_of(c)) == scope_outcome(cid, sv, peers_of(lookup)));
            }
            Ok(())
        },
        Err(e) => {
            assert forall|c: Result<Client, WithBacktrace>|
                #[trigger] auth_request_outcome(*req, c) matches Err(f) && auth_error_matches(e, f, c) by {
                assert(scope_outcome(cid, sv, peers_of(c)) == scope_outcome(cid, sv, peers_of(lookup)));
            }
            Err(e)
        },
    }
}

/// Checks the authorization request `req` and gives the request to keep
/// while the user logs in. `client` is what fetching the record of the
/// request's client gave: it serves both the check of cross-client scopes
/// and the check of the redirect URI.
pub fn parse_auth_request(req: &AuthRequest, client: &Result<Client, WithBacktrace>) -> (r: Result<
    StoredAuthRequest,
    WithBacktrace,
>)
    ensures
        match auth_request_outcome(*req, *client) {
            Ok(()) => r is Ok && {
                let a = r->Ok_0;
                &&& a.client_id@ == req.client_id@
                &&& views(a.response_types@) == words(req.response_type@)
                &&& views(a.scopes@) == words(req.scope@)
                &&& a.redirect_uri@ == req.redirect_uri@
                &&& a.code_challenge@ == req.code_challenge@
                &&& a.code_challenge_method@ == challenge_method(
                    crate::oidc::uri::opt_view(req.code_challenge_method),
                )
                &&& a.nonce@ == req.nonce@
                &&& a.state@ == req.state@
                &&& a.id@.len() == 0
                &&& !a.force_approval_prompt
                &&& !a.logged_in
                &&& a.claim.sub@.len() == 0
                &&& a.claim.opts is None
                &&& a.connector_id@.len() == 0
                &&& a.connector_data is None
                &&& a.expiry == 0
                &&& a.hmac_key@.len() == 0
            },
            Err(f) => r is Err && auth_error_matches(r->Err_0, f, *client),
        },
{
    let scopes = split_whitespace(req.scope.as_str());
    match valid_scope(req.client_id.as_str(), &scopes, client) {
        Ok(_) => {},
        Err(e) => return Err(e),
    }
    let response_types = split_whitespace(req.response_type.as_str());
    if response_types.len() == 0 {
        return Err(bad_request("no response_type provided"));
    }
    let ghost types = views(response_types@);
    let mut has_code = false;
    let mut has_id_token = false;
    let mut has_token = false;
    assert(types.skip(0) =~= types);
    proof {
        reveal_strlit("code");
        reveal_strlit("token");
        reveal_strlit("id_token");
    }
    for i in 0..response_types.len()
        invariant
            types == views(response_types@),
            types == words(req.response_type@),
            types.len() > 0,
            scope_outcome(req.client_id@, words(req.scope@), peers_of(*client)) is Ok,
            first_unknown_response_type(types) == first_unknown_response_type(types.skip(i as int)),
            forall|k: int| 0 <= k < i ==> is_response_type(#[trigger] types[k]),
            has_code == types.take(i as int).contains("code"@),
            has_token == types.take(i as int).contains("token"@),
            has_id_token == types.take(i as int).contains("id_token"@),
    {
        let t = response_types[i].as_str();
        assert(types[i as int] == t@);
        let ghost pre = types.take(i as int);
        let ghost next = types.take(i + 1);
        assert(types.skip(i as int).drop_first() =~= types.skip(i + 1));
        assert(types.skip(i as int)[0] == types[i as int]);
        if str_eq(t, "code") {
            has_code = true;
        } else if str_eq(t, "token") {
            has_token = true;
        } else if str_eq(t, "id_token") {
            has_id_token = true;
        } else {
            assert(!is_response_type(t@));
            assert(first_unknown_response_type(types.skip(i as int)) == Some(t@));
            let msg = crate::text::concat2("Invalid response_type value ", t);
            return Err(bad_request(msg.as_str()));
        }
        proof {
            reveal_strlit("code");
            reveal_strlit("token");
            reveal_strlit("id_token");
            lemma_contains_take_step(types, i as int, "code"@);
            lemma_contains_take_step(types, i as int, "token"@);
            lemma_contains_take_step(types, i as int, "id_token"@);
        }
    }
    assert(types.take(types.len() as int) =~= types);
    assert(types.skip(types.len() as int) =~= Seq::<Seq<char>>::empty());
    if !has_code && !has_id_token && has_token {
        return Err(
            bad_request("response_type 'token' must be provided with [\"code\", \"id_token\"]."),
        );
    }
    if !has_code && req.nonce.as_str().unicode_len() == 0 {
        return Err(bad_request("response_type 'token' requires a nonce."));
    }
    let code_challenge_method = match &req.code_challenge_method {
        Some(value) => {
            if str_eq(value.as_str(), "plain") || str_eq(value.as_str(), "S256") {
                value.clone()
            } else {
                return Err(bad_request("Invalid code_challenge_method value"));
            }
        },
        None => String::from_str("plain"),
    };
    let client_value = match client {
        Ok(c) => c,
        Err(e) => return Err(e.clone()),
    };
    if !validate_redirect_uri(client_value, req.redirect_uri.as_str()) {
        return Err(bad_request("Invalid redirect_uri"));
    }
    Ok(
        StoredAuthRequest {
            id: String::new(),
            client_id: req.client_id.clone(),
            response_types,
            scopes,
            redirect_uri: req.redirect_uri.clone(),
            code_challenge: req.code_challenge.clone(),
            code_challenge_method,
            nonce: req.nonce.clone(),
            state: req.state.clone(),
            force_approval_prompt: false,
            logged_in: false,
            claim: Claim::empty(),
            connector_id: String::new(),
            connector_data: None,
            expiry: 0,
            hmac_key: String::new(),
        },
    )
}

proof fn lemma_contains_take_step(s: Seq<Seq<char>>, i: int, x: Seq<char>)
    requires
        0 <= i < s.len(),
    ensures
        s.take(i + 1).contains(x) == (s.take(i).contains(x) || s[i] == x),
{
    let pre = s.take(i);
    let next = s.take(i + 1);
    if next.contains(x) && !pre.contains(x) {
        let k = choose|k: int| 0 <= k < next.len() && next[k] == x;
        if k < i {
            assert(pre[k] == next[k]);
        }
    }
    if pre.contains(x) {
        let k = choose|k: int| 0 <= k < pre.len() && pre[k] == x;
        assert(next[k] == pre[k]);
    }
    if s[i] == x {
        assert(next[i] == x);
    }
}

/// The path to the login page of the request's connector: `/connectors`,
/// then `/` and the connector's id where the request names one, then `&`
/// and the request's remaining parameters, already URL-encoded.
pub fn connector_login_uri(connector_id: Option<&str>, encoded_request: &str) -> (r: String)
    ensures
        r@ == "/connectors"@ + (match connector_id {
            Some(id) => "/"@ + id@,
            None => Seq::empty(),
        }) + "&"@ + encoded_request@,
{
    let mut connector = String::from_str("/connectors");
    match connector_id {
        Some(id) => {
            connector.append("/");
            connector.append(id);
        },
        None => {},
    }
    connector.append("&");
    connector.append(encoded_request);
    connector
}

/// Whether `after` is the request `before` with only its id, connector,
/// connector data and expiry changed.
pub open spec fn same_request_but_login(after: StoredAuthRequest, before: StoredAuthRequest) -> bool {
    &&& after.client_id == before.client_id
    &&& after.response_types == before.response_types
    &&& after.scopes == before.scopes
    &&& after.redirect_uri == before.redirect_uri
    &&& after.code_challenge == before.code_challenge
    &&& after.code_challenge_method == before.code_challenge_method
    &&& after.nonce == before.nonce
    &&& after.state == before.state
    &&& after.force_approval_prompt == before.force_approval_prompt
    &&& after.logged_in == before.logged_in
    &&& after.claim == before.claim
    &&& after.hmac_key == before.hmac_key
}

/// Readies the authorization request for a login at the connector `conn`,
/// registered under `connector_id`: the request gets a fresh UUID as its
/// id, the connector and its data, and expires `expires_in` seconds after
/// `now` (seconds since the Unix epoch).
pub fn start_login(
    auth_req: &mut StoredAuthRequest,
    conn: &Connector,
    connector_id: &str,
    now: i64,
    expires_in: i64,
)
    requires
        i64::MIN <= now + expires_in <= i64::MAX,
    ensures
        final(auth_req).id@.len() == 36,
        final(auth_req).connector_id@ == connector_id@,
        final(auth_req).connector_data == conn.connector_data,
        final(auth_req).expiry == now + expires_in,
        same_request_but_login(*final(auth_req), *old(auth_req)),
{
    auth_req.id = new_uuid();
    auth_req.connector_id = String::from_str(connector_id);
    auth_req.connector_data = clone_opt_string(&conn.connector_data);
    auth_req.expiry = now + expires_in;
}

/// Records on the authorization request the identity the connector
/// reported after the login.
pub fn record_identity(auth_req: &mut StoredAuthRequest, identity: &Identity)
    ensures
        final(auth_req).claim == identity.claim,
        final(auth_req).connector_data == identity.connector_data,
        final(auth_req).id == old(auth_req).id,
        final(auth_req).connector_id == old(auth_req).connector_id,
        final(auth_req).expiry == old(auth_req).expiry,
        final(auth_req).scopes == old(auth_req).scopes,
        final(auth_req).client_id == old(auth_req).client_id,
        final(auth_req).redirect_uri == old(auth_req).redirect_uri,
        final(auth_req).state == old(auth_req).state,
        final(auth_req).logged_in == old(auth_req).logged_in,
{
    auth_req.claim = identity.claim.clone();
    auth_req.connector_data = clone_opt_string(&identity.connector_data);
}

/// Whether a finished login keeps an offline session: the request asks
/// for offline access and the connector can refresh identities.
pub fn keeps_offline_session(auth_req: &StoredAuthRequest, support_refresh: bool) -> (r: bool)
    ensures
        r == (views(auth_req.scopes@).contains("offline_access"@) && support_refresh),
{
    contains_string(&auth_req.scopes, "offline_access") && support_refresh
}

} // verus!
