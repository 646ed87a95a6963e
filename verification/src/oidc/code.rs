//! Finishing a login: deciding what the client's redirect carries (an
//! authorization code, tokens, or both) and building the redirect URI.

use vstd::prelude::*;

use crate::errors::{bad_request, WithBacktrace};
use crate::crypto::{is_v4_uuid_text, new_uuid};
use crate::model::{clone_opt_string, Claim, StoredAuthRequest};
use crate::oidc::token::{clone_strings, Claims};
use crate::num::{i64_to_text, int_text};
use crate::oidc::uri::{parse_uri, uri_error_text_of, uri_parses, uri_query_of};
use crate::text::{str_eq, views};

verus! {

/// What a response type asks for.
#[derive(Debug)]
pub enum ResponseTypeKind {
    /// An authorization code.
    Code,
    /// An ID token (and an access token beside it).
    IdToken,
    /// An access token in the redirect.
    Token,
    /// A response type the service ignores here.
    Other,
}

pub open spec fn response_type_kind_of(t: Seq<char>) -> ResponseTypeKind {
    if t == "code"@ {
        ResponseTypeKind::Code
    } else if t == "id_token"@ {
        ResponseTypeKind::IdToken
    } else if t == "token"@ {
        ResponseTypeKind::Token
    } else {
        ResponseTypeKind::Other
    }
}

/// What the response type `t` asks for.
pub fn response_type_kind(t: &str) -> (r: ResponseTypeKind)
    ensures
        r == response_type_kind_of(t@),
{
    if str_eq(t, "code") {
        ResponseTypeKind::Code
    } else if str_eq(t, "id_token") {
        ResponseTypeKind::IdToken
    } else if str_eq(t, "token") {
        ResponseTypeKind::Token
    } else {
        ResponseTypeKind::Other
    }
}

/// Whether the flow is implicit or hybrid: some response type asks for a
/// token in the redirect.
pub open spec fn implicit_or_hybrid(types: Seq<Seq<char>>) -> bool {
    exists|i: int|
        0 <= i < types.len() && (#[trigger] types[i] == "id_token"@ || types[i] == "token"@)
}

/// Whether the flow is implicit or hybrid.
pub fn is_implicit_or_hybrid(types: &Vec<String>) -> (r: bool)
    ensures
        r == implicit_or_hybrid(views(types@)),
{
    for i in 0..types.len()
        invariant
            forall|k: int|
                0 <= k < i ==> !(#[trigger] views(types@)[k] == "id_token"@ || views(types@)[k]
                    == "token"@),
    {
        if str_eq(types[i].as_str(), "id_token") || str_eq(types[i].as_str(), "token") {
            assert(views(types@)[i as int] == "id_token"@ || views(types@)[i as int] == "token"@);
            return true;
        }
    }
    false
}

/// Whether a login that expires at `expiry` has run out at `now` (both in
/// seconds since the Unix epoch).
pub fn check_session(now: i64, expiry: i64) -> (r: Result<(), WithBacktrace>)
    ensures
        r is Ok <==> now <= expiry,
        r matches Err(e) ==> e.spec_source() is BadRequest && e.spec_source()->BadRequest_0@
            == "User session has expired."@,
{
    if now > expiry {
        return Err(bad_request("User session has expired."));
    }
    Ok(())
}

/// Reads the redirect URI of a request: whether it already has a query.
pub fn redirect_has_query(redirect_uri: &str) -> (r: Result<bool, WithBacktrace>)
    ensures
        match r {
            Ok(b) => uri_parses(redirect_uri@) && b == (uri_query_of(redirect_uri@) is Some),
            Err(e) => !uri_parses(redirect_uri@) && e.spec_source() is BadRequest
                && e.spec_source()->BadRequest_0@ == "Invalid redirect_uri. "@ + uri_error_text_of(
                redirect_uri@,
            ),
        },
{
    match parse_uri(redirect_uri) {
        Ok(p) => Ok(p.query.is_some()),
        Err(t) => {
            let msg = crate::text::concat2("Invalid redirect_uri. ", t.as_str());
            Err(bad_request(msg.as_str()))
        },
    }
}

/// What was issued for a finished login: the last authorization code, and
/// the access and ID tokens of the last ID token issued (empty where none
/// was) with the ID token's expiry.
#[derive(Debug)]
pub struct IssuedTokens {
    pub code: Option<String>,
    pub access_token: String,
    pub id_token: String,
    pub id_token_expiry: i64,
}

/// The query the redirect carries.
pub open spec fn code_query(
    implicit: bool,
    access_token: Seq<char>,
    state: Seq<char>,
    id_token: Seq<char>,
    code: Option<Seq<char>>,
    expires_in: int,
) -> Seq<char> {
    if implicit {
        "access_token="@ + access_token + "&token_type=bearer&state="@ + state + (if id_token.len()
            > 0 {
            "&id_token="@ + id_token + (if code is None {
                "&expires_in="@ + int_text(expires_in)
            } else {
                Seq::empty()
            })
        } else {
            Seq::empty()
        }) + (match code {
            Some(c) => "&code="@ + c,
            None => Seq::empty(),
        })
    } else {
        match code {
            Some(c) => "code="@ + c + "&state="@ + state,
            None => Seq::empty(),
        }
    }
}

pub open spec fn opt_string_view(o: Option<String>) -> Option<Seq<char>> {
    match o {
        Some(s) => Some(s@),
        None => None,
    }
}

/// The URI to send the user back to: the request's redirect URI, then `&`
/// where it already has a query and `?` where not, then the query.
pub open spec fn code_redirect_text(
    auth: StoredAuthRequest,
    has_query: bool,
    issued: IssuedTokens,
    now: int,
) -> Seq<char> {
    auth.redirect_uri@ + (if has_query {
        "&"@
    } else {
        "?"@
    }) + code_query(
        implicit_or_hybrid(views(auth.response_types@)),
        issued.access_token@,
        auth.state@,
        issued.id_token@,
        opt_string_view(issued.code),
        issued.id_token_expiry - now,
    )
}

/// Builds the URI that sends the user back to the client after a login,
/// from what was issued. `now` is the current time in seconds since the
/// Unix epoch; the seconds the ID token has left must fit in an `i64`
/// where they are reported.
pub fn code_redirect(auth: &StoredAuthRequest, has_query: bool, issued: &IssuedTokens, now: i64) -> (r:
    String)
    requires
        implicit_or_hybrid(views(auth.response_types@)) && issued.id_token@.len() > 0
            && issued.code is None ==> i64::MIN <= issued.id_token_expiry - now <= i64::MAX,
    ensures
        r@ == code_redirect_text(*auth, has_query, *issued, now as int),
{
    let implicit = is_implicit_or_hybrid(&auth.response_types);
    let mut query = String::new();
    if implicit {
        query.append("access_token=");
        query.append(issued.access_token.as_str());
        query.append("&token_type=bearer&state=");
        query.append(auth.state.as_str());
        let ghost q0 = query@;
        if issued.id_token.as_str().unicode_len() > 0 {
            query.append("&id_token=");
            query.append(issued.id_token.as_str());
            if issued.code.is_none() {
                query.append("&expires_in=");
                let expires_in = issued.id_token_expiry - now;
                let t = i64_to_text(expires_in);
                query.append(t.as_str());
            }
        }
        let ghost q1 = query@;
        match &issued.code {
            Some(id) => {
                query.append("&code=");
                query.append(id.as_str());
            },
            None => {},
        }
        assert(query@ =~= code_query(
            true,
            issued.access_token@,
            auth.state@,
            issued.id_token@,
            opt_string_view(issued.code),
            issued.id_token_expiry - now,
        ));
    } else {
        match &issued.code {
            Some(id) => {
                query.append("code=");
                query.append(id.as_str());
                query.append("&state=");
                query.append(auth.state.as_str());
            },
            None => {},
        }
        assert(query@ =~= code_query(
            false,
            issued.access_token@,
            auth.state@,
            issued.id_token@,
            opt_string_view(issued.code),
            issued.id_token_expiry - now,
        ));
    }
    let mut ru = auth.redirect_uri.clone();
    if has_query {
        ru.append("&");
    } else {
        ru.append("?");
    }
    ru.append(query.as_str());
    ru
}

/// A code-flow redirect carries the code and the state and nothing else.
pub proof fn lemma_code_flow_query(state: Seq<char>, code: Seq<char>, access: Seq<char>, id_token: Seq<char>, e: int)
    ensures
        code_query(false, access, state, id_token, Some(code), e) == "code="@ + code + "&state="@
            + state,
{
}

/// An authorization code the service keeps until the client redeems it.
#[derive(Debug)]
pub struct AuthCode {
    pub id: String,
    pub client_id: String,
    pub scopes: Vec<String>,
    pub nonce: String,
    pub redirect_uri: String,
    pub code_challenge: String,
    pub code_challenge_method: String,
    pub claim: Claim,
    pub connector_id: String,
    pub connector_data: Option<String>,
    /// When the code expires, in seconds since the Unix epoch.
    pub expiry: i64,
}

/// Whether `c` is the authorization code with the id `id` issued at `now`
/// for the finished request `a`: it carries the request's client, scopes,
/// nonce, redirect URI, challenge and identity, and expires 30 minutes
/// later.
pub open spec fn is_auth_code_for(c: AuthCode, a: StoredAuthRequest, id: Seq<char>, now: int) -> bool {
    &&& c.id@ == id
    &&& c.client_id == a.client_id
    &&& c.scopes@ == a.scopes@
    &&& c.nonce == a.nonce
    &&& c.redirect_uri == a.redirect_uri
    &&& c.code_challenge == a.code_challenge
    &&& c.code_challenge_method == a.code_challenge_method
    &&& c.claim == a.claim
    &&& c.connector_id == a.connector_id
    &&& c.connector_data == a.connector_data
    &&& c.expiry == now + 30 * 60
}

/// The authorization code with the id `id` issued at `now` (seconds since
/// the Unix epoch) for the finished request `a`.
pub fn auth_code_for(a: &StoredAuthRequest, id: String, now: i64) -> (r: AuthCode)
    requires
        now + 30 * 60 <= i64::MAX,
    ensures
        is_auth_code_for(r, *a, id@, now as int),
{
    AuthCode {
        id,
        client_id: a.client_id.clone(),
        scopes: clone_strings(&a.scopes),
        nonce: a.nonce.clone(),
        redirect_uri: a.redirect_uri.clone(),
        code_challenge: a.code_challenge.clone(),
        code_challenge_method: a.code_challenge_method.clone(),
        claim: a.claim.clone(),
        connector_id: a.connector_id.clone(),
        connector_data: clone_opt_string(&a.connector_data),
        expiry: now + 30 * 60,
    }
}

/// A new authorization code for the finished request `a`, issued at `now`:
/// its id is a fresh UUID.
pub fn new_auth_code(a: &StoredAuthRequest, now: i64) -> (r: AuthCode)
    requires
        now + 30 * 60 <= i64::MAX,
    ensures
        is_v4_uuid_text(r.id@),
        is_auth_code_for(r, *a, r.id@, now as int),
{
    auth_code_for(a, new_uuid(), now)
}

/// The claims of the tokens a redirect carries for the finished request
/// `a`: its identity and nonce, for its client.
pub fn redirect_claims(a: &StoredAuthRequest) -> (r: Claims)
    ensures
        r.claim == a.claim,
        r.nonce == a.nonce,
        r.aud == a.client_id,
        r.exp == 0,
        r.nbf == 0,
        r.iss@.len() == 0,
        r.access_token is None,
{
    Claims {
        aud: a.client_id.clone(),
        exp: 0,
        nbf: 0,
        iss: String::new(),
        nonce: a.nonce.clone(),
        access_token: None,
        claim: a.claim.clone(),
    }
}

} // verus!
