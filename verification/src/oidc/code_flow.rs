//! Sending the user back to the client after a login, step by step: the
//! request's response types are handled in order, an authorization code
//! stored for each `code` and an access and an ID token signed for each
//! `id_token`, and the redirect is built from the last of each.
//!
//! The calls, in order: [`start`] refuses a login that has expired, and
//! only then is the authorization request deleted; [`on_deleted`] takes
//! the outcome; then, as [`CodeFlow::advance`] asks, store a code or sign
//! claims, reporting each outcome back, until it gives the redirect.

use vstd::prelude::*;

use crate::errors::WithBacktrace;
use crate::model::StoredAuthRequest;
use crate::oidc::code::{
    check_session, code_redirect, code_redirect_text, implicit_or_hybrid, is_auth_code_for, new_auth_code,
    redirect_claims, redirect_has_query, AuthCode, IssuedTokens,
};
use crate::oidc::token::Claims;
use crate::oidc::uri::{uri_error_text_of, uri_parses, uri_query_of};
use crate::text::{str_eq, views};

verus! {

/// What the flow waits for.
#[derive(Debug)]
pub enum CodeStage {
    /// Nothing: the next response type can be handled.
    Ready,
    /// The outcome of storing the code just issued.
    StoringCode,
    /// The signed access token of the claims just handed out.
    SigningAccess,
    /// The signed ID token of the claims just handed out.
    SigningId,
}

/// A redirect being prepared for the finished request `auth`, at `now`
/// (seconds since the Unix epoch). The response types before `next` are
/// handled, and `issued` holds what they issued.
#[derive(Debug)]
pub struct CodeFlow {
    pub auth: StoredAuthRequest,
    pub has_query: bool,
    pub now: i64,
    pub next: usize,
    pub issued: IssuedTokens,
    pub stage: CodeStage,
}

/// What the flow asks for next.
#[derive(Debug)]
pub enum CodeAction {
    /// Store this authorization code.
    StoreCode(AuthCode),
    /// Sign these claims.
    Sign(Claims),
    /// Send the user to this URI: the flow is done.
    Redirect(String),
}

/// The first response type at or after `from` that issues something: a
/// code or an ID token (the length where there is none).
pub open spec fn next_issuing(types: Seq<Seq<char>>, from: int) -> int
    decreases types.len() - from,
{
    if from >= types.len() {
        types.len() as int
    } else if types[from] == "code"@ || types[from] == "id_token"@ {
        from
    } else {
        next_issuing(types, from + 1)
    }
}

/// A finished request whose login has not run out: it is to be deleted
/// next.
#[derive(Debug)]
pub struct CodeDelete {
    pub auth: StoredAuthRequest,
    pub now: i64,
}

/// Starts sending the user back for the finished request `auth` at `now`
/// (seconds since the Unix epoch): a login that has run out is refused,
/// and nothing is deleted; else the request is to be deleted next.
pub fn start(auth: StoredAuthRequest, now: i64) -> (r: Result<CodeDelete, WithBacktrace>)
    ensures
        now > auth.expiry ==> r is Err && r->Err_0.spec_source() is BadRequest
            && r->Err_0.spec_source()->BadRequest_0@ == "User session has expired."@,
        now <= auth.expiry ==> (r matches Ok(d) && d.auth == auth && d.now == now),
{
    check_session(now, auth.expiry)?;
    Ok(CodeDelete { auth, now })
}

/// The flow after deleting the request (with outcome `deleted`): it reads
/// the redirect URI, which must parse, and starts with nothing issued.
pub fn on_deleted(d: CodeDelete, deleted: Result<(), WithBacktrace>) -> (r: Result<
    CodeFlow,
    WithBacktrace,
>)
    ensures
        ({
            let auth = d.auth;
            let now = d.now;
            match deleted {
            Err(e) => r == Err::<CodeFlow, WithBacktrace>(e),
            Ok(()) => if uri_parses(auth.redirect_uri@) {
                r matches Ok(f) && f.auth == auth && f.now == now && f.has_query == (uri_query_of(
                    auth.redirect_uri@,
                ) is Some) && f.next == 0 && f.stage is Ready && f.issued.code is None
                    && f.issued.access_token@.len() == 0 && f.issued.id_token@.len() == 0
                    && f.issued.id_token_expiry == 0
            } else {
                r is Err && r->Err_0.spec_source() is BadRequest
                    && r->Err_0.spec_source()->BadRequest_0@ == "Invalid redirect_uri. "@
                    + uri_error_text_of(auth.redirect_uri@)
            },
        }
        }),
{
    let auth = d.auth;
    let now = d.now;
    deleted?;
    let has_query = redirect_has_query(auth.redirect_uri.as_str())?;
    Ok(
        CodeFlow {
            auth,
            has_query,
            now,
            next: 0,
            issued: IssuedTokens {
                code: None,
                access_token: String::new(),
                id_token: String::new(),
                id_token_expiry: 0,
            },
            stage: CodeStage::Ready,
        },
    )
}

impl CodeFlow {
    /// Handles the response types from `next` on up to the first that
    /// issues something, and asks for it: a fresh authorization code to
    /// store for `code`, the claims of the request to sign for `id_token`.
    /// Past the last one, gives the redirect.
    pub fn advance(&mut self) -> (r: CodeAction)
        requires
            old(self).stage is Ready,
            old(self).next <= old(self).auth.response_types@.len(),
            old(self).now + 30 * 60 <= i64::MAX,
            implicit_or_hybrid(views(old(self).auth.response_types@)) && old(
                self,
            ).issued.id_token@.len() > 0 && old(self).issued.code is None ==> i64::MIN <= old(
                self,
            ).issued.id_token_expiry - old(self).now <= i64::MAX,
        ensures
            ({
                let types = views(old(self).auth.response_types@);
                let k = next_issuing(types, old(self).next as int);
                &&& final(self).auth == old(self).auth
                &&& final(self).has_query == old(self).has_query
                &&& final(self).now == old(self).now
                &&& if k == types.len() {
                    &&& r matches CodeAction::Redirect(u) && u@ == code_redirect_text(
                        old(self).auth,
                        old(self).has_query,
                        old(self).issued,
                        old(self).now as int,
                    )
                    &&& final(self).next == types.len()
                    &&& final(self).stage is Ready
                    &&& final(self).issued == old(self).issued
                } else if types[k] == "code"@ {
                    &&& r matches CodeAction::StoreCode(c) && c.id@.len() == 36 && is_auth_code_for(
                        c,
                        old(self).auth,
                        c.id@,
                        old(self).now as int,
                    ) && final(self).issued.code == Some(c.id)
                    &&& final(self).next == k + 1
                    &&& final(self).stage is StoringCode
                    &&& final(self).issued.access_token == old(self).issued.access_token
                    &&& final(self).issued.id_token == old(self).issued.id_token
                    &&& final(self).issued.id_token_expiry == old(self).issued.id_token_expiry
                } else {
                    &&& r matches CodeAction::Sign(cl) && cl.claim == old(self).auth.claim
                        && cl.nonce == old(self).auth.nonce && cl.aud == old(self).auth.client_id
                        && cl.exp == 0 && cl.nbf == 0 && cl.iss@.len() == 0
                        && cl.access_token is None
                    &&& final(self).next == k + 1
                    &&& final(self).stage is SigningAccess
                    &&& final(self).issued == old(self).issued
                }
            }),
    {
        let ghost types = views(self.auth.response_types@);
        while self.next < self.auth.response_types.len()
            invariant_except_break
                self.next <= self.auth.response_types@.len(),
                types == views(self.auth.response_types@),
                next_issuing(types, self.next as int) == next_issuing(types, old(self).next as int),
                self.auth == old(self).auth,
                self.has_query == old(self).has_query,
                self.now == old(self).now,
                self.issued == old(self).issued,
                self.stage is Ready,
            ensures
                self.next <= self.auth.response_types@.len(),
                types == views(self.auth.response_types@),
                next_issuing(types, self.next as int) == next_issuing(types, old(self).next as int),
                self.auth == old(self).auth,
                self.has_query == old(self).has_query,
                self.now == old(self).now,
                self.issued == old(self).issued,
                self.stage is Ready,
                next_issuing(types, self.next as int) == self.next,
            decreases self.auth.response_types@.len() - self.next,
        {
            let t = self.auth.response_types[self.next].as_str();
            if str_eq(t, "code") || str_eq(t, "id_token") {
                break;
            }
            self.next = self.next + 1;
        }
        if self.next == self.auth.response_types.len() {
            let u = code_redirect(&self.auth, self.has_query, &self.issued, self.now);
            return CodeAction::Redirect(u);
        }
        let is_code = str_eq(self.auth.response_types[self.next].as_str(), "code");
        self.next = self.next + 1;
        if is_code {
            let c = new_auth_code(&self.auth, self.now);
            self.issued.code = Some(c.id.clone());
            self.stage = CodeStage::StoringCode;
            CodeAction::StoreCode(c)
        } else {
            self.stage = CodeStage::SigningAccess;
            CodeAction::Sign(redirect_claims(&self.auth))
        }
    }

    /// Takes the outcome of storing the code.
    pub fn on_code_stored(&mut self, stored: Result<(), WithBacktrace>) -> (r: Result<
        (),
        WithBacktrace,
    >)
        requires
            old(self).stage is StoringCode,
        ensures
            r == stored,
            final(self).stage is Ready,
            final(self).auth == old(self).auth && final(self).has_query == old(self).has_query,
            final(self).now == old(self).now && final(self).next == old(self).next,
            final(self).issued == old(self).issued,
    {
        self.stage = CodeStage::Ready;
        stored
    }

    /// Takes a signed token: the access token, after which the same claims
    /// with the access token are handed out to sign the ID token; or the ID
    /// token and its expiry.
    pub fn on_signed(&mut self, claims: Claims, signed: Result<(String, i64), WithBacktrace>) -> (r:
        Result<Option<Claims>, WithBacktrace>)
        requires
            old(self).stage is SigningAccess || old(self).stage is SigningId,
        ensures
            final(self).auth == old(self).auth && final(self).has_query == old(self).has_query,
            final(self).now == old(self).now && final(self).next == old(self).next,
            final(self).issued.code == old(self).issued.code,
            match signed {
                Err(e) => r == Err::<Option<Claims>, WithBacktrace>(e),
                Ok((t, exp)) => if old(self).stage is SigningAccess {
                    &&& r matches Ok(Some(c)) && c.access_token == Some(t) && c.claim
                        == claims.claim && c.nonce == claims.nonce && c.aud == claims.aud
                        && c.iss == claims.iss && c.exp == claims.exp && c.nbf == claims.nbf
                    &&& final(self).issued.access_token == t
                    &&& final(self).issued.id_token == old(self).issued.id_token
                    &&& final(self).issued.id_token_expiry == old(self).issued.id_token_expiry
                    &&& final(self).stage is SigningId
                } else {
                    &&& r matches Ok(None)
                    &&& final(self).issued.access_token == old(self).issued.access_token
                    &&& final(self).issued.id_token == t
                    &&& final(self).issued.id_token_expiry == exp
                    &&& final(self).stage is Ready
                },
            },
    {
        let (t, exp) = signed?;
        match self.stage {
            CodeStage::SigningAccess => {
                let mut c = claims;
                c.access_token = Some(t.clone());
                self.issued.access_token = t;
                self.stage = CodeStage::SigningId;
                Ok(Some(c))
            },
            _ => {
                self.issued.id_token = t;
                self.issued.id_token_expiry = exp;
                self.stage = CodeStage::Ready;
                Ok(None)
            },
        }
    }
}

} // verus!
