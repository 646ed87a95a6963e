//! The password login: its form, and finishing the login it starts.

use vstd::prelude::*;

use crate::crypto::{base64_url_nopad, base64_url_nopad_of, sha256_of, sha256_text};
use crate::model::StoredAuthRequest;
use crate::oidc::auth::length_ok;
use crate::oidc::connect::Identity;
use crate::text::{concat2, contains_string, views};
use crate::valid::char_count_within;

verus! {

/// The fields of the login form.
#[derive(Debug)]
pub struct LoginData {
    pub login: String,
    pub password: String,
}

/// The reference to an authorization request that the login pages carry.
#[derive(Debug)]
pub struct AuthReqID {
    pub state: String,
    pub prompt: Option<String>,
}

impl AuthReqID {
    /// Checks the reference's validation rules: a non-empty state, and a
    /// non-empty prompt where one is given. Gives the names of the fields
    /// that break them.
    pub fn validate(&self) -> (r: Result<(), Vec<String>>)
        ensures
            match r {
                Ok(()) => length_ok(self.state@, Some(1), None) && (self.prompt matches Some(p)
                    ==> length_ok(p@, Some(1), None)),
                Err(v) => v@.len() > 0 && views(v@) == (if length_ok(self.state@, Some(1), None) {
                    Seq::<Seq<char>>::empty()
                } else {
                    seq!["state"@]
                }) + (match self.prompt {
                    Some(p) => if length_ok(p@, Some(1), None) {
                        Seq::<Seq<char>>::empty()
                    } else {
                        seq!["prompt"@]
                    },
                    None => Seq::<Seq<char>>::empty(),
                }),
            },
    {
        let mut v: Vec<String> = Vec::new();
        if !char_count_within(self.state.as_str(), Some(1), None) {
            v.push(String::from_str("state"));
        }
        let ghost a = views(v@);
        match &self.prompt {
            Some(p) => if !char_count_within(p.as_str(), Some(1), None) {
                v.push(String::from_str("prompt"));
            },
            None => {},
        }
        assert(views(v@) =~= a + (match self.prompt {
            Some(p) => if length_ok(p@, Some(1), None) {
                Seq::<Seq<char>>::empty()
            } else {
                seq!["prompt"@]
            },
            None => Seq::<Seq<char>>::empty(),
        }));
        if v.len() == 0 {
            Ok(())
        } else {
            Err(v)
        }
    }
}

/// The approval page of an authorization request: its id, signed with the
/// URL-safe base64 of the SHA-256 digest of the request's key followed by
/// its id.
pub open spec fn approval_url_of(a: StoredAuthRequest) -> Seq<char> {
    "/approval?req="@ + a.id@ + "&hmac="@ + base64_url_nopad_of(sha256_of(a.hmac_key@ + a.id@))
}

/// The approval page of the authorization request `a`.
pub fn approval_url(a: &StoredAuthRequest) -> (r: String)
    ensures
        r@ == approval_url_of(*a),
{
    let keyed = concat2(a.hmac_key.as_str(), a.id.as_str());
    let digest = sha256_text(keyed.as_str());
    let mut url = String::from_str("/approval?req=");
    url.append(a.id.as_str());
    url.append("&hmac=");
    let sig = base64_url_nopad(&digest);
    url.append(sig.as_str());
    url
}

/// Where a finished login goes on.
#[derive(Debug)]
pub enum FinalizeStep {
    /// The login is done: no approval is needed.
    Done,
    /// The user is sent to the approval page.
    Approve(String),
    /// The user is sent to the approval page, once the offline session of
    /// the login has been saved.
    ApproveAndSaveSession(String),
}

/// Records the identity that logged in on the authorization request, and
/// says where the login goes on.
pub fn finalize_login(auth_req: &mut StoredAuthRequest, identity: &Identity, is_refresh: bool) -> (r:
    FinalizeStep)
    ensures
        final(auth_req).logged_in,
        final(auth_req).claim == identity.claim,
        final(auth_req).connector_data == identity.connector_data,
        final(auth_req).id == old(auth_req).id,
        final(auth_req).connector_id == old(auth_req).connector_id,
        final(auth_req).expiry == old(auth_req).expiry,
        final(auth_req).client_id == old(auth_req).client_id,
        final(auth_req).response_types == old(auth_req).response_types,
        final(auth_req).scopes == old(auth_req).scopes,
        final(auth_req).redirect_uri == old(auth_req).redirect_uri,
        final(auth_req).code_challenge == old(auth_req).code_challenge,
        final(auth_req).code_challenge_method == old(auth_req).code_challenge_method,
        final(auth_req).nonce == old(auth_req).nonce,
        final(auth_req).state == old(auth_req).state,
        final(auth_req).hmac_key == old(auth_req).hmac_key,
        final(auth_req).force_approval_prompt == old(auth_req).force_approval_prompt,
        if !old(auth_req).force_approval_prompt {
            r is Done
        } else if !is_refresh || views(old(auth_req).scopes@).contains("offline_access"@) {
            r matches FinalizeStep::Approve(u) && u@ == approval_url_of(*final(auth_req))
        } else {
            r matches FinalizeStep::ApproveAndSaveSession(u) && u@ == approval_url_of(
                *final(auth_req),
            )
        },
{
    auth_req.logged_in = true;
    auth_req.claim = identity.claim.clone();
    auth_req.connector_data = crate::model::clone_opt_string(&identity.connector_data);
    if !auth_req.force_approval_prompt {
        return FinalizeStep::Done;
    }
    let url = approval_url(auth_req);
    if !is_refresh {
        return FinalizeStep::Approve(url);
    }
    if contains_string(&auth_req.scopes, "offline_access") {
        return FinalizeStep::Approve(url);
    }
    FinalizeStep::ApproveAndSaveSession(url)
}

} // verus!
