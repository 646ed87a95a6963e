//! Connectors: where users log in. The built-in one checks a user name and
//! password against the user store.

use vstd::prelude::*;

use crate::crypto::{argon2_verify_of, verify};
use crate::errors::{bad_request, not_found, WithBacktrace};
use crate::model::{clone_opt_string, Claim, User};
use crate::text::str_eq;

verus! {

/// Who logged in, as a connector reports it.
#[derive(Debug)]
pub struct Identity {
    pub claim: Claim,
    /// Data the connector keeps for later requests, such as upstream
    /// tokens; never shown to users or clients.
    pub connector_data: Option<String>,
}

/// The kinds of connector the service can open.
#[derive(Debug)]
pub enum ConnectorKind {
    /// The built-in user name and password connector.
    UserPassword,
    /// A stand-in connector for tests.
    MockCallback,
}

/// The connector a connector record of type `connector_type` opens; the
/// built-in one where there is no record.
pub fn open_connector(connector_type: Option<&str>) -> (r: Result<ConnectorKind, WithBacktrace>)
    ensures
        match connector_type {
            None => r == Ok::<ConnectorKind, WithBacktrace>(ConnectorKind::UserPassword),
            Some(t) => if t@ == "cim"@ || t@ == "local"@ {
                r == Ok::<ConnectorKind, WithBacktrace>(ConnectorKind::UserPassword)
            } else if t@ == "mockCallback"@ {
                r == Ok::<ConnectorKind, WithBacktrace>(ConnectorKind::MockCallback)
            } else {
                r is Err && r->Err_0.spec_source() is BadRequest
                    && r->Err_0.spec_source()->BadRequest_0@ == "unsupported connector type"@
            },
        },
{
    match connector_type {
        None => Ok(ConnectorKind::UserPassword),
        Some(t) => if str_eq(t, "cim") || str_eq(t, "local") {
            Ok(ConnectorKind::UserPassword)
        } else if str_eq(t, "mockCallback") {
            Ok(ConnectorKind::MockCallback)
        } else {
            Err(bad_request("unsupported connector type"))
        },
    }
}

/// The built-in connector: users log in with their id and password.
#[derive(Debug)]
pub struct UserPassword<S> {
    store: S,
}

/// The password and secret a user is checked with (empty where unset).
pub open spec fn or_empty(o: Option<String>) -> Seq<char> {
    match o {
        Some(s) => s@,
        None => Seq::empty(),
    }
}

impl<S> UserPassword<S> {
    /// The connector over the user store `store`.
    pub fn new(store: S) -> (r: Self)
        ensures
            r.spec_store() == store,
    {
        UserPassword { store }
    }

    pub closed spec fn spec_store(&self) -> S {
        self.store
    }

    /// The user store.
    pub fn store(&self) -> (r: &S)
        ensures
            *r == self.spec_store(),
    {
        &self.store
    }

    /// The login page to send the user to.
    pub fn login_url(&self, _scopes: &Vec<String>, callback_url: &str, state: &str) -> (r: Result<
        String,
        WithBacktrace,
    >)
        ensures
            r is Ok && r->Ok_0@ == "/login?callback="@ + callback_url@ + "&state="@ + state@,
    {
        let mut s = String::from_str("/login?callback=");
        s.append(callback_url);
        s.append("&state=");
        s.append(state);
        Ok(s)
    }

    /// This connector can refresh identities.
    pub fn support_refresh(&self) -> (r: bool)
        ensures
            r,
    {
        true
    }

    /// Checks the password `password` of the user `user` as found in the
    /// store, and gives the identity of the user on success.
    pub fn check_login(&self, user: &User, password: &str) -> (r: Result<Identity, WithBacktrace>)
        ensures
            match argon2_verify_of(or_empty(user.password), password@, or_empty(user.secret)) {
                Some(true) => r is Ok && r->Ok_0.claim.sub == user.id && r->Ok_0.claim.opts
                    == user.claim && r->Ok_0.connector_data is None,
                Some(false) => r is Err && r->Err_0.spec_source() is NotFound
                    && r->Err_0.spec_source()->NotFound_0@ == "user"@,
                None => r is Err && r->Err_0.spec_source() is Any,
            },
    {
        let encoded = match &user.password {
            Some(p) => p.clone(),
            None => String::new(),
        };
        let secret = match &user.secret {
            Some(s) => s.clone(),
            None => String::new(),
        };
        let ok = verify(encoded.as_str(), password, secret.as_str())?;
        if !ok {
            return Err(not_found("user"));
        }
        Ok(
            Identity {
                claim: Claim { sub: user.id.clone(), opts: clone_opt_string(&user.claim) },
                connector_data: None,
            },
        )
    }

    /// Refreshes the identity `identity` from the user `user` found in the
    /// store for its subject.
    pub fn refresh_identity(&self, identity: &Identity, user: &User) -> (r: Result<
        Identity,
        WithBacktrace,
    >)
        ensures
            if user.id@ != identity.claim.sub@ {
                r is Err && r->Err_0.spec_source() is NotFound
                    && r->Err_0.spec_source()->NotFound_0@ == "user"@
            } else {
                r is Ok && r->Ok_0.claim.sub == user.id && r->Ok_0.claim.opts == user.claim
                    && r->Ok_0.connector_data is None
            },
    {
        if !str_eq(user.id.as_str(), identity.claim.sub.as_str()) {
            return Err(not_found("user"));
        }
        Ok(
            Identity {
                claim: Claim { sub: user.id.clone(), opts: clone_opt_string(&user.claim) },
                connector_data: None,
            },
        )
    }
}

} // verus!
