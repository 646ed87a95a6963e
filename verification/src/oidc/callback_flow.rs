//! Finishing a login at the connector's callback, step by step: the
//! pending authorization request and its connector are loaded, the user's
//! credentials are checked, the request records who logged in, the offline
//! session is kept where offline access was asked for, and the user is
//! then sent back to the client (see `code_flow`).
//!
//! The calls, in order: load the authorization request named by the
//! state; load its connector; load the user named by the credentials;
//! store the request; where a session is kept, list the sessions of the
//! user and connector and store the one to keep.

use vstd::prelude::*;

use crate::crypto::argon2_verify_of;
use crate::errors::{unauthorized, WithBacktrace};
use crate::model::{Connector, OfflineSession, StoredAuthRequest, User};
use crate::oidc::auth::{keeps_offline_session, record_identity};
use crate::oidc::connect::{open_connector, or_empty, ConnectorKind, UserPassword};
use crate::oidc::token::session_after_login;
use crate::text::views;

verus! {

/// The pending request and its connector are loaded; the user named
/// `user_id` is loaded next, to be checked with `password`.
#[derive(Debug)]
pub struct CallbackLogin {
    pub auth: StoredAuthRequest,
    pub user_id: String,
    pub password: String,
}

/// The request records who logged in; it is stored next. Where
/// `keeps_session` holds, the offline sessions of the user and connector
/// are listed after that.
#[derive(Debug)]
pub struct CallbackIdentified {
    pub auth: StoredAuthRequest,
    pub keeps_session: bool,
}

/// Takes the connector loaded for the request and the credentials the
/// callback carries in its Basic authorization header (`None` where it
/// has none that decodes). The request is refused as unauthorized without
/// credentials.
pub fn on_connector(
    auth: StoredAuthRequest,
    connector: Result<Connector, WithBacktrace>,
    credentials: Option<(String, String)>,
) -> (r: Result<CallbackLogin, WithBacktrace>)
    requires
        connector matches Ok(c) ==> c.connector_type@ != "mockCallback"@,
    ensures
        match connector {
            Err(e) => r == Err::<CallbackLogin, WithBacktrace>(e),
            Ok(c) => {
                let t = c.connector_type@;
                if t != "cim"@ && t != "local"@ {
                    r is Err && r->Err_0.spec_source() is BadRequest
                        && r->Err_0.spec_source()->BadRequest_0@ == "unsupported connector type"@
                } else {
                    match credentials {
                        None => r is Err && r->Err_0.spec_source() is Unauthorized,
                        Some((u, p)) => r matches Ok(n) && n.auth == auth && n.user_id == u
                            && n.password == p,
                    }
                }
            },
        },
{
    let c = connector?;
    match open_connector(Some(c.connector_type.as_str())) {
        Ok(ConnectorKind::UserPassword) => {},
        Ok(ConnectorKind::MockCallback) => {
            proof {
                reveal_strlit("mockCallback");
            }
            assert(false);
            return Err(unauthorized());
        },
        Err(e) => return Err(e),
    }
    match credentials {
        None => Err(unauthorized()),
        Some((user_id, password)) => Ok(CallbackLogin { auth, user_id, password }),
    }
}

/// Checks the password against the user `user` loaded for the name, and
/// records the identity on the request. The password connector refreshes
/// identities, so a session is kept exactly where the request asks for
/// offline access.
pub fn on_user(s: CallbackLogin, user: Result<User, WithBacktrace>) -> (r: Result<
    CallbackIdentified,
    WithBacktrace,
>)
    ensures
        match user {
            Err(e) => r == Err::<CallbackIdentified, WithBacktrace>(e),
            Ok(u) => match argon2_verify_of(or_empty(u.password), s.password@, or_empty(u.secret)) {
                Some(true) => r matches Ok(n) && {
                    &&& n.auth.claim.sub == u.id && n.auth.claim.opts == u.claim
                    &&& n.auth.connector_data is None
                    &&& n.auth.id == s.auth.id && n.auth.client_id == s.auth.client_id
                    &&& n.auth.connector_id == s.auth.connector_id
                    &&& n.auth.scopes == s.auth.scopes && n.auth.state == s.auth.state
                    &&& n.auth.redirect_uri == s.auth.redirect_uri
                    &&& n.auth.expiry == s.auth.expiry && n.auth.logged_in == s.auth.logged_in
                    &&& n.keeps_session == views(s.auth.scopes@).contains("offline_access"@)
                },
                Some(false) => r is Err && r->Err_0.spec_source() is NotFound
                    && r->Err_0.spec_source()->NotFound_0@ == "user"@,
                None => r is Err && r->Err_0.spec_source() is Any,
            },
        },
{
    let u = user?;
    let connector: UserPassword<()> = UserPassword::new(());
    let identity = connector.check_login(&u, s.password.as_str())?;
    let mut auth = s.auth;
    record_identity(&mut auth, &identity);
    let keeps_session = keeps_offline_session(&auth, connector.support_refresh());
    Ok(CallbackIdentified { auth, keeps_session })
}

/// Once the request is stored, the session to store, from the sessions
/// listed for the user and connector (the first is used; a new one gets
/// the id `new_id`): `None` where there is nothing to store.
pub fn on_sessions(
    s: &CallbackIdentified,
    sessions: Result<Vec<OfflineSession>, WithBacktrace>,
    new_id: String,
) -> (r: Result<Option<OfflineSession>, WithBacktrace>)
    ensures
        match sessions {
            Err(e) => r == Err::<Option<OfflineSession>, WithBacktrace>(e),
            Ok(v) => if v@.len() == 0 {
                r matches Ok(Some(n)) && n.id == new_id && n.user_id@ == s.auth.claim.sub@
                    && n.conn_id@ == s.auth.connector_id@ && n.connector_data
                    == s.auth.connector_data && n.refresh@.len() == 0
            } else {
                match s.auth.connector_data {
                    Some(d) => r matches Ok(Some(n)) && n.id == v@[0].id && n.user_id
                        == v@[0].user_id && n.conn_id == v@[0].conn_id && n.refresh
                        == v@[0].refresh && n.connector_data == Some(d),
                    None => r matches Ok(None),
                }
            },
        },
{
    let mut v = sessions?;
    let existing = if v.len() == 0 {
        None
    } else {
        Some(v.remove(0))
    };
    Ok(
        session_after_login(
            existing,
            new_id,
            s.auth.claim.sub.as_str(),
            s.auth.connector_id.as_str(),
            &s.auth.connector_data,
        ),
    )
}

} // verus!
