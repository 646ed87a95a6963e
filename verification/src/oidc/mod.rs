//! OpenID Connect provider logic: scopes, authorization requests, codes,
//! signing keys and refresh tokens.

pub mod auth;
pub mod callback_flow;
pub mod code;
pub mod code_flow;
pub mod connect;
pub mod discovery;
pub mod grant;
pub mod jwt;
pub mod key;
pub mod password;
pub mod password_flow;
pub mod refresh;
pub mod refresh_flow;
pub mod scope;
pub mod token;
pub mod uri;
