//! Identity and access management core: policy conditions, OpenID Connect
//! request handling, token bookkeeping and error codes.

use vstd::prelude::*;

pub mod account;
pub mod config;
pub mod core_errors;
pub mod crypto;
pub mod errors;
pub mod job;
pub mod json;
pub mod model;
pub mod num;
pub mod oidc;
pub mod pim;
pub mod put;
pub mod regexp;
pub mod text;
pub mod valid;
pub mod web;

verus! {

} // verus!
