//! Putting a policy or a role under a given id: the record that is there
//! is updated, else a new one is created under that id.

use vstd::prelude::*;

use crate::errors::WithBacktrace;
use crate::pim::Statement;

verus! {

/// What a request to put a policy gives.
#[derive(Debug)]
pub struct PolicyContent {
    pub account_id: Option<String>,
    pub desc: String,
    pub version: String,
    pub statement: Vec<Statement>,
}

/// The fields an update of a policy sets, where they are given.
#[derive(Debug)]
pub struct PolicyUpdate {
    pub desc: Option<String>,
    pub version: Option<String>,
    pub statement: Option<Vec<Statement>>,
    /// Whether the update reaches the policy whatever account it is in.
    pub unscoped: Option<bool>,
}

/// What putting a policy writes.
#[derive(Debug)]
pub enum PolicyPut {
    /// Update the policy `id` of the account `account_id`.
    Update { id: String, account_id: Option<String>, opts: PolicyUpdate },
    /// Create the policy `content` under the id `id`.
    Create { id: String, content: PolicyContent },
}

/// Puts the policy `content` under the id `id`, given whether the store
/// found a policy with that id (in any account): a failed lookup is passed
/// on; a found policy is updated, with every field given and unscoped; else
/// the policy is created under `id`.
pub fn put_policy(found: Result<bool, WithBacktrace>, id: String, content: PolicyContent) -> (r:
    Result<PolicyPut, WithBacktrace>)
    ensures
        match found {
            Err(e) => r == Err::<PolicyPut, WithBacktrace>(e),
            Ok(true) => r matches Ok(PolicyPut::Update { id: i, account_id, opts }) && i == id
                && account_id == content.account_id && opts.desc == Some(content.desc)
                && opts.version == Some(content.version) && opts.statement == Some(content.statement)
                && opts.unscoped == Some(true),
            Ok(false) => r == Ok::<PolicyPut, WithBacktrace>(PolicyPut::Create { id, content }),
        },
{
    if found? {
        Ok(
            PolicyPut::Update {
                id,
                account_id: content.account_id,
                opts: PolicyUpdate {
                    desc: Some(content.desc),
                    version: Some(content.version),
                    statement: Some(content.statement),
                    unscoped: Some(true),
                },
            },
        )
    } else {
        Ok(PolicyPut::Create { id, content })
    }
}

/// What a request to put a role gives.
#[derive(Debug)]
pub struct RoleContent {
    pub account_id: String,
    pub name: String,
    pub desc: String,
}

/// The fields an update of a role sets, where they are given.
#[derive(Debug)]
pub struct RoleUpdate {
    pub name: Option<String>,
    pub desc: Option<String>,
    /// Whether the update reaches the role whatever account it is in.
    pub unscoped: Option<bool>,
}

/// What putting a role writes.
#[derive(Debug)]
pub enum RolePut {
    /// Update the role `id` of the account `account_id`.
    Update { id: String, account_id: Option<String>, opts: RoleUpdate },
    /// Create the role `content` under the id `id`.
    Create { id: String, content: RoleContent },
}

/// Puts the role `content` under the id `id`, given whether the store
/// found a role with that id (in any account): a failed lookup is passed
/// on; a found role is updated, with its name and description, unscoped;
/// else the role is created under `id`.
pub fn put_role(found: Result<bool, WithBacktrace>, id: String, content: RoleContent) -> (r: Result<
    RolePut,
    WithBacktrace,
>)
    ensures
        match found {
            Err(e) => r == Err::<RolePut, WithBacktrace>(e),
            Ok(true) => r matches Ok(RolePut::Update { id: i, account_id, opts }) && i == id
                && account_id == Some(content.account_id) && opts.name == Some(content.name)
                && opts.desc == Some(content.desc) && opts.unscoped == Some(true),
            Ok(false) => r == Ok::<RolePut, WithBacktrace>(RolePut::Create { id, content }),
        },
{
    if found? {
        Ok(
            RolePut::Update {
                id,
                account_id: Some(content.account_id),
                opts: RoleUpdate { name: Some(content.name), desc: Some(content.desc), unscoped: Some(true) },
            },
        )
    } else {
        Ok(RolePut::Create { id, content })
    }
}

} // verus!
