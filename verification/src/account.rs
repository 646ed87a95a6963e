//! Creating users: a member of an existing account, or a new account with
//! its owner, an admin group that holds the owner, a policy that allows the
//! group everything within the account, a password connector and a client.

use vstd::prelude::*;

use crate::crypto::{is_alphanumeric_ascii, random_alphanumeric_string};
use crate::errors::WithBacktrace;
use crate::model::{Client, Connector, User};
use crate::num::{decimal, u64_to_text};
use crate::pim::{Effect, JsonCondition, Statement};
use crate::text::views;

verus! {

/// What a request to create a user gives.
#[derive(Debug)]
pub struct UserContent {
    /// The account the user joins; a new account where `None`.
    pub account_id: Option<String>,
    pub desc: String,
    /// The user's claims, as JSON text, where there are any.
    pub claim: Option<String>,
    /// The encoded hash of the user's password.
    pub password: String,
}

/// A group of users within an account.
#[derive(Debug)]
pub struct Group {
    pub id: String,
    pub account_id: String,
    pub name: String,
    pub desc: String,
}

/// A user's membership of a group.
#[derive(Debug)]
pub struct GroupUser {
    pub id: String,
    pub group_id: String,
    pub user_id: String,
}

/// A stored policy.
#[derive(Debug)]
pub struct Policy {
    pub id: String,
    pub account_id: Option<String>,
    pub desc: String,
    pub version: String,
    pub statement: Vec<Statement>,
}

/// What a policy is bound to.
#[derive(Debug)]
pub enum BindingsType {
    User,
    Group,
}

/// The binding of a policy to a user or group.
#[derive(Debug)]
pub struct PolicyBinding {
    pub id: String,
    pub policy_id: String,
    pub bindings_type: BindingsType,
    pub bindings_id: String,
}

/// The ids a new account's records get.
#[derive(Debug)]
pub struct AccountIds {
    pub user: u64,
    pub group: u64,
    pub group_user: u64,
    pub policy: u64,
    pub policy_binding: u64,
    pub connector: u64,
    pub client: u64,
}

/// The records that make up a new account, in the order they are stored.
#[derive(Debug)]
pub struct AccountRecords {
    pub user: User,
    pub group: Group,
    pub group_user: GroupUser,
    pub policy: Policy,
    pub policy_binding: PolicyBinding,
    pub connector: Connector,
    pub client: Client,
}

/// The options of the condition that limits the owner's policy to the
/// account `account`: a case-sensitive match of the `account_id` context
/// value, as JSON text with its keys in order.
pub open spec fn account_condition_options(account: Seq<char>) -> Seq<char> {
    "{\"values\":[{\"equal\":true,\"ignore_case\":false,\"value\":\""@ + account + "\"}]}"@
}

/// The statement of the owner's policy of the account `account`: every
/// subject may do everything to every resource where the request's
/// `account_id` is the account.
pub open spec fn owner_statement_holds(s: Statement, account: Seq<char>) -> bool {
    &&& s.effect == Effect::Allow
    &&& views(s.subjects@) == seq!["<.*>"@]
    &&& views(s.actions@) == seq!["<.*>"@]
    &&& views(s.resources@) == seq!["<.*>"@]
    &&& s.conditions matches Some(c) && c@.len() == 1 && c@[0].0@ == "account_id"@
        && c@[0].1.jtype@ == "StringCmp"@ && c@[0].1.options@ == account_condition_options(
        account,
    )
    &&& s.meta is None
}

/// Whether `u` is the user made from `input` that joins the account
/// `account` under the id `id`.
pub open spec fn is_member_user(u: User, account: Seq<char>, id: u64, input: UserContent) -> bool {
    &&& u.id@ == decimal(id as nat)
    &&& u.account_id@ == account
    &&& u.desc == input.desc
    &&& u.claim == input.claim
    &&& u.secret is None
    &&& u.password == Some(input.password)
}

/// The user that joins the account `account_id` under the id `id`.
pub fn member_user(account_id: &str, id: u64, input: UserContent) -> (r: User)
    ensures
        is_member_user(r, account_id@, id, input),
{
    User {
        id: u64_to_text(id),
        account_id: String::from_str(account_id),
        desc: input.desc,
        claim: input.claim,
        secret: None,
        password: Some(input.password),
    }
}

fn one_string(s: &str) -> (r: Vec<String>)
    ensures
        views(r@) == seq![s@],
{
    let mut v: Vec<String> = Vec::new();
    v.push(String::from_str(s));
    assert(views(v@) =~= seq![s@]);
    v
}

/// The statement of the owner's policy of the account `account`.
fn owner_statement(account: &str) -> (r: Statement)
    ensures
        owner_statement_holds(r, account@),
{
    let mut options = String::from_str("{\"values\":[{\"equal\":true,\"ignore_case\":false,\"value\":\"");
    options.append(account);
    options.append("\"}]}");
    let mut conditions: Vec<(String, JsonCondition)> = Vec::new();
    conditions.push(
        (
            String::from_str("account_id"),
            JsonCondition { jtype: String::from_str("StringCmp"), options },
        ),
    );
    Statement {
        effect: Effect::Allow,
        subjects: one_string("<.*>"),
        actions: one_string("<.*>"),
        resources: one_string("<.*>"),
        conditions: Some(conditions),
        meta: None,
    }
}

/// Whether `r` are the records of a new account whose owner is made from
/// `input`, with the ids `ids` and the owner client's secret `secret`.
pub open spec fn is_account_records(
    r: AccountRecords,
    ids: AccountIds,
    input: UserContent,
    secret: String,
) -> bool {
    let uid = decimal(ids.user as nat);
    let gid = decimal(ids.group as nat);
    let pid = decimal(ids.policy as nat);
    &&& r.user.id@ == uid && r.user.account_id@ == uid
    &&& r.user.desc == input.desc && r.user.claim == input.claim
    &&& r.user.secret is None && r.user.password == Some(input.password)
    &&& r.group.id@ == gid && r.group.account_id@ == uid
    &&& r.group.name@ == "Admin"@ && r.group.desc@ == "Admin desc"@
    &&& r.group_user.id@ == decimal(ids.group_user as nat)
    &&& r.group_user.group_id@ == gid && r.group_user.user_id@ == uid
    &&& r.policy.id@ == pid
    &&& r.policy.account_id matches Some(a) && a@ == uid
    &&& r.policy.desc@ == "Admin"@ && r.policy.version@ == "v1.0.0"@
    &&& r.policy.statement@.len() == 1
    &&& owner_statement_holds(r.policy.statement@[0], uid)
    &&& r.policy_binding.id@ == decimal(ids.policy_binding as nat)
    &&& r.policy_binding.policy_id@ == pid
    &&& r.policy_binding.bindings_type == BindingsType::Group
    &&& r.policy_binding.bindings_id@ == gid
    &&& r.connector.id@ == decimal(ids.connector as nat)
    &&& r.connector.connector_type@ == "password"@ && r.connector.name@ == "owner"@
    &&& r.connector.response_version@ == "v1.0.0"@ && r.connector.config@ == "{}"@
    &&& r.connector.connector_data is None
    &&& r.client.id@ == decimal(ids.client as nat)
    &&& r.client.secret == secret && r.client.name@ == "owner"@
    &&& r.client.logo_url@.len() == 0 && r.client.account_id@ == uid
    &&& r.client.redirect_uris@.len() == 0 && r.client.trusted_peers@.len() == 0
}

/// The records of a new account whose owner is made from `input`, with
/// the ids `ids` and the owner client's secret `secret`.
pub fn account_records(ids: &AccountIds, input: UserContent, secret: String) -> (r: AccountRecords)
    ensures
        is_account_records(r, *ids, input, secret),
{
    let user_id = u64_to_text(ids.user);
    let group_id = u64_to_text(ids.group);
    let policy_id = u64_to_text(ids.policy);
    let user = User {
        id: user_id.clone(),
        account_id: user_id.clone(),
        desc: input.desc,
        claim: input.claim,
        secret: None,
        password: Some(input.password),
    };
    let group = Group {
        id: group_id.clone(),
        account_id: user_id.clone(),
        name: String::from_str("Admin"),
        desc: String::from_str("Admin desc"),
    };
    let group_user = GroupUser {
        id: u64_to_text(ids.group_user),
        group_id: group_id.clone(),
        user_id: user_id.clone(),
    };
    let mut statement: Vec<Statement> = Vec::new();
    statement.push(owner_statement(user_id.as_str()));
    let policy = Policy {
        id: policy_id.clone(),
        account_id: Some(user_id.clone()),
        desc: String::from_str("Admin"),
        version: String::from_str("v1.0.0"),
        statement,
    };
    let policy_binding = PolicyBinding {
        id: u64_to_text(ids.policy_binding),
        policy_id,
        bindings_type: BindingsType::Group,
        bindings_id: group_id,
    };
    let connector = Connector {
        id: u64_to_text(ids.connector),
        connector_type: String::from_str("password"),
        name: String::from_str("owner"),
        response_version: String::from_str("v1.0.0"),
        config: String::from_str("{}"),
        connector_data: None,
    };
    let client = Client {
        id: u64_to_text(ids.client),
        secret,
        name: String::from_str("owner"),
        logo_url: String::new(),
        account_id: user_id,
        redirect_uris: Vec::new(),
        trusted_peers: Vec::new(),
    };
    AccountRecords { user, group, group_user, policy, policy_binding, connector, client }
}

/// The records of a new account whose owner is made from `input`, with
/// the ids `ids`; the owner client's secret is 12 random ASCII letters and
/// digits.
pub fn new_account(ids: &AccountIds, input: UserContent) -> (r: AccountRecords)
    ensures
        exists|secret: String|
            {
                &&& secret@.len() == 12
                &&& forall|i: int| 0 <= i < 12 ==> is_alphanumeric_ascii(#[trigger] secret@[i])
                &&& #[trigger] is_account_records(r, *ids, input, secret)
            },
{
    let secret = random_alphanumeric_string(12);
    let ghost s = secret;
    let r = account_records(ids, input, secret);
    assert(is_account_records(r, *ids, input, s));
    r
}

/// What creating a user writes: the one record of a member of an existing
/// account, or the records of a new account.
#[derive(Debug)]
pub enum CreateRecords {
    Member(User),
    Account(AccountRecords),
}

/// The records that creating the user `input` writes. Where `input` names
/// an account, `account` is what reading that account's user gave: a
/// failed read is passed on and nothing is written; else the user joins
/// the account under the id `id`. Where it names none, a new account is
/// made with the ids `ids`.
pub fn create(
    input: UserContent,
    account: Option<Result<User, WithBacktrace>>,
    id: u64,
    ids: &AccountIds,
) -> (r: Result<CreateRecords, WithBacktrace>)
    requires
        (input.account_id is Some) == (account is Some),
    ensures
        match (input.account_id, account) {
            (Some(a), Some(Err(e))) => r == Err::<CreateRecords, WithBacktrace>(e),
            (Some(a), Some(Ok(_))) => r matches Ok(CreateRecords::Member(u)) && is_member_user(
                u,
                a@,
                id,
                input,
            ),
            _ => r matches Ok(CreateRecords::Account(rec)) && exists|secret: String|
                {
                    &&& secret@.len() == 12
                    &&& forall|i: int| 0 <= i < 12 ==> is_alphanumeric_ascii(#[trigger] secret@[i])
                    &&& #[trigger] is_account_records(rec, *ids, input, secret)
                },
        },
{
    match account {
        Some(Err(e)) => Err(e),
        Some(Ok(_)) => {
            let a = match &input.account_id {
                Some(a) => a.clone(),
                None => String::new(),
            };
            Ok(CreateRecords::Member(member_user(a.as_str(), id, input)))
        },
        None => Ok(CreateRecords::Account(new_account(ids, input))),
    }
}

/// In a new account, the owner belongs to the admin group, the owner's
/// policy is bound to that group, and every record belongs to the
/// owner's account.
pub proof fn lemma_owner_is_admin(
    r: AccountRecords,
    ids: AccountIds,
    input: UserContent,
    secret: String,
)
    requires
        is_account_records(r, ids, input, secret),
    ensures
        r.group_user.user_id@ == r.user.id@,
        r.group_user.group_id@ == r.group.id@,
        r.policy_binding.policy_id@ == r.policy.id@,
        r.policy_binding.bindings_type == BindingsType::Group,
        r.policy_binding.bindings_id@ == r.group.id@,
        r.user.account_id@ == r.user.id@,
        r.group.account_id@ == r.user.id@,
        r.policy.account_id matches Some(a) && a@ == r.user.id@,
        r.client.account_id@ == r.user.id@,
        owner_statement_holds(r.policy.statement@[0], r.user.id@),
{
}

} // verus!
