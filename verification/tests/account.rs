use cim::account::{account_records, create, member_user, new_account, AccountIds, BindingsType, CreateRecords, UserContent};
use cim::errors::{not_found, Code};
use cim::model::User;
use cim::pim::Effect;

fn content(account_id: Option<&str>) -> UserContent {
    UserContent {
        account_id: account_id.map(|a| a.to_owned()),
        desc: "first user".to_owned(),
        claim: Some("{\"email\":\"a@b\"}".to_owned()),
        password: "hash".to_owned(),
    }
}

fn ids() -> AccountIds {
    AccountIds { user: 11, group: 12, group_user: 13, policy: 14, policy_binding: 15, connector: 16, client: 17 }
}

#[test]
fn members_join_their_account() {
    let u = member_user("5", 42, content(Some("5")));
    assert_eq!(u.id, "42");
    assert_eq!(u.account_id, "5");
    assert_eq!(u.desc, "first user");
    assert_eq!(u.secret, None);
    assert_eq!(u.password, Some("hash".to_owned()));
}

#[test]
fn new_accounts_get_an_admin_group_policy_connector_and_client() {
    let r = account_records(&ids(), content(None), "abcdefghijkl".to_owned());
    assert_eq!((r.user.id.as_str(), r.user.account_id.as_str()), ("11", "11"));
    assert_eq!(r.user.claim, Some("{\"email\":\"a@b\"}".to_owned()));
    assert_eq!((r.group.id.as_str(), r.group.account_id.as_str()), ("12", "11"));
    assert_eq!((r.group.name.as_str(), r.group.desc.as_str()), ("Admin", "Admin desc"));
    assert_eq!((r.group_user.id.as_str(), r.group_user.group_id.as_str(), r.group_user.user_id.as_str()), ("13", "12", "11"));
    assert_eq!(r.policy.id, "14");
    assert_eq!(r.policy.account_id, Some("11".to_owned()));
    assert_eq!((r.policy.desc.as_str(), r.policy.version.as_str()), ("Admin", "v1.0.0"));
    assert_eq!(r.policy.statement.len(), 1);
    let s = &r.policy.statement[0];
    assert!(matches!(s.effect, Effect::Allow));
    assert_eq!(s.subjects, vec!["<.*>"]);
    assert_eq!(s.actions, vec!["<.*>"]);
    assert_eq!(s.resources, vec!["<.*>"]);
    let conds = s.conditions.as_ref().unwrap();
    assert_eq!(conds.len(), 1);
    assert_eq!(conds[0].0, "account_id");
    assert_eq!(conds[0].1.jtype, "StringCmp");
    assert_eq!(conds[0].1.options, "{\"values\":[{\"equal\":true,\"ignore_case\":false,\"value\":\"11\"}]}");
    let parsed: serde_json::Value = serde_json::from_str(&conds[0].1.options).unwrap();
    assert_eq!(serde_json::to_string(&parsed).unwrap(), conds[0].1.options);
    assert_eq!((r.policy_binding.id.as_str(), r.policy_binding.policy_id.as_str(), r.policy_binding.bindings_id.as_str()), ("15", "14", "12"));
    assert!(matches!(r.policy_binding.bindings_type, BindingsType::Group));
    assert_eq!((r.connector.id.as_str(), r.connector.connector_type.as_str(), r.connector.name.as_str()), ("16", "password", "owner"));
    assert_eq!((r.connector.response_version.as_str(), r.connector.config.as_str()), ("v1.0.0", "{}"));
    assert_eq!((r.client.id.as_str(), r.client.secret.as_str(), r.client.name.as_str()), ("17", "abcdefghijkl", "owner"));
    assert_eq!(r.client.account_id, "11");
}

#[test]
fn owner_clients_get_a_random_secret() {
    let a = new_account(&ids(), content(None));
    let b = new_account(&ids(), content(None));
    assert_eq!(a.client.secret.len(), 12);
    assert!(a.client.secret.chars().all(|c| c.is_ascii_alphanumeric()));
    assert_ne!(a.client.secret, b.client.secret);
    assert_eq!(a.user.id, "11");
}

fn stored_user(id: &str) -> User {
    User { id: id.to_owned(), account_id: id.to_owned(), desc: String::new(), claim: None, secret: None, password: None }
}

#[test]
fn creating_users_joins_or_makes_accounts() {
    match create(content(Some("5")), Some(Ok(stored_user("5"))), 42, &ids()).unwrap() {
        CreateRecords::Member(u) => {
            assert_eq!((u.id.as_str(), u.account_id.as_str()), ("42", "5"));
            assert_eq!(u.password, Some("hash".to_owned()));
        }
        other => panic!("{:?}", other),
    }
    let e = create(content(Some("5")), Some(Err(not_found("user not found"))), 42, &ids()).unwrap_err();
    assert!(matches!(e.source(), Code::NotFound(m) if m == "user not found"));
    match create(content(None), None, 42, &ids()).unwrap() {
        CreateRecords::Account(r) => {
            assert_eq!((r.user.id.as_str(), r.user.account_id.as_str()), ("11", "11"));
            assert_eq!(r.client.secret.len(), 12);
            assert!(r.client.secret.chars().all(|c| c.is_ascii_alphanumeric()));
        }
        other => panic!("{:?}", other),
    }
}
