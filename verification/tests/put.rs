use cim::errors::{not_found, Code};
use cim::put::{put_policy, put_role, PolicyContent, PolicyPut, RoleContent, RolePut};

fn policy() -> PolicyContent {
    PolicyContent { account_id: Some("7".to_owned()), desc: "d".to_owned(), version: "v1.0.0".to_owned(), statement: Vec::new() }
}

fn role() -> RoleContent {
    RoleContent { account_id: "7".to_owned(), name: "admin".to_owned(), desc: "d".to_owned() }
}

#[test]
fn putting_policies_updates_or_creates() {
    match put_policy(Ok(true), "p1".to_owned(), policy()).unwrap() {
        PolicyPut::Update { id, account_id, opts } => {
            assert_eq!((id.as_str(), account_id), ("p1", Some("7".to_owned())));
            assert_eq!((opts.desc, opts.version, opts.unscoped), (Some("d".to_owned()), Some("v1.0.0".to_owned()), Some(true)));
            assert_eq!(opts.statement.map(|s| s.len()), Some(0));
        }
        other => panic!("{:?}", other),
    }
    match put_policy(Ok(false), "p1".to_owned(), policy()).unwrap() {
        PolicyPut::Create { id, content } => assert_eq!((id.as_str(), content.desc.as_str()), ("p1", "d")),
        other => panic!("{:?}", other),
    }
    let e = put_policy(Err(not_found("store")), "p1".to_owned(), policy()).unwrap_err();
    assert!(matches!(e.source(), Code::NotFound(m) if m == "store"));
}

#[test]
fn putting_roles_updates_or_creates() {
    match put_role(Ok(true), "r1".to_owned(), role()).unwrap() {
        RolePut::Update { id, account_id, opts } => {
            assert_eq!((id.as_str(), account_id), ("r1", Some("7".to_owned())));
            assert_eq!((opts.name, opts.desc, opts.unscoped), (Some("admin".to_owned()), Some("d".to_owned()), Some(true)));
        }
        other => panic!("{:?}", other),
    }
    match put_role(Ok(false), "r1".to_owned(), role()).unwrap() {
        RolePut::Create { id, content } => assert_eq!((id.as_str(), content.name.as_str()), ("r1", "admin")),
        other => panic!("{:?}", other),
    }
    assert!(put_role(Err(not_found("store")), "r1".to_owned(), role()).is_err());
}
