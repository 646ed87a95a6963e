use cim::pim::Request;
use cim::web::{
    access_request, client_ip, account_facts, header_text, user_id_header, action_of_method, add_context, header_contains, header_eq, keys_cache_control,
    login_post_url, password_page, real_ip_candidate, resource_from_path, skip_by_id,
    skip_by_id_and_account, ws_receive_stops, Host, ListWatch, ListWatchParam, WsIncoming,
};

#[test]
fn methods_map_to_actions() {
    assert_eq!(action_of_method("POST"), "create");
    assert_eq!(action_of_method("GET"), "get");
    assert_eq!(action_of_method("PUT"), "update");
    assert_eq!(action_of_method("PATCH"), "patch");
    assert_eq!(action_of_method("DELETE"), "delete");
    assert_eq!(action_of_method("HEAD"), "");
    assert_eq!(action_of_method("get"), "");
}

#[test]
fn paths_map_to_resources() {
    assert_eq!(resource_from_path("/v1/users/7"), "crn:iam:user:7");
    assert_eq!(resource_from_path("/v1/users"), "crn:iam:user");
    assert_eq!(resource_from_path("/v1/policies/3/x"), "crn:iam:policie:3");
    assert_eq!(resource_from_path("/v1"), "crn:iam:");
    assert_eq!(resource_from_path("/v/v/v2/groups/9"), "crn:iam:group:9");
}

#[test]
fn access_requests_carry_context() {
    let r = access_request("GET", "/v1/users/7", "alice", "10.0.0.1", "http://h");
    assert_eq!(r.resource, "crn:iam:user:7");
    assert_eq!(r.action, "get");
    assert_eq!(r.subject, "alice");
    assert_eq!(
        r.context,
        vec![
            ("client_ip".to_owned(), "\"10.0.0.1\"".to_owned()),
            ("host".to_owned(), "\"http://h\"".to_owned())
        ]
    );
}

fn lookup(r: &Request, k: &str) -> Option<String> {
    r.context.iter().find(|(a, _)| a == k).map(|(_, b)| b.clone())
}

#[test]
fn added_context_replaces_facts_of_the_same_name() {
    let mut r = access_request("GET", "/v1/users/7", "alice", "10.0.0.1", "h");
    let extra = vec![
        ("host".to_owned(), "other".to_owned()),
        ("account_id".to_owned(), "42".to_owned()),
    ];
    add_context(&mut r, &extra);
    assert_eq!(r.resource, "crn:iam:user:7");
    assert_eq!(lookup(&r, "host"), Some("\"other\"".to_owned()));
    assert_eq!(lookup(&r, "account_id"), Some("\"42\"".to_owned()));
    assert_eq!(lookup(&r, "client_ip"), Some("\"10.0.0.1\"".to_owned()));
    assert_eq!(r.context.iter().filter(|(a, _)| a == "host").count(), 1);
}

#[test]
fn headers_compare_ignoring_case() {
    assert!(header_eq(Some(b"WebSocket"), "websocket"));
    assert!(!header_eq(Some(b"websockets"), "websocket"));
    assert!(!header_eq(None, "websocket"));
    assert!(header_contains(Some(b"keep-alive, Upgrade"), "upgrade"));
    assert!(!header_contains(Some(b"keep-alive"), "upgrade"));
    assert!(!header_contains(Some(&[0xff, b'u', b'p']), "up"));
}

#[test]
fn list_requests_classify() {
    let p = |w: Option<bool>| ListWatchParam { watch: w, param: 5u32 };
    assert!(matches!(
        ListWatch::classify(Some(b"websocket"), Some(b"Upgrade"), p(None)),
        ListWatch::Ws(5)
    ));
    assert!(matches!(ListWatch::classify(Some(b"websocket"), None, p(Some(true))), ListWatch::Watch(5)));
    assert!(matches!(ListWatch::classify(None, None, p(Some(false))), ListWatch::List(5)));
    assert!(matches!(ListWatch::classify(None, None, p(None)), ListWatch::List(5)));
}

#[test]
fn host_from_headers() {
    assert_eq!(Host::from_headers(Some("http://a/x"), Some("https"), Some("b"), Some("c")).host, "http://a/x");
    assert_eq!(Host::from_headers(None, Some("https"), Some("b"), Some("c")).host, "https://b");
    assert_eq!(Host::from_headers(None, None, None, Some("c:8080")).host, "http://c:8080");
}

#[test]
fn real_ip_before_the_first_comma() {
    assert_eq!(real_ip_candidate("1.2.3.4, 5.6.7.8"), "1.2.3.4");
    assert_eq!(real_ip_candidate("1.2.3.4"), "1.2.3.4");
    assert_eq!(real_ip_candidate(",x"), "");
}

#[test]
fn watch_filters() {
    assert!(!skip_by_id("7", &None));
    assert!(!skip_by_id("7", &Some("7".to_owned())));
    assert!(skip_by_id("7", &Some("8".to_owned())));
    assert!(!skip_by_id_and_account("7", "a", &None, &Some("a".to_owned())));
    assert!(skip_by_id_and_account("7", "a", &None, &Some("b".to_owned())));
    assert!(skip_by_id_and_account("7", "a", &Some("8".to_owned()), &None));
}

#[test]
fn websocket_receiver_stops_on_close_or_failure() {
    assert!(ws_receive_stops(&WsIncoming::Close));
    assert!(ws_receive_stops(&WsIncoming::Failed));
    assert!(!ws_receive_stops(&WsIncoming::Other));
    assert!(!ws_receive_stops(&WsIncoming::Ended));
}

#[test]
fn keys_cache_for_at_least_two_minutes() {
    assert_eq!(keys_cache_control(1000, 100), "max-age=900, must-revalidate");
    assert_eq!(keys_cache_control(150, 100), "max-age=120, must-revalidate");
    assert_eq!(keys_cache_control(0, 100), "max-age=120, must-revalidate");
}

#[test]
fn login_form_posts_with_state() {
    assert_eq!(login_post_url(None, "s1").unwrap(), "/callback?state=s1");
    assert_eq!(login_post_url(Some("/cb?x=1"), "s1").unwrap(), "/cb?x=1&state=s1");
    let e = login_post_url(Some("http://[::1"), "s1").unwrap_err();
    assert!(matches!(e.source(), cim::errors::Code::BadRequest(_)));
    let page = password_page(Some("/cb"), "abc", vec!["openid".to_owned()]).unwrap();
    assert_eq!(page.post_url, "/cb?state=abc");
    assert_eq!(page.scopes, vec!["openid"]);
    assert_eq!(page.username_prompt, "Enter your username");
}

#[test]
fn account_facts_for_policy_checks() {
    assert_eq!(account_facts(&Some("42".to_owned())), vec![("account_id".to_owned(), "42".to_owned())]);
    assert_eq!(account_facts(&None), Vec::<(String, String)>::new());
}

#[test]
fn header_values_as_text() {
    assert_eq!(header_text(b"alice\t1"), Some("alice\t1".to_owned()));
    assert_eq!(header_text(b""), Some(String::new()));
    assert_eq!(header_text(&[b'a', 0x7f]), None);
    assert_eq!(header_text("é".as_bytes()), None);
    assert_eq!(user_id_header(Some(b"42")).unwrap(), "42");
    assert_eq!(user_id_header(Some(&[0xff])).unwrap(), "");
    let e = user_id_header(None).unwrap_err();
    assert!(matches!(e.source(), cim::errors::Code::Forbidden(m) if m == "missing X-User-ID"));
}

#[test]
fn client_addresses() {
    assert_eq!(client_ip(Some("10.0.0.1"), Ok("127.0.0.1")).unwrap().ip, "10.0.0.1");
    assert_eq!(client_ip(None, Ok("127.0.0.1")).unwrap().ip, "127.0.0.1");
    let e = client_ip::<&str>(None, Err("missing connect info".to_owned())).unwrap_err();
    assert!(matches!(e.source(), cim::errors::Code::Any(m) if m == "missing connect info"));
}
