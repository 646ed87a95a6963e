use cim::pim::{
    get_pair_value, Boolean, Effect, EqualsSubject, JsonCondition, Request, ResourceContains,
    Statement, StringMatch, TimeCmp, TimeCmpInner,
};

fn request(resource: &str, subject: &str) -> Request {
    Request {
        resource: resource.to_owned(),
        action: "read".to_owned(),
        subject: subject.to_owned(),
        context: Vec::new(),
    }
}

fn strings(v: &[&str]) -> Vec<String> {
    v.iter().map(|s| s.to_string()).collect()
}

fn statement(meta: Option<&str>, account: &str) -> Statement {
    Statement {
        effect: Effect::Allow,
        subjects: strings(&["<.*>"]),
        actions: strings(&["iam:GetUser"]),
        resources: strings(&["crn:iam:user:7"]),
        conditions: Some(vec![(
            "account_id".to_owned(),
            JsonCondition { jtype: "StringCmp".to_owned(), options: account.to_owned() },
        )]),
        meta: meta.map(|m| m.to_owned()),
    }
}

#[test]
fn boolean_condition_reads_json_booleans() {
    let req = request("crn:iam:user:7", "alice");
    let yes = Boolean { value: true };
    assert!(yes.evaluate("true", &req));
    assert!(yes.evaluate("  true ", &req));
    assert!(!yes.evaluate("false", &req));
    assert!(!yes.evaluate("\"true\"", &req));
    let no = Boolean { value: false };
    assert!(no.evaluate("false", &req));
    assert!(!no.evaluate("1", &req));
}

#[test]
fn equals_subject_compares_with_the_subject() {
    let req = request("crn:iam:user:7", "alice");
    assert!(EqualsSubject.evaluate("\"alice\"", &req));
    assert!(!EqualsSubject.evaluate("\"bob\"", &req));
    assert!(!EqualsSubject.evaluate("alice", &req));
    assert!(EqualsSubject.evaluate("\"al\\u0069ce\"", &req));
}

#[test]
fn resource_contains_uses_delimiters() {
    let req = request("crn:iam:user:7", "alice");
    assert!(ResourceContains.evaluate("{\"value\":\"user\",\"delimiter\":\":\"}", &req));
    assert!(!ResourceContains.evaluate("{\"value\":\"use\",\"delimiter\":\":\"}", &req));
    assert!(ResourceContains.evaluate("{\"value\":\"use\"}", &req));
    assert!(!ResourceContains.evaluate("{\"value\":\"\"}", &req));
    assert!(!ResourceContains.evaluate("{\"delimiter\":\":\"}", &req));
    assert!(!ResourceContains.evaluate("[\"user\"]", &req));
}

#[test]
fn string_match_uses_the_regular_expression() {
    let req = request("crn:iam:user:7", "alice");
    let m = StringMatch { matches: "^a.*e$".to_owned() };
    assert!(m.evaluate("\"alice\"", &req));
    assert!(!m.evaluate("\"bob\"", &req));
    assert!(!m.evaluate("alice", &req));
    let broken = StringMatch { matches: "(".to_owned() };
    assert!(!broken.evaluate("\"(\"", &req));
}

fn cmp(symbol: &str, value: &str, format: &str, location: Option<&str>) -> TimeCmpInner {
    TimeCmpInner {
        symbol: symbol.to_owned(),
        value: value.to_owned(),
        format: format.to_owned(),
        location: location.map(|l| l.to_owned()),
    }
}

#[test]
fn time_cmp_compares_unix_times() {
    let req = request("r", "s");
    let c = TimeCmp { values: vec![cmp(">", "50", "unix", None), cmp("<=", "100", "unix", None)] };
    assert!(c.evaluate("\"100\"", &req));
    assert!(!c.evaluate("\"101\"", &req));
    assert!(!c.evaluate("\"50\"", &req));
    assert!(!c.evaluate("\"x\"", &req));
    assert!(!c.evaluate("100", &req));
}

#[test]
fn time_cmp_compares_date_times() {
    let req = request("r", "s");
    let f = "%Y-%m-%d %H:%M:%S";
    let later = TimeCmp { values: vec![cmp(">", "2024-01-01 00:00:00", f, Some("UTC"))] };
    assert!(later.evaluate("\"2024-01-02 03:04:05\"", &req));
    assert!(!later.evaluate("\"2023-12-31 23:59:59\"", &req));
    let zoned = TimeCmp { values: vec![cmp(">", "2024-01-01 00:00:00", f, Some("Asia/Shanghai"))] };
    assert!(!zoned.evaluate("\"2024-01-02 03:04:05\"", &req));
    let equal = TimeCmp { values: vec![cmp("==", "2024-01-01 00:00:00", f, None)] };
    assert!(equal.evaluate("\"2024-01-01 00:00:00\"", &req));
    let unknown = TimeCmp { values: vec![cmp("~", "2024-01-01 00:00:00", f, None)] };
    assert!(!unknown.evaluate("\"2024-01-01 00:00:00\"", &req));
}

#[test]
fn time_cmp_without_comparisons_never_holds() {
    let req = request("r", "s");
    let c = TimeCmp { values: Vec::new() };
    assert!(!c.evaluate("\"100\"", &req));
}

#[test]
fn not_equal_is_the_negation_of_equal() {
    let req = request("r", "s");
    for v in ["\"49\"", "\"50\"", "\"51\""] {
        let eq = TimeCmp { values: vec![cmp("==", "50", "unix", None)] };
        let ne = TimeCmp { values: vec![cmp("!=", "50", "unix", None)] };
        assert_eq!(ne.evaluate(v, &req), !eq.evaluate(v, &req));
    }
}

#[test]
fn statements_with_meta_compare_by_content() {
    let a = statement(Some("m"), "{}");
    let b = statement(Some("m"), "{}");
    assert!(a.equals(&b));
    assert!(b.equals(&a));
    assert!(a.equals(&a));
    let c = statement(Some("m"), "{\"x\":1}");
    assert!(!a.equals(&c));
    let d = statement(Some("other"), "{}");
    assert!(!a.equals(&d));
}

#[test]
fn statement_without_meta_equals_nothing() {
    let a = statement(None, "{}");
    let b = statement(None, "{}");
    assert!(!a.equals(&a));
    assert!(!a.equals(&b));
}

#[test]
fn statement_delimiters() {
    let a = statement(None, "{}");
    assert_eq!(a.get_start_delimiter(), '<');
    assert_eq!(a.get_end_delimiter(), '>');
}

#[test]
fn pair_value_lookup() {
    let v = vec![("a".to_owned(), "1".to_owned()), ("b".to_owned(), "2".to_owned())];
    assert_eq!(get_pair_value(&v, "b"), Some("2".to_owned()));
    assert_eq!(get_pair_value(&v, "c"), None);
}
