use cim::core_errors::{self, parse_status, status_of_code, Message};
use cim::errors::{any, bad_request, forbidden, not_found, unauthorized, validates, with, Code};

#[test]
fn slo_codes_have_status_and_identifier() {
    assert_eq!(any("x").source().code(), (500, "1010001"));
    assert_eq!(not_found("x").source().code(), (404, "1010002"));
    assert_eq!(unauthorized().source().code(), (401, "1010003"));
    assert_eq!(validates("x").source().code(), (422, "1010004"));
    assert_eq!(forbidden("x").source().code(), (403, "1010005"));
    assert_eq!(bad_request("x").source().code(), (400, "1010006"));
}

#[test]
fn slo_messages() {
    assert_eq!(any("boom").to_text(), "boom");
    assert_eq!(not_found("user").to_text(), "Not found. user");
    assert_eq!(forbidden("no").to_text(), "Forbidden. no");
    assert_eq!(unauthorized().to_text(), "Authentication is required to access this resource");
    assert_eq!(validates("name").to_text(), "Please recheck the request.see: name");
    assert_eq!(bad_request("bad").to_text(), "Please recheck the request.see: bad");
}

#[test]
fn slo_response_body() {
    let (status, body) = not_found("user \"7\"").response_parts();
    assert_eq!(status, 404);
    assert_eq!(body, "{\"code\":\"1010002\",\"message\":\"Not found. user \\\"7\\\"\"}");
    let (status, body) = unauthorized().response_parts();
    assert_eq!(status, 401);
    assert_eq!(
        body,
        "{\"code\":\"1010003\",\"message\":\"Authentication is required to access this resource\"}"
    );
}

#[test]
fn slo_errors_compare_by_kind() {
    assert!(not_found("a").same_code(&not_found("b")));
    assert!(!not_found("a").same_code(&forbidden("a")));
    let e = with(Code::BadRequest("x".to_owned()));
    assert!(matches!(e.into_code(), Code::BadRequest(m) if m == "x"));
}

#[test]
fn core_codes_and_statuses() {
    assert_eq!(core_errors::Code::any("x").code(), "Cim.500.1010001");
    assert_eq!(core_errors::Code::not_found("x").code(), "Cim.404.1010002");
    assert_eq!(core_errors::Code::forbidden("x").code(), "Cim.403.1010005");
    assert_eq!(core_errors::Code::bad_request("x").code(), "Cim.400.1010006");
    assert_eq!(core_errors::Code::not_found("user").message(), "Not found. user");
}

#[test]
fn core_response_parts() {
    let e = core_errors::WithBacktrace::with(core_errors::Code::forbidden("no"));
    let (status, body) = e.response_parts();
    assert_eq!(status, 403);
    assert_eq!(body, "{\"code\":\"Cim.403.1010005\",\"message\":\"Forbidden. no\"}");
    let a = core_errors::WithBacktrace::with(core_errors::Code::any("a"));
    let b = core_errors::WithBacktrace::with(core_errors::Code::any("b"));
    assert!(a.same_code(&b));
    assert!(!a.same_code(&e));
}

#[test]
fn status_text_parsing() {
    assert_eq!(parse_status("404"), Some(404));
    assert_eq!(parse_status("999"), Some(999));
    assert_eq!(parse_status("099"), None);
    assert_eq!(parse_status("40"), None);
    assert_eq!(parse_status("4a4"), None);
    assert_eq!(status_of_code("Cim.404.1010002"), Ok(404));
    assert_eq!(status_of_code("Cim.404"), Err("code's lenght isn't 3".to_owned()));
    assert_eq!(status_of_code("Cim.x04.1"), Err("invalid status code".to_owned()));
}

#[test]
fn messages_for_errors() {
    let m = Message::from_error(core_errors::Code::Any("db down".to_owned()));
    assert_eq!(m.code, "CIM.500.1010001");
    assert_eq!(m.message, "Internal Server Error");
    assert_eq!(m.result, Some("db down".to_owned()));
    assert!(matches!(m.status_code(), Ok(500)));
    let m = Message::from_error(core_errors::Code::BadRequest("bad".to_owned()));
    assert_eq!(m.code, "CIM.400.1010007");
    assert_eq!(m.message, "bad");
    assert_eq!(m.result, None);
    assert!(matches!(m.status_code(), Ok(400)));
    let m = Message::from_error(core_errors::Code::Unauthorized);
    assert_eq!(m.code, "CIM.401.1010004");
    assert!(matches!(m.status_code(), Ok(401)));
    let odd = Message { code: "CIM".to_owned(), message: String::new(), result: None };
    assert!(matches!(odd.status_code(), Err(core_errors::Code::Any(t)) if t == "code's lenght isn't 3"));
}

#[test]
fn errors_equal_by_kind() {
    assert!(not_found("a") == not_found("b"));
    assert!(not_found("a") != forbidden("a"));
    let a = core_errors::WithBacktrace::with(core_errors::Code::any("a"));
    let b = core_errors::WithBacktrace::with(core_errors::Code::any("b"));
    let c = core_errors::WithBacktrace::with(core_errors::Code::bad_request("b"));
    assert!(a == b);
    assert!(a != c);
}

#[test]
fn codes_convert_to_errors_and_back() {
    let e: cim::errors::WithBacktrace = Code::NotFound("user".to_owned()).into();
    assert_eq!(e.to_text(), "Not found. user");
    let c: Code = e.into();
    assert!(matches!(c, Code::NotFound(m) if m == "user"));
    let core: core_errors::WithBacktrace = core_errors::Code::forbidden("x").into();
    assert_eq!(core.response_parts().0, 403);
}
