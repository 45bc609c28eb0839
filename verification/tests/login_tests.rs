use upjar::login::{login_error, login_error_json, login_outcome, LoginError, LoginReply};
use upjar::schemas::{JSessionId, LoginResponseBody, Root};

#[test]
fn login_error_json_frames_both_fields() {
    let e = LoginError { message: String::from("m"), ret_body: String::from("b") };
    assert_eq!(login_error_json(&e), "{\"message\":\"m\",\"retBody\":\"b\"}");
}

#[test]
fn login_error_json_escapes_text() {
    let e = LoginError { message: String::from("a\"b\\c\nd"), ret_body: String::new() };
    assert_eq!(login_error_json(&e), "{\"message\":\"a\\\"b\\\\c\\nd\",\"retBody\":\"\"}");
}

#[test]
fn login_error_carries_the_text_twice() {
    let e = login_error(&String::from("relative URL without a base"));
    assert_eq!(e.message, "relative URL without a base");
    assert_eq!(e.ret_body, "relative URL without a base");
}

#[test]
fn login_outcome_unreachable() {
    let r = login_outcome(&LoginReply::Unreachable(String::from("connection refused")));
    let e = r.unwrap_err();
    assert_eq!(e.message, "connection refused");
    assert_eq!(e.ret_body, "connection refused");
}

#[test]
fn login_outcome_undecodable_answer() {
    let r = login_outcome(&LoginReply::Answered {
        body: String::from("<html>"),
        root: Err(String::from("expected value at line 1 column 1")),
    });
    let e = r.unwrap_err();
    assert_eq!(e.message, "expected value at line 1 column 1");
    assert_eq!(e.ret_body, "<html>");
}

#[test]
fn login_outcome_session_token() {
    let root = Root {
        response_body: LoginResponseBody { jsessionid: JSessionId { field: String::from("ABC123") } },
    };
    let r = login_outcome(&LoginReply::Answered { body: String::from("{}"), root: Ok(root) });
    assert_eq!(r.unwrap(), "ABC123");
}
