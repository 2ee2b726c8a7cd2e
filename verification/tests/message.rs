use resilient_fetch::status::{push_status, push_status_line};
use resilient_fetch::{Cause, MyError};

#[test]
fn status_cause_gives_code_and_reason_phrase() {
    assert_eq!(
        Cause::Status { code: 404 }.to_string(),
        "HTTP status 404 Not Found"
    );
    assert_eq!(
        Cause::Status { code: 500 }.to_string(),
        "HTTP status 500 Internal Server Error"
    );
    assert_eq!(
        Cause::Status { code: 503 }.to_string(),
        "HTTP status 503 Service Unavailable"
    );
}

#[test]
fn status_without_a_standard_phrase_gives_the_code_alone() {
    assert_eq!(Cause::Status { code: 499 }.to_string(), "HTTP status 499");
    assert_eq!(Cause::Status { code: 599 }.to_string(), "HTTP status 599");
}

#[test]
fn number_that_is_no_status_code_gives_the_number_alone() {
    assert_eq!(Cause::Status { code: 42 }.to_string(), "HTTP status 42");
    assert_eq!(Cause::Status { code: 1000 }.to_string(), "HTTP status 1000");
}

#[test]
fn transport_cause_reads_as_its_detail() {
    let cause = Cause::Transport {
        detail: String::from("error sending request: connection refused"),
    };
    assert_eq!(cause.to_string(), "error sending request: connection refused");
}

#[test]
fn cause_text_is_appended() {
    let mut text = String::from("because: ");
    Cause::Status { code: 418 }.push_text(&mut text);
    assert_eq!(text, "because: HTTP status 418 I'm a teapot");
}

#[test]
fn status_line_with_a_given_phrase() {
    let mut text = String::new();
    push_status_line(&mut text, 404, Some("Gone Fishing"));
    assert_eq!(text, "404 Gone Fishing");
    let mut bare = String::from("status ");
    push_status_line(&mut bare, 7, None);
    assert_eq!(bare, "status 7");
}

#[test]
fn status_line_with_the_standard_phrase() {
    let mut text = String::new();
    push_status(&mut text, 200);
    assert_eq!(text, "200 OK");
}

#[test]
fn permanent_error_reads_as_its_cause() {
    let error = MyError::PermanentReqwestError {
        source: Cause::Status { code: 404 },
    };
    assert_eq!(error.to_string(), "HTTP status 404 Not Found");
    let unreachable_host = MyError::PermanentReqwestError {
        source: Cause::Transport {
            detail: String::from("dns error"),
        },
    };
    assert_eq!(unreachable_host.to_string(), "dns error");
}

#[test]
fn transient_error_names_the_count_of_attempts() {
    let error = MyError::TransientReqwestError {
        tries: 3,
        source: Cause::Status { code: 500 },
    };
    assert_eq!(
        error.to_string(),
        "The request failed 3 times: HTTP status 500 Internal Server Error"
    );
    assert!(error.to_string().contains("failed 3 times"));
}

#[test]
fn transient_error_with_many_attempts() {
    let error = MyError::TransientReqwestError {
        tries: 12,
        source: Cause::Status { code: 502 },
    };
    assert_eq!(
        error.to_string(),
        "The request failed 12 times: HTTP status 502 Bad Gateway"
    );
}
