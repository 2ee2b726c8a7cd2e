use resilient_fetch::fetcher::classify;
use resilient_fetch::status::{is_client_error, is_server_error};
use resilient_fetch::{Cause, FetchOutcome, Reply};

fn outcome_for(status: u16) -> FetchOutcome<&'static str> {
    classify(Reply::Response { status, response: "body" })
}

#[test]
fn success_statuses_carry_the_response() {
    assert_eq!(outcome_for(200), FetchOutcome::Success("body"));
    assert_eq!(outcome_for(204), FetchOutcome::Success("body"));
    assert_eq!(outcome_for(301), FetchOutcome::Success("body"));
    assert_eq!(outcome_for(399), FetchOutcome::Success("body"));
}

#[test]
fn client_errors_are_permanent() {
    assert_eq!(
        outcome_for(400),
        FetchOutcome::PermanentFailure(Cause::Status { code: 400 })
    );
    assert_eq!(
        outcome_for(404),
        FetchOutcome::PermanentFailure(Cause::Status { code: 404 })
    );
    assert_eq!(
        outcome_for(499),
        FetchOutcome::PermanentFailure(Cause::Status { code: 499 })
    );
}

#[test]
fn server_errors_are_transient() {
    assert_eq!(
        outcome_for(500),
        FetchOutcome::TransientFailure(Cause::Status { code: 500 })
    );
    assert_eq!(
        outcome_for(503),
        FetchOutcome::TransientFailure(Cause::Status { code: 503 })
    );
    assert_eq!(
        outcome_for(599),
        FetchOutcome::TransientFailure(Cause::Status { code: 599 })
    );
}

#[test]
fn statuses_that_report_no_error_are_successes() {
    assert_eq!(outcome_for(100), FetchOutcome::Success("body"));
    assert_eq!(outcome_for(199), FetchOutcome::Success("body"));
    assert_eq!(outcome_for(600), FetchOutcome::Success("body"));
    assert_eq!(outcome_for(999), FetchOutcome::Success("body"));
    assert_eq!(outcome_for(0), FetchOutcome::Success("body"));
    assert_eq!(outcome_for(u16::MAX), FetchOutcome::Success("body"));
}

#[test]
fn no_response_is_a_permanent_failure() {
    let reply: Reply<&str> = Reply::NoResponse {
        detail: String::from("connection refused"),
    };
    assert_eq!(
        classify(reply),
        FetchOutcome::PermanentFailure(Cause::Transport {
            detail: String::from("connection refused")
        })
    );
}

#[test]
fn every_status_code_has_exactly_one_tag() {
    let mut status: u16 = 0;
    loop {
        let outcome = outcome_for(status);
        let success = matches!(outcome, FetchOutcome::Success(_));
        let permanent = matches!(outcome, FetchOutcome::PermanentFailure(_));
        let transient = matches!(outcome, FetchOutcome::TransientFailure(_));
        assert_eq!(permanent, (400..500).contains(&status));
        assert_eq!(transient, (500..600).contains(&status));
        assert_eq!(success, !(400..600).contains(&status));
        assert_eq!(success as u8 + permanent as u8 + transient as u8, 1);
        assert_eq!(is_client_error(status), permanent);
        assert_eq!(is_server_error(status), transient);
        if status == u16::MAX {
            break;
        }
        status += 1;
    }
}
