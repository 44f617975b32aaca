use cors_fixture::classifier::{
    handler, BODY_OK, MESSAGE_INTERNAL_SERVER_ERROR, MESSAGE_NOT_FOUND, USAGE,
};
use cors_fixture::outcome::{AppError, FailureKind, Reply};

#[test]
fn code_200_is_served() {
    let outcome = handler(Some("200"));
    assert_eq!(outcome, Ok(Reply { status: 200, body: String::from("200 OK") }));
}

#[test]
fn code_500_is_a_server_fault() {
    let outcome = handler(Some("500"));
    assert_eq!(
        outcome,
        Err(AppError::InternalServerError(String::from("500 Internal Server Error")))
    );
}

#[test]
fn no_code_is_answered_with_the_usage() {
    let outcome = handler(None);
    let reply = outcome.expect("the root path is no failure");
    assert_eq!(reply.status, 400);
    assert_eq!(reply.body, "usage: /200 or /500.\r\nCheck for CORS header.\r\n");
    assert!(reply.body.contains("/200"));
    assert!(reply.body.contains("/500"));
}

#[test]
fn any_other_code_is_not_found() {
    let outcome = handler(Some("anything"));
    assert_eq!(outcome, Err(AppError::NotFound(String::from("404 Not Found"))));
}

#[test]
fn near_misses_are_not_found() {
    let near = [
        "", " ", "0", "2", "20", "2000", "200 ", " 200", "200\r\n", "0200", "+200", "200.0",
        "5", "50", "5000", "500 ", " 500", "-500", "404", "400", "OK", "200\u{0}",
        "\u{FF12}\u{FF10}\u{FF10}", "\u{1F600}",
    ];
    for code in near {
        let outcome = handler(Some(code));
        match outcome {
            Err(AppError::NotFound(message)) => assert_eq!(message, "404 Not Found"),
            other => panic!("{:?} gave {:?}", code, other),
        }
    }
}

#[test]
fn a_long_code_is_not_found() {
    let code = "200".repeat(10_000);
    let outcome = handler(Some(code.as_str()));
    assert_eq!(outcome, Err(AppError::NotFound(String::from("404 Not Found"))));
}

#[test]
fn the_texts_are_the_constants() {
    assert_eq!(handler(None).unwrap().body, USAGE);
    assert_eq!(handler(Some("200")).unwrap().body, BODY_OK);
    assert_eq!(handler(Some("500")).unwrap_err().message(), MESSAGE_INTERNAL_SERVER_ERROR);
    assert_eq!(handler(Some("x")).unwrap_err().message(), MESSAGE_NOT_FOUND);
}

#[test]
fn failures_know_their_kind() {
    assert_eq!(handler(Some("500")).unwrap_err().kind(), FailureKind::InternalError);
    assert_eq!(handler(Some("501")).unwrap_err().kind(), FailureKind::NotFound);
}
