//! The response classifier: from the route parameter of a request to its
//! outcome.

use vstd::prelude::*;
use vstd::string::*;

use crate::outcome::{
    AppError, Failure, FailureKind, Outcome, Reply, ReplyView, outcome_of, STATUS_BAD_REQUEST,
    STATUS_OK,
};
use crate::text::str_eq;

verus! {

/// The route parameter that asks for a success.
pub const CODE_OK: &'static str = "200";

/// The route parameter that asks for a server fault.
pub const CODE_INTERNAL_SERVER_ERROR: &'static str = "500";

/// The help text for a request that named no code.
pub const USAGE: &'static str = "usage: /200 or /500.\r\nCheck for CORS header.\r\n";

/// The body of the success.
pub const BODY_OK: &'static str = "200 OK";

/// The message of the server fault that was asked for.
pub const MESSAGE_INTERNAL_SERVER_ERROR: &'static str = "500 Internal Server Error";

/// The message for every other route parameter.
pub const MESSAGE_NOT_FOUND: &'static str = "404 Not Found";

/// The outcome of a request with the given route parameter, `None` standing
/// for the root path.
///
/// No parameter is answered with the help text under status 400: the request
/// was well formed, it only named no code. `200` is a success, `500` a server
/// fault, and anything else is not found.
pub open spec fn classify(parameter: Option<Seq<char>>) -> Outcome {
    match parameter {
        None => Outcome::Served(ReplyView { status: STATUS_BAD_REQUEST, body: USAGE@ }),
        Some(code) => if code == CODE_OK@ {
            Outcome::Served(ReplyView { status: STATUS_OK, body: BODY_OK@ })
        } else if code == CODE_INTERNAL_SERVER_ERROR@ {
            Outcome::Failed(
                Failure {
                    kind: FailureKind::InternalError,
                    message: MESSAGE_INTERNAL_SERVER_ERROR@,
                },
            )
        } else {
            Outcome::Failed(Failure { kind: FailureKind::NotFound, message: MESSAGE_NOT_FOUND@ })
        },
    }
}

/// The characters of a route parameter, where there is one.
pub open spec fn parameter_view(path: Option<&str>) -> Option<Seq<char>> {
    match path {
        None => None,
        Some(code) => Some(code@),
    }
}

/// Classifies a request by its route parameter.
pub fn handler(path: Option<&str>) -> (outcome: Result<Reply, AppError>)
    ensures
        outcome_of(outcome) == classify(parameter_view(path)),
{
    match path {
        None => Ok(Reply { status: STATUS_BAD_REQUEST, body: String::from_str(USAGE) }),
        Some(code) => {
            if str_eq(code, CODE_OK) {
                Ok(Reply { status: STATUS_OK, body: String::from_str(BODY_OK) })
            } else if str_eq(code, CODE_INTERNAL_SERVER_ERROR) {
                Err(AppError::new(FailureKind::InternalError, MESSAGE_INTERNAL_SERVER_ERROR))
            } else {
                Err(AppError::new(FailureKind::NotFound, MESSAGE_NOT_FOUND))
            }
        },
    }
}

/// The two codes are three digits each, and they differ.
pub proof fn lemma_codes()
    ensures
        CODE_OK@ == seq!['2', '0', '0'],
        CODE_INTERNAL_SERVER_ERROR@ == seq!['5', '0', '0'],
        CODE_OK@ != CODE_INTERNAL_SERVER_ERROR@,
{
    reveal_strlit("200");
    reveal_strlit("500");
    assert(CODE_OK@ =~= seq!['2', '0', '0']);
    assert(CODE_INTERNAL_SERVER_ERROR@ =~= seq!['5', '0', '0']);
}

/// The help text names both codes, each behind its slash.
pub proof fn lemma_usage_names_both_codes()
    ensures
        USAGE@.subrange(7, 11) == seq!['/'] + CODE_OK@,
        USAGE@.subrange(15, 19) == seq!['/'] + CODE_INTERNAL_SERVER_ERROR@,
{
    lemma_codes();
    reveal_strlit("usage: /200 or /500.\r\nCheck for CORS header.\r\n");
}

/// The classifier answers each of its four cases on exactly the parameters
/// of that case: the help text for none, the success for `200`, the server
/// fault for `500`, and not found for every other.
pub proof fn lemma_classify_cases(parameter: Option<Seq<char>>)
    ensures
        parameter is None <==> classify(parameter) == Outcome::Served(
            ReplyView { status: STATUS_BAD_REQUEST, body: USAGE@ },
        ),
        parameter == Some(CODE_OK@) <==> classify(parameter) == Outcome::Served(
            ReplyView { status: STATUS_OK, body: BODY_OK@ },
        ),
        parameter == Some(CODE_INTERNAL_SERVER_ERROR@) <==> classify(parameter) == Outcome::Failed(
            Failure { kind: FailureKind::InternalError, message: MESSAGE_INTERNAL_SERVER_ERROR@ },
        ),
        (parameter is Some && parameter != Some(CODE_OK@) && parameter != Some(
            CODE_INTERNAL_SERVER_ERROR@,
        )) <==> classify(parameter) == Outcome::Failed(
            Failure { kind: FailureKind::NotFound, message: MESSAGE_NOT_FOUND@ },
        ),
{
    lemma_codes();
}

} // verus!
