//! The whole way of a request: through the fault injector to the classifier
//! and back, from the outcome to a reply, and into the envelope that leaves
//! the server.

use vstd::prelude::*;

use crate::classifier::{classify, handler, parameter_view};
use crate::cors::{cors_policy, fixture_policy, Envelope, EnvelopeView, ANY_ORIGIN};
use crate::injector::{
    errinjmw, inject, FaultSwitches, MESSAGE_POST_BREAK, MESSAGE_PRE_BREAK,
};
use crate::outcome::{
    finish, outcome_of, AppError, Reply, ReplyView, STATUS_BAD_REQUEST,
    STATUS_INTERNAL_SERVER_ERROR, STATUS_NOT_FOUND, STATUS_OK,
};

verus! {

/// The reply to a request with the given route parameter under the given
/// switches.
pub open spec fn response(switches: FaultSwitches, parameter: Option<Seq<char>>) -> ReplyView {
    inject(switches, classify(parameter)).reply()
}

/// Dispatches one request to the classifier through the fault injector.
pub fn dispatch(switches: &FaultSwitches, path: Option<&str>) -> (outcome: Result<Reply, AppError>)
    ensures
        outcome_of(outcome) == inject(*switches, classify(parameter_view(path))),
{
    let next = || -> (inner: Result<Reply, AppError>)
        ensures
            outcome_of(inner) == classify(parameter_view(path)),
        { handler(path) };
    match errinjmw(switches, next) {
        Err(fault) => Err(fault),
        Ok(inner) => inner,
    }
}

/// Answers one request with a status and a body.
pub fn respond(switches: &FaultSwitches, path: Option<&str>) -> (reply: Reply)
    ensures
        reply@ == response(*switches, parameter_view(path)),
{
    finish(dispatch(switches, path))
}

/// The final response to a request with the given route parameter under the
/// given switches: the reply, under the header of the server's policy.
pub open spec fn served(switches: FaultSwitches, parameter: Option<Seq<char>>) -> EnvelopeView {
    fixture_policy().decorate(response(switches, parameter))
}

/// Serves one request: the reply in the envelope that leaves the server.
/// The decorator comes last, so that it covers what every stage before it
/// answered, a fault of the injector included.
pub fn serve(switches: &FaultSwitches, path: Option<&str>) -> (envelope: Envelope)
    ensures
        envelope@ == served(*switches, parameter_view(path)),
{
    cors_policy().decorate(respond(switches, path))
}

/// Every response allows every origin, whatever the request, the switches
/// and the status it comes to; and the decorator leaves status and body as
/// they were.
pub proof fn lemma_every_response_allows_any_origin(
    switches: FaultSwitches,
    parameter: Option<Seq<char>>,
)
    ensures
        served(switches, parameter).allow_origin == ANY_ORIGIN@,
        served(switches, parameter).reply == response(switches, parameter),
{
}

/// Every reply carries one of four statuses: 200, 400, 404 or 500.
pub proof fn lemma_status_is_known(switches: FaultSwitches, parameter: Option<Seq<char>>)
    ensures
        ({
            let status = response(switches, parameter).status;
            status == STATUS_OK || status == STATUS_BAD_REQUEST || status == STATUS_NOT_FOUND
                || status == STATUS_INTERNAL_SERVER_ERROR
        }),
{
}

/// With the first switch on every request fails with the pre-break fault:
/// neither the route parameter nor the second switch has any say.
pub proof fn lemma_pre_break_reply(switches: FaultSwitches, parameter: Option<Seq<char>>)
    requires
        switches.pre_break(),
    ensures
        response(switches, parameter) == (ReplyView {
            status: STATUS_INTERNAL_SERVER_ERROR,
            body: MESSAGE_PRE_BREAK@,
        }),
{
}

/// With only the second switch on every request fails with the post-break
/// fault, whatever the classifier made of it.
pub proof fn lemma_post_break_reply(switches: FaultSwitches, parameter: Option<Seq<char>>)
    requires
        !switches.pre_break(),
        switches.post_break(),
    ensures
        response(switches, parameter) == (ReplyView {
            status: STATUS_INTERNAL_SERVER_ERROR,
            body: MESSAGE_POST_BREAK@,
        }),
{
}

/// Whether `envelope` answers the request: what `serve` promises of its
/// result, as a predicate.
pub open spec fn answers(
    switches: FaultSwitches,
    parameter: Option<Seq<char>>,
    envelope: EnvelopeView,
) -> bool {
    envelope == served(switches, parameter)
}

/// Asking again changes nothing: two responses to the same request under
/// the same switches are the same response.
pub proof fn lemma_same_request_same_response(
    switches: FaultSwitches,
    parameter: Option<Seq<char>>,
    first: EnvelopeView,
    second: EnvelopeView,
)
    requires
        answers(switches, parameter, first),
        answers(switches, parameter, second),
    ensures
        first == second,
{
}

} // verus!
