//! The order of a fetch: from the step in flight and the reply to it, what
//! to do next.
//!
//! The caller starts with [`begin`], performs each [`Action::Send`] on the
//! session's HTTP client, and hands what came back to [`advance`] together
//! with the step that the request made. It stops at the first action that
//! is not a `Send`. There is no retry and no step is skipped: a fetch sends
//! at most three requests, in the order of [`Step`].

use crate::envelope::{body_outcome, document_from_reading, ReplyBody};
use crate::error::{Cause, Failure, FetchError, Step};
use crate::request::{planned_request, request_for, Credential, StepRequest, RequestModel};
use crate::vendor::VendorProfile;
use vstd::prelude::*;

verus! {

/// What came of sending a request.
#[derive(Debug, PartialEq, Eq)]
pub enum Reply {
    /// The call did not complete: no connection, no answer in time, and
    /// the like.
    Failed,
    /// A response arrived, whatever its status. The body is there where
    /// the request wanted it and it could be read to its end.
    Received(Option<ReplyBody>),
}

/// What the caller is to do next.
#[derive(Debug)]
pub enum Action {
    /// Send this request and come back with the reply.
    Send(StepRequest),
    /// The fetch is over: this is the document.
    Deliver(Vec<u8>),
    /// The fetch is over: it failed, and nothing of a document is kept.
    Fail(Failure),
}

/// An action as plain values.
pub enum ActionModel {
    Send(RequestModel),
    Deliver(Seq<u8>),
    Fail(FetchError),
}

impl View for Action {
    type V = ActionModel;

    open spec fn view(&self) -> ActionModel {
        match self {
            Action::Send(request) => ActionModel::Send(request@),
            Action::Deliver(bytes) => ActionModel::Deliver(bytes@),
            Action::Fail(failure) => ActionModel::Fail(failure.error),
        }
    }
}

/// How the last step ends, by what was read of the reply's body.
pub open spec fn conclude(body: Option<ReplyBody>) -> ActionModel {
    match body {
        None => ActionModel::Fail(FetchError::ParseError),
        Some(read) => match body_outcome(read.bytes@, read.envelope) {
            Ok(document) => ActionModel::Deliver(document),
            Err(e) => ActionModel::Fail(e),
        },
    }
}

/// What follows the reply to `step`.
///
/// A call that did not complete ends the fetch at once with `RequestError`
/// for that step. A reply to the first or the second step, whatever it
/// says, leads to the next step. A reply to the last step ends the fetch
/// with the document or with the reason why there is none.
pub open spec fn next_action(
    vendor: VendorProfile,
    credential: Credential,
    step: Step,
    reply: Reply,
) -> ActionModel {
    match reply {
        Reply::Failed => ActionModel::Fail(FetchError::RequestError(step)),
        Reply::Received(body) => match step.successor() {
            Some(following) => ActionModel::Send(planned_request(vendor, credential, following)),
            None => conclude(body),
        },
    }
}

/// A call that does not complete ends the fetch there and then: the
/// failure names the step, and no request follows.
pub proof fn lemma_failed_call_ends_fetch(
    vendor: VendorProfile,
    credential: Credential,
    step: Step,
)
    ensures
        next_action(vendor, credential, step, Reply::Failed) == ActionModel::Fail(
            FetchError::RequestError(step),
        ),
{
}

/// A fetch sends three requests at most, in the order of the steps: a
/// reply to the first or the second step is followed by the request of the
/// step after, whatever the reply says, and the last step by none.
pub proof fn lemma_requests_follow_in_order(
    vendor: VendorProfile,
    credential: Credential,
    step: Step,
    body: Option<ReplyBody>,
)
    ensures
        step.successor() matches Some(following) ==> next_action(
            vendor,
            credential,
            step,
            Reply::Received(body),
        ) == ActionModel::Send(planned_request(vendor, credential, following)),
        step == Step::Retrieve ==> !(next_action(vendor, credential, step, Reply::Received(body))
            is Send),
{
}

/// A document is delivered only in answer to the last step, and then it is
/// what the body of that reply amounts to.
pub proof fn lemma_delivery_is_of_last_reply(
    vendor: VendorProfile,
    credential: Credential,
    step: Step,
    reply: Reply,
)
    ensures
        next_action(vendor, credential, step, reply) matches ActionModel::Deliver(document) ==> {
            &&& step == Step::Retrieve
            &&& reply matches Reply::Received(Some(read))
            &&& body_outcome(read.bytes@, read.envelope) == Ok::<Seq<u8>, FetchError>(document)
        },
{
}

/// The first action of a fetch: the request of the first step.
pub fn begin(vendor: &VendorProfile, credential: &Credential) -> (action: Action)
    ensures
        action@ == ActionModel::Send(planned_request(*vendor, *credential, Step::Generate)),
{
    Action::Send(request_for(vendor, credential, Step::Generate))
}

/// The action that follows the reply to the request of `step`.
pub fn advance(vendor: &VendorProfile, credential: &Credential, step: Step, reply: Reply) -> (action:
    Action)
    ensures
        action@ == next_action(*vendor, *credential, step, reply),
{
    match reply {
        Reply::Failed => Action::Fail(
            Failure { error: FetchError::RequestError(step), cause: Cause::NotGiven },
        ),
        Reply::Received(body) => match step.next() {
            Some(following) => Action::Send(request_for(vendor, credential, following)),
            None => match body {
                None => Action::Fail(
                    Failure { error: FetchError::ParseError, cause: Cause::NotGiven },
                ),
                Some(read) => match document_from_reading(&read) {
                    Ok(document) => Action::Deliver(document),
                    Err(failure) => Action::Fail(failure),
                },
            },
        },
    }
}

} // verus!
