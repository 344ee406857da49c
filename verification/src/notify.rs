//! The exchange with a tenant's endpoint: one attempt, one deadline, and the
//! reading of whatever came of it.

use crate::error::ServiceError;
use crate::model::{ThirdPartyResp, ThirdPartyRespView};
use vstd::prelude::*;

verus! {

/// The time that a tenant's endpoint has to answer one push, in milliseconds.
pub const PUSH_DEADLINE_MS: u64 = 5000;

/// What became of the one attempt to push a result.
#[derive(Debug)]
pub enum PushOutcome {
    /// The deadline passed without an answer.
    TimedOut,
    /// The request did not get through: no connection, no address.
    TransportFailed,
    /// The endpoint answered. `body` is the decision that the answer holds,
    /// or nothing where it holds none that can be read.
    Responded { status: u16, body: Option<ThirdPartyResp> },
}

/// What a `PushOutcome` holds.
pub enum PushOutcomeView {
    TimedOut,
    TransportFailed,
    Responded { status: u16, body: Option<ThirdPartyRespView> },
}

impl View for PushOutcome {
    type V = PushOutcomeView;

    open spec fn view(&self) -> PushOutcomeView {
        match *self {
            PushOutcome::TimedOut => PushOutcomeView::TimedOut,
            PushOutcome::TransportFailed => PushOutcomeView::TransportFailed,
            PushOutcome::Responded { status, body } => PushOutcomeView::Responded {
                status,
                body: match body {
                    Some(b) => Some(b@),
                    None => None,
                },
            },
        }
    }
}

/// What a verification ends with, by its content.
pub open spec fn decision_view(r: Result<ThirdPartyResp, ServiceError>) -> Result<
    ThirdPartyRespView,
    ServiceError,
> {
    match r {
        Ok(d) => Ok(d@),
        Err(e) => Err(e),
    }
}

/// The status codes of success: the two hundreds.
pub open spec fn success_status(status: u16) -> bool {
    200 <= status < 300
}

/// Whether a status code is one of success.
pub fn is_success(status: u16) -> (r: bool)
    ensures
        r == success_status(status),
{
    200 <= status && status < 300
}

/// The reading of an attempt. A passed deadline is `RemoteTimeout`, a request
/// that did not get through `RemoteTransport`, a status outside the two
/// hundreds `RemoteError` with that status, an unreadable answer
/// `RemoteDecodeError`; any other answer is the decision, as it came.
pub open spec fn decision_of(outcome: PushOutcomeView) -> Result<ThirdPartyRespView, ServiceError> {
    match outcome {
        PushOutcomeView::TimedOut => Err(ServiceError::RemoteTimeout),
        PushOutcomeView::TransportFailed => Err(ServiceError::RemoteTransport),
        PushOutcomeView::Responded { status, body } => if !success_status(status) {
            Err(ServiceError::RemoteError(status))
        } else {
            match body {
                None => Err(ServiceError::RemoteDecodeError),
                Some(decision) => Ok(decision),
            }
        },
    }
}

/// Reads an attempt. The decision of the endpoint passes through unchanged.
pub fn interpret(outcome: PushOutcome) -> (r: Result<ThirdPartyResp, ServiceError>)
    ensures
        decision_view(r) == decision_of(outcome@),
{
    match outcome {
        PushOutcome::TimedOut => Err(ServiceError::RemoteTimeout),
        PushOutcome::TransportFailed => Err(ServiceError::RemoteTransport),
        PushOutcome::Responded { status, body } => {
            if !is_success(status) {
                Err(ServiceError::RemoteError(status))
            } else {
                match body {
                    None => Err(ServiceError::RemoteDecodeError),
                    Some(decision) => Ok(decision),
                }
            }
        },
    }
}

/// Only a passed deadline reads as `RemoteTimeout`, and no attempt that was
/// answered with a decision reads as a failure.
pub proof fn lemma_timeout_is_distinct(outcome: PushOutcomeView)
    ensures
        decision_of(outcome) == Err::<ThirdPartyRespView, ServiceError>(ServiceError::RemoteTimeout)
            <==> outcome == PushOutcomeView::TimedOut,
        decision_of(outcome) is Ok <==> (outcome matches PushOutcomeView::Responded {
            status,
            body,
        } && success_status(status) && body is Some),
{
}

} // verus!
