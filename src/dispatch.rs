//! The decisions of one request, as a state machine that the caller drives.
//!
//! The caller sends the request, reports what came back, and does what each
//! step asks: decode the body, wait and send once more, or give up with an
//! error. A request that is rejected for its rate is sent again at most once,
//! and only when the options ask for it.
use crate::error::classify;
use crate::error::status_error;
use crate::error::Error;
use crate::error::ParseCause;
use crate::options::ClientOptions;
use crate::rate_limit::RateLimit;
use reqwest::Error as TransportError;
use serde_json::Error as JsonError;
use vstd::prelude::*;

verus! {

/// Where a request stands.
#[derive(Clone, Copy, Debug, PartialEq, Eq, Structural)]
pub enum Phase {
    /// The request is out; its response or its failure is awaited.
    Sending,
    /// A successful response came; its body is being decoded.
    Decoding,
    /// A rate-limit rejection came; the delay is running before the one retry.
    Waiting,
    /// The outcome has been handed out.
    Done,
}

/// The state of one request.
#[derive(Clone, Copy, Debug, PartialEq, Eq, Structural)]
pub struct Dispatch {
    /// Whether a rate-limit rejection may be retried.
    pub retry_enabled: bool,
    /// Whether the one retry has been spent.
    pub retried: bool,
    pub phase: Phase,
}

/// What to do after a response.
#[derive(Debug)]
pub enum Step {
    /// Decode the body and report the result.
    Decode,
    /// Wait this many seconds, then send the request again.
    Retry(u64),
    /// The request ends in this error.
    Fail(Error),
}

/// The state of a request that has just been sent for the first time.
pub open spec fn initial_dispatch(retry_enabled: bool) -> Dispatch {
    Dispatch { retry_enabled, retried: false, phase: Phase::Sending }
}

/// The next state and step after a response with `status` whose telemetry
/// asks for a delay of `retry_after_secs`.
pub open spec fn response_step(d: Dispatch, status: u16, retry_after_secs: u64) -> (Dispatch, Step) {
    if 200 <= status && status <= 299 {
        (Dispatch { phase: Phase::Decoding, ..d }, Step::Decode)
    } else if status == 429 && d.retry_enabled && !d.retried {
        (Dispatch { phase: Phase::Waiting, ..d }, Step::Retry(retry_after_secs))
    } else {
        (Dispatch { phase: Phase::Done, ..d }, Step::Fail(status_error(status, retry_after_secs)))
    }
}

/// The state once the delay is over and the request is sent again.
pub open spec fn wake_step(d: Dispatch) -> Dispatch {
    Dispatch { retried: true, phase: Phase::Sending, ..d }
}

/// The outcome of a decoded body.
pub open spec fn body_outcome<T>(body: Result<T, JsonError>) -> Result<T, Error> {
    match body {
        Ok(v) => Ok(v),
        Err(e) => Err(Error::ParseError(ParseCause::Body(e))),
    }
}

impl Dispatch {
    /// A request about to be sent for the first time, under `options`.
    pub fn new(options: &ClientOptions) -> (d: Dispatch)
        ensures
            d == initial_dispatch(options.retry),
    {
        Dispatch { retry_enabled: options.retry, retried: false, phase: Phase::Sending }
    }

    /// No response arrived. The request ends in `RequestError`; a transport
    /// failure is never retried.
    pub fn on_transport_error(&mut self, cause: TransportError) -> (e: Error)
        requires
            old(self).phase == Phase::Sending,
        ensures
            e == Error::RequestError(cause),
            *final(self) == (Dispatch { phase: Phase::Done, ..*old(self) }),
    {
        self.phase = Phase::Done;
        Error::RequestError(cause)
    }

    /// A response arrived with `status`, and `rate_limit` is what its headers
    /// say. A success asks for the body; a rate-limit rejection asks for the
    /// retry when it is enabled and not yet spent; anything else is the error
    /// that the status stands for.
    pub fn on_response(&mut self, status: u16, rate_limit: &RateLimit) -> (step: Step)
        requires
            old(self).phase == Phase::Sending,
        ensures
            (*final(self), step) == response_step(*old(self), status, rate_limit.timeout_secs),
    {
        if 200 <= status && status <= 299 {
            self.phase = Phase::Decoding;
            Step::Decode
        } else if status == 429 && self.retry_enabled && !self.retried {
            self.phase = Phase::Waiting;
            Step::Retry(rate_limit.timeout_secs)
        } else {
            self.phase = Phase::Done;
            Step::Fail(classify(status, rate_limit))
        }
    }

    /// The delay is over; the request is about to be sent for the last time.
    pub fn on_wake(&mut self)
        requires
            old(self).phase == Phase::Waiting,
        ensures
            *final(self) == wake_step(*old(self)),
    {
        self.retried = true;
        self.phase = Phase::Sending;
    }

    /// The body of a successful response was decoded, or failed to decode.
    /// The request ends with the value, or in `ParseError`.
    pub fn on_body<T>(&mut self, body: Result<T, JsonError>) -> (r: Result<T, Error>)
        requires
            old(self).phase == Phase::Decoding,
        ensures
            r == body_outcome(body),
            *final(self) == (Dispatch { phase: Phase::Done, ..*old(self) }),
    {
        self.phase = Phase::Done;
        match body {
            Ok(v) => Ok(v),
            Err(e) => Err(Error::ParseError(ParseCause::Body(e))),
        }
    }
}

/// A request is retried at most once. When the first response is a
/// rate-limit rejection that leads to a retry, the response to the retry ends
/// the request whatever it is: a second rejection is the final outcome, with
/// the delay that the second response asked for.
pub proof fn lemma_single_retry(
    retry_enabled: bool,
    first_status: u16,
    first_retry_after: u64,
    second_status: u16,
    second_retry_after: u64,
)
    ensures
        ({
            let (waiting, first) = response_step(
                initial_dispatch(retry_enabled),
                first_status,
                first_retry_after,
            );
            let (end, second) = response_step(
                wake_step(waiting),
                second_status,
                second_retry_after,
            );
            first is Retry ==> {
                &&& first_status == 429
                &&& retry_enabled
                &&& !(second is Retry)
                &&& second_status == 429 ==> second == Step::Fail(
                    Error::TooManyRequests(second_retry_after),
                )
                &&& end.phase != Phase::Waiting
            }
        }),
{
}

/// Without the retry option a rate-limit rejection ends the request at once,
/// in `TooManyRequests` with the delay that the response asked for.
pub proof fn lemma_no_retry_when_disabled(d: Dispatch, retry_after: u64)
    requires
        !d.retry_enabled,
    ensures
        response_step(d, 429, retry_after).1 == Step::Fail(Error::TooManyRequests(retry_after)),
        response_step(d, 429, retry_after).0.phase == Phase::Done,
{
}

/// Only a request whose retry is enabled and unspent is told to wait, and
/// waking from the wait spends the retry.
pub proof fn lemma_retry_needs_unspent(d: Dispatch, status: u16, retry_after: u64)
    ensures
        response_step(d, status, retry_after).1 is Retry ==> !d.retried && d.retry_enabled,
        wake_step(d).retried,
{
}

} // verus!
