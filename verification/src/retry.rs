//! The retry policy of the transport, as a state machine.
//!
//! The caller sends the request, hands the status of each response to
//! [`RetryState::on_response`], and does what the decision says: return the
//! response, wait and send again, or fail. Nothing here sleeps or sends.

use vstd::prelude::*;
use crate::error::ODataError;
use crate::number::{parse_u64, parse_unsigned};
use crate::text::chars_of;

verus! {

/// The retry budget and the first back-off delay of a client.
#[derive(Debug, Clone, Copy, PartialEq, Eq)]
pub struct RetryPolicy {
    /// The most attempts that one request gets.
    pub max_retries: u32,
    /// The back-off delay before the first retry, in milliseconds.
    pub retry_delay_ms: u64,
}

/// How the transport reads a response status.
#[derive(Debug, Clone, Copy, PartialEq, Eq)]
pub enum StatusClass {
    /// 200, 201 or 204.
    Success,
    /// 429.
    RateLimited,
    /// 404.
    NotFound,
    /// 500 to 599.
    ServerFault,
    /// Anything else.
    Other,
}

/// How long to wait before the next attempt.
#[derive(Debug, Clone, Copy, PartialEq, Eq)]
pub enum Pause {
    Seconds(u64),
    Millis(u64),
}

/// Why a request failed for good.
#[derive(Debug, Clone, Copy, PartialEq, Eq)]
pub enum Failure {
    /// Still rate limited after the last attempt; the wait asked for, in seconds.
    RateLimited(u64),
    /// The service answered 404.
    NotFound,
    /// The service answered with this status, which is not retried or no longer retried.
    ServerError(u16),
}

/// What to do with a response.
#[derive(Debug, Clone, Copy, PartialEq, Eq)]
pub enum Decision {
    /// Hand the response to the caller.
    Success,
    /// Wait, then send the request again.
    Retry(Pause),
    /// Give up.
    Fail(Failure),
}

/// The progress of one request.
#[derive(Debug, Clone, Copy, PartialEq, Eq)]
pub struct RetryState {
    /// The attempts whose responses have been seen.
    pub attempt: u32,
    /// The current back-off delay, in milliseconds.
    pub delay_ms: u64,
}

/// The class of a response status.
pub open spec fn class_of(status: u16) -> StatusClass {
    if status == 200 || status == 201 || status == 204 {
        StatusClass::Success
    } else if status == 429 {
        StatusClass::RateLimited
    } else if status == 404 {
        StatusClass::NotFound
    } else if 500 <= status <= 599 {
        StatusClass::ServerFault
    } else {
        StatusClass::Other
    }
}

/// The seconds to wait after a 429: the `Retry-After` header where it is an
/// unsigned decimal that fits in 64 bits, else the back-off delay in whole
/// seconds.
pub open spec fn wait_seconds(retry_after: Option<Seq<char>>, delay_ms: u64) -> u64 {
    let fallback = (delay_ms / 1000) as u64;
    match retry_after {
        Some(text) => match parse_unsigned(text, u64::MAX as nat) {
            Some(n) => n as u64,
            None => fallback,
        },
        None => fallback,
    }
}

/// The decision on the response to attempt number `before.attempt + 1`.
pub open spec fn decision_on(
    policy: RetryPolicy,
    before: RetryState,
    status: u16,
    retry_after: Option<Seq<char>>,
) -> Decision {
    let exhausted = before.attempt + 1 >= policy.max_retries;
    match class_of(status) {
        StatusClass::Success => Decision::Success,
        StatusClass::RateLimited => {
            let wait = wait_seconds(retry_after, before.delay_ms);
            if exhausted {
                Decision::Fail(Failure::RateLimited(wait))
            } else {
                Decision::Retry(Pause::Seconds(wait))
            }
        },
        StatusClass::NotFound => Decision::Fail(Failure::NotFound),
        StatusClass::ServerFault => if exhausted {
            Decision::Fail(Failure::ServerError(status))
        } else {
            Decision::Retry(Pause::Millis(before.delay_ms))
        },
        StatusClass::Other => Decision::Fail(Failure::ServerError(status)),
    }
}

/// The view of an optional header value.
pub open spec fn header_view(header: Option<&str>) -> Option<Seq<char>> {
    match header {
        Some(h) => Some(h@),
        None => None,
    }
}

/// The class of a response status.
pub fn classify(status: u16) -> (c: StatusClass)
    ensures
        c == class_of(status),
{
    if status == 200 || status == 201 || status == 204 {
        StatusClass::Success
    } else if status == 429 {
        StatusClass::RateLimited
    } else if status == 404 {
        StatusClass::NotFound
    } else if 500 <= status && status <= 599 {
        StatusClass::ServerFault
    } else {
        StatusClass::Other
    }
}

/// The seconds to wait after a 429.
pub fn retry_after_seconds(retry_after: Option<&str>, delay_ms: u64) -> (secs: u64)
    ensures
        secs == wait_seconds(header_view(retry_after), delay_ms),
{
    let fallback: u64 = delay_ms / 1000;
    match retry_after {
        Some(text) => match parse_u64(&chars_of(text)) {
            Some(n) => n,
            None => fallback,
        },
        None => fallback,
    }
}

impl RetryPolicy {
    /// The state before the first attempt.
    pub fn start(&self) -> (s: RetryState)
        ensures
            s.attempt == 0,
            s.delay_ms == self.retry_delay_ms,
    {
        RetryState { attempt: 0, delay_ms: self.retry_delay_ms }
    }
}

impl RetryState {
    /// Takes the status of the response to the next attempt, and its
    /// `Retry-After` header where it has a readable one.
    ///
    /// The attempt is counted. On a retry the back-off delay doubles, also
    /// when the wait itself came from the header, and the budget has room
    /// for the next attempt. The counter must have room for this attempt,
    /// and the delay room to double where a retry follows.
    pub fn on_response(&mut self, policy: &RetryPolicy, status: u16, retry_after: Option<&str>) -> (d:
        Decision)
        requires
            old(self).attempt < u32::MAX,
            decision_on(*policy, *old(self), status, header_view(retry_after)) is Retry
                ==> old(self).delay_ms * 2 <= u64::MAX,
        ensures
            d == decision_on(*policy, *old(self), status, header_view(retry_after)),
            final(self).attempt == old(self).attempt + 1,
            final(self).delay_ms == if d is Retry {
                old(self).delay_ms * 2
            } else {
                old(self).delay_ms as int
            },
            d is Retry ==> final(self).attempt < policy.max_retries,
    {
        self.attempt = self.attempt + 1;
        let exhausted = self.attempt >= policy.max_retries;
        match classify(status) {
            StatusClass::Success => Decision::Success,
            StatusClass::RateLimited => {
                let wait = retry_after_seconds(retry_after, self.delay_ms);
                if exhausted {
                    Decision::Fail(Failure::RateLimited(wait))
                } else {
                    self.delay_ms = self.delay_ms * 2;
                    Decision::Retry(Pause::Seconds(wait))
                }
            },
            StatusClass::NotFound => Decision::Fail(Failure::NotFound),
            StatusClass::ServerFault => {
                if exhausted {
                    Decision::Fail(Failure::ServerError(status))
                } else {
                    let wait = self.delay_ms;
                    self.delay_ms = self.delay_ms * 2;
                    Decision::Retry(Pause::Millis(wait))
                }
            },
            StatusClass::Other => Decision::Fail(Failure::ServerError(status)),
        }
    }
}

impl Failure {
    /// Whether the error for this failure carries the response body.
    pub fn wants_body(&self) -> (r: bool)
        ensures
            r == !(*self is RateLimited),
    {
        match self {
            Failure::RateLimited(_) => false,
            _ => true,
        }
    }

    /// The error for this failure; `body` is the text of the last response.
    pub fn into_error(self, body: String) -> (e: ODataError)
        ensures
            match self {
                Failure::RateLimited(secs) => e == ODataError::RateLimited(secs),
                Failure::NotFound => e == ODataError::NotFound(body),
                Failure::ServerError(status) => e == ODataError::ServerError(status, body),
            },
    {
        match self {
            Failure::RateLimited(secs) => ODataError::RateLimited(secs),
            Failure::NotFound => ODataError::NotFound(body),
            Failure::ServerError(status) => ODataError::ServerError(status, body),
        }
    }
}

} // verus!
