//! The retry policy of the blocking call, as a state machine: the caller
//! performs each transport attempt and hands its outcome back, and the call
//! decides whether to send again or what to return.
use vstd::prelude::*;
use crate::batch::Batch;
use crate::correlate::{correlate, correlation, ItemResult};
use crate::response::{RawResponse, TransportError};
use crate::session::{checked_items, state_after, Session};

verus! {

/// How long one attempt may block, in milliseconds, before it is treated as
/// a transport failure, unless configured otherwise.
pub const JSON_RPC_TIMEOUT_MS: u64 = 5_000;

/// How many attempts follow a failed first one, unless configured otherwise.
pub const MAX_JSON_RPC_RETRY_COUNT: u64 = 2;

/// The retry configuration of a blocking call.
#[derive(Debug, Clone, PartialEq, Eq)]
pub struct RetryPolicy {
    /// Bounds how long one attempt may block before it is treated as a
    /// transport failure.
    pub timeout_ms: u64,
    /// Bounds the number of additional attempts after the first failure.
    pub max_retries: u64,
}

impl RetryPolicy {
    /// The default policy.
    pub fn standard() -> (p: RetryPolicy)
        ensures
            p.timeout_ms == JSON_RPC_TIMEOUT_MS,
            p.max_retries == MAX_JSON_RPC_RETRY_COUNT,
    {
        RetryPolicy { timeout_ms: JSON_RPC_TIMEOUT_MS, max_retries: MAX_JSON_RPC_RETRY_COUNT }
    }
}

/// The failure of a whole blocking call.
#[derive(Debug, Clone, PartialEq, Eq)]
pub enum ClientError {
    /// Every attempt failed at the transport; holds the last failure.
    Unreachable(TransportError),
}

/// What the call asks of its caller after an attempt.
#[derive(Debug, PartialEq, Eq)]
pub enum Step {
    /// Send the same batch again.
    Send,
    /// The call is over, with this result.
    Done(Result<Vec<ItemResult>, ClientError>),
}

/// One blocking call of a batch: the policy it runs under and the number of
/// transport attempts made so far.
pub struct Call {
    policy: RetryPolicy,
    attempts: u64,
    finished: bool,
}

impl Call {
    pub closed spec fn spec_max_retries(&self) -> u64 {
        self.policy.max_retries
    }

    pub closed spec fn spec_attempts(&self) -> u64 {
        self.attempts
    }

    pub closed spec fn spec_finished(&self) -> bool {
        self.finished
    }

    /// A call that has made no attempt yet.
    pub fn new(policy: RetryPolicy) -> (c: Call)
        ensures
            c.spec_max_retries() == policy.max_retries,
            c.spec_attempts() == 0,
            !c.spec_finished(),
    {
        Call { policy, attempts: 0, finished: false }
    }

    /// The number of transport attempts made so far.
    pub fn attempts(&self) -> (n: u64)
        ensures
            n == self.spec_attempts(),
    {
        self.attempts
    }

    /// Whether the call is over.
    pub fn is_finished(&self) -> (b: bool)
        ensures
            b == self.spec_finished(),
    {
        self.finished
    }

    /// Takes the outcome of one transport attempt. A delivered response
    /// array ends the call with its correlated items, checked against the
    /// session, whatever errors single items hold. A transport failure asks
    /// for another attempt while retries remain, and otherwise ends the call
    /// as unreachable with that failure.
    pub fn on_outcome(
        &mut self,
        batch: &Batch,
        session: &mut Session,
        outcome: Result<Vec<RawResponse>, TransportError>,
    ) -> (step: Step)
        requires
            !old(self).spec_finished(),
            old(self).spec_attempts() <= old(self).spec_max_retries(),
            old(self).spec_attempts() < u64::MAX,
        ensures
            final(self).spec_max_retries() == old(self).spec_max_retries(),
            final(self).spec_attempts() == old(self).spec_attempts() + 1,
            final(self).spec_finished() == (step is Done),
            match outcome {
                Ok(raw) => {
                    &&& step matches Step::Done(Ok(items))
                    &&& items@ == checked_items(old(session)@, correlation(batch@.len(), raw@))
                    &&& final(session)@ == state_after(
                        old(session)@,
                        correlation(batch@.len(), raw@),
                    )
                },
                Err(e) => {
                    &&& final(session)@ == old(session)@
                    &&& if old(self).spec_attempts() < old(self).spec_max_retries() {
                        step is Send
                    } else {
                        step == Step::Done(Err(ClientError::Unreachable(e)))
                    }
                },
            },
    {
        self.attempts = self.attempts + 1;
        match outcome {
            Ok(raw) => {
                let mut items = correlate(batch, &raw);
                session.check(&mut items);
                self.finished = true;
                Step::Done(Ok(items))
            },
            Err(e) => {
                if self.attempts <= self.policy.max_retries {
                    Step::Send
                } else {
                    self.finished = true;
                    Step::Done(Err(ClientError::Unreachable(e)))
                }
            },
        }
    }
}

} // verus!
