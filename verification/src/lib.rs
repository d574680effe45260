//! Retry a fallible operation under a composable backoff policy.
//!
//! The [`backoff`] module builds the policy: a chain of decorators that, on
//! each failed attempt, answers with the delay before the next attempt or
//! with "stop retrying". This root module holds the retry driver: a
//! state machine that runs one attempt at a time, consults the policy after
//! each failure, and reaches exactly one terminal outcome. The driver does no
//! waiting and no polling itself: the caller performs attempts and waits and
//! feeds their results back in, so the whole control flow is verified here
//! while timers and task plumbing stay outside.

use vstd::prelude::*;

pub mod backoff;

use backoff::Backoff;
use backoff::Duration;

verus! {

/// A task that can be attempted any number of times.
///
/// The driver holds one implementation and calls [`Retryable::report_error`]
/// once for every failed attempt that will be retried, handing it the error
/// and the delay chosen by the backoff policy. Reporting is observability
/// only: it must not steer the retry sequence. The default implementation
/// reports nowhere.
pub trait Retryable {
    /// The value of a successful attempt.
    type Item;

    /// The error of a failed attempt.
    type Error;

    /// Report the error of the last attempt to complete the task, together
    /// with the delay that will pass before the next one.
    fn report_error(&self, error: Self::Error, next_retry: Duration) {
    }
}

/// The control state of a retry driver.
#[derive(Clone, Copy, Debug, PartialEq, Eq, Structural)]
pub enum RetryState {
    /// About to start a fresh attempt.
    Pending,
    /// An attempt is in flight.
    Trying,
    /// A delay is in flight.
    Waiting,
}

/// What the driver asks of its caller once an in-flight attempt resolved.
pub enum Progress<I, E> {
    /// The sequence reached its single terminal outcome: the success value,
    /// or — once the policy said stop — the last attempt's error.
    Finished(Result<I, E>),
    /// The failed attempt will be retried: wait this long, then report the
    /// elapsed wait and start the next attempt.
    RetryAfter(Duration),
}

/// The retry driver: runs a [`Retryable`] task under a [`Backoff`] policy to
/// a single terminal outcome.
///
/// The driver owns the policy and advances one step at a time. The caller
/// performs the attempts and the waits: when the state is
/// [`RetryState::Pending`] it calls [`Retry::start_attempt`] and begins a
/// fresh attempt; when the attempt resolves it hands the result to
/// [`Retry::on_attempt_resolved`]; when a commanded wait elapses it calls
/// [`Retry::on_wait_elapsed`]. At most one attempt and at most one wait are
/// ever commanded to be in flight, and never both: each state admits exactly
/// one advancing call.
pub struct Retry<R: Retryable, S: Backoff> {
    /// The task under retry; queried for nothing, told of each reported error.
    pub retryable: R,
    /// The backoff policy, queried once per failed attempt.
    pub scheduler: S,
    /// The control state.
    pub state: RetryState,
}

/// Retry a task until it succeeds or until the backoff policy says stop.
///
/// The returned driver sits in [`RetryState::Pending`]: no attempt has been
/// started yet.
pub fn retry<R: Retryable, S: Backoff>(task: R, scheduler: S) -> (r: Retry<R, S>)
    requires
        scheduler.inv(),
    ensures
        r == (Retry { retryable: task, scheduler, state: RetryState::Pending }),
        r.inv(),
{
    Retry { retryable: task, scheduler, state: RetryState::Pending }
}

impl<R: Retryable, S: Backoff> Retry<R, S> {
    /// Well-formedness: the policy's own invariant.
    pub open spec fn inv(&self) -> bool {
        self.scheduler.inv()
    }

    /// Record that the caller starts a fresh attempt. Only the control state
    /// moves: any earlier wait is over and the new attempt is now the one
    /// piece of work in flight.
    pub fn start_attempt(&mut self)
        requires
            old(self).inv(),
            old(self).state == RetryState::Pending,
        ensures
            final(self).inv(),
            *final(self) == (Retry { state: RetryState::Trying, ..*old(self) }),
    {
        self.state = RetryState::Trying;
    }

    /// Advance on the result of the attempt in flight.
    ///
    /// A success is the terminal outcome, untouched; the policy is not even
    /// asked. On a failure the policy is queried once: if it stops, the
    /// failure is the terminal outcome; otherwise the error and the chosen
    /// delay are reported to the task and the caller is told to wait.
    pub fn on_attempt_resolved(&mut self, result: Result<R::Item, R::Error>) -> (p: Progress<
        R::Item,
        R::Error,
    >)
        requires
            old(self).inv(),
            old(self).state == RetryState::Trying,
        ensures
            final(self).inv(),
            final(self).retryable == old(self).retryable,
            result matches Ok(item) ==> *final(self) == *old(self) && p == Progress::<
                R::Item,
                R::Error,
            >::Finished(Ok(item)),
            result matches Err(error) ==> exists|answer: Option<Duration>|
                {
                    &&& #[trigger] old(self).scheduler.step(answer, final(self).scheduler)
                    &&& match answer {
                        None => p == Progress::<R::Item, R::Error>::Finished(Err(error))
                            && final(self).state == RetryState::Trying,
                        Some(delay) => p == Progress::<R::Item, R::Error>::RetryAfter(delay)
                            && final(self).state == RetryState::Waiting,
                    }
                },
    {
        match result {
            Ok(item) => Progress::Finished(Ok(item)),
            Err(error) => match self.scheduler.next_retry() {
                None => {
                    proof {
                        assert(old(self).scheduler.step(None::<Duration>, self.scheduler));
                    }
                    Progress::Finished(Err(error))
                },
                Some(delay) => {
                    self.retryable.report_error(error, delay);
                    self.state = RetryState::Waiting;
                    proof {
                        assert(old(self).scheduler.step(Some(delay), self.scheduler));
                    }
                    Progress::RetryAfter(delay)
                },
            },
        }
    }

    /// Record that the commanded wait has elapsed: the driver is back to
    /// starting the next attempt.
    pub fn on_wait_elapsed(&mut self)
        requires
            old(self).inv(),
            old(self).state == RetryState::Waiting,
        ensures
            final(self).inv(),
            *final(self) == (Retry { state: RetryState::Pending, ..*old(self) }),
    {
        self.state = RetryState::Pending;
    }
}

} // verus!

