use vstd::prelude::*;
use crate::{classification, Class, Error};

verus! {

#[verifier::external_type_specification]
#[verifier::external_body]
#[verifier::reject_recursive_types(C)]
pub struct ExExponentialBackoff<C>(backoff::exponential::ExponentialBackoff<C>);

#[verifier::external_type_specification]
#[verifier::external_body]
pub struct ExSystemClock(backoff::SystemClock);

/// Relies on backoff's `ExponentialBackoff::default`: the standard policy
/// (0.5 s initial interval, multiplier 1.5, 60 s cap per step, 15 min
/// overall cap). The value is opaque here; nothing is assumed of it.
#[verifier::external_body]
fn default_backoff() -> backoff::ExponentialBackoff {
    backoff::ExponentialBackoff::default()
}

/// Relies on backoff's `Backoff::next_backoff` for `ExponentialBackoff`:
/// either the next wait, in milliseconds, or `None` once the overall
/// elapsed-time budget is spent. The result depends on the clock and on
/// random jitter, so nothing is assumed about which of the two comes back.
#[verifier::external_body]
fn next_backoff_ms(b: &mut backoff::ExponentialBackoff) -> Option<u64> {
    backoff::backoff::Backoff::next_backoff(b).map(|d| d.as_millis() as u64)
}

/// What to do after a failed attempt: wait the given number of milliseconds
/// and try again, or give up and surface the error to the caller.
#[derive(Clone, Debug, PartialEq, Eq)]
pub enum RetryPolicy {
    WaitRetry(u64),
    ForwardError(Error),
}

/// The decision rule of the retry engine, as a function of the number of
/// failed attempts so far (this one included), the attempt budget, the
/// error, and what the backoff source offered. The engine stops when the
/// budget is spent, when the failure is permanent, or when backoff is
/// exhausted; otherwise it waits and retries.
pub open spec fn spec_decide(failures: nat, budget: nat, e: Error, wait: Option<u64>) -> RetryPolicy {
    if failures >= budget {
        RetryPolicy::ForwardError(e)
    } else if classification(e) == Class::Permanent {
        RetryPolicy::ForwardError(e)
    } else {
        match wait {
            Some(d) => RetryPolicy::WaitRetry(d),
            None => RetryPolicy::ForwardError(e),
        }
    }
}

/// The decision rule, executable: `wait` is what the backoff source
/// offered for this step.
pub fn decide(failures: u64, budget: u64, e: Error, wait: Option<u64>) -> (p: RetryPolicy)
    ensures
        p == spec_decide(failures as nat, budget as nat, e, wait),
{
    if failures >= budget {
        return RetryPolicy::ForwardError(e);
    }
    match e.classify() {
        Class::Permanent => RetryPolicy::ForwardError(e),
        Class::Transient => match wait {
            Some(d) => RetryPolicy::WaitRetry(d),
            None => RetryPolicy::ForwardError(e),
        },
    }
}

/// The state of one logical operation's retries: how many attempts have
/// failed, the attempt budget, and the backoff sequence for this operation.
/// One value per in-flight operation; discarded after success or terminal
/// failure.
pub struct RetryState {
    attempt: u64,
    retries: u64,
    backoff: backoff::ExponentialBackoff,
}

impl RetryState {
    /// Failed attempts recorded so far.
    pub closed spec fn attempts_failed(&self) -> nat {
        self.attempt as nat
    }

    /// The attempt budget: the greatest number of attempts the engine
    /// allows for this operation.
    pub closed spec fn budget(&self) -> nat {
        self.retries as nat
    }

    pub fn start(retries: u64) -> (s: RetryState)
        ensures
            s.attempts_failed() == 0,
            s.budget() == retries as nat,
    {
        RetryState { attempt: 0, retries, backoff: default_backoff() }
    }

    /// Record one failed attempt and decide what follows. The choice is
    /// `spec_decide` applied to the new failure count; which wait the
    /// backoff source offered, if any, is up to it.
    pub fn fail(&mut self, e: Error) -> (p: RetryPolicy)
        requires
            old(self).attempts_failed() < u64::MAX,
        ensures
            final(self).budget() == old(self).budget(),
            final(self).attempts_failed() == old(self).attempts_failed() + 1,
            exists|w: Option<u64>|
                p == #[trigger] spec_decide(old(self).attempts_failed() + 1, old(self).budget(), e, w),
            old(self).attempts_failed() + 1 >= old(self).budget() ==> p == RetryPolicy::ForwardError(e),
            classification(e) == Class::Permanent ==> p == RetryPolicy::ForwardError(e),
            p is WaitRetry ==> old(self).attempts_failed() + 1 < old(self).budget()
                && classification(e) == Class::Transient,
            p is ForwardError ==> p == RetryPolicy::ForwardError(e),
    {
        self.attempt = self.attempt + 1;
        if self.attempt >= self.retries {
            let p = RetryPolicy::ForwardError(e);
            proof {
                assert(p == spec_decide(old(self).attempts_failed() + 1, old(self).budget(), e, None));
            }
            return p;
        }
        match e.classify() {
            Class::Permanent => {
                let p = RetryPolicy::ForwardError(e);
                proof {
                    assert(p == spec_decide(old(self).attempts_failed() + 1, old(self).budget(), e, None));
                }
                p
            },
            Class::Transient => {
                let w = next_backoff_ms(&mut self.backoff);
                let p = decide(self.attempt, self.retries, e, w);
                proof {
                    assert(p == spec_decide(old(self).attempts_failed() + 1, old(self).budget(), e, w));
                }
                p
            },
        }
    }
}

/// The retry handler used around asynchronous attempts. Here `attempt` is
/// handed in by the caller, 1-based, and `retries` counts retries beyond
/// the first attempt, so the budget is `retries + 1` attempts in all.
pub struct Retry {
    backoff: backoff::ExponentialBackoff,
    retries: u64,
}

impl Retry {
    /// Retries allowed beyond the first attempt.
    pub closed spec fn retries_allowed(&self) -> nat {
        self.retries as nat
    }

    pub fn new(retries: u64) -> (r: Retry)
        ensures
            r.retries_allowed() == retries as nat,
    {
        Retry { backoff: default_backoff(), retries }
    }

    /// Decide what follows the `attempt`-th failed attempt: the decision
    /// rule with a budget of one more than the allowed retries.
    pub fn handle(&mut self, attempt: u64, e: Error) -> (p: RetryPolicy)
        ensures
            final(self).retries_allowed() == old(self).retries_allowed(),
            exists|w: Option<u64>|
                p == #[trigger] spec_decide(attempt as nat, old(self).retries_allowed() + 1, e, w),
            attempt > old(self).retries_allowed() ==> p == RetryPolicy::ForwardError(e),
            classification(e) == Class::Permanent ==> p == RetryPolicy::ForwardError(e),
            p is WaitRetry ==> attempt <= old(self).retries_allowed()
                && classification(e) == Class::Transient,
            p is ForwardError ==> p == RetryPolicy::ForwardError(e),
    {
        if attempt > self.retries {
            let p = RetryPolicy::ForwardError(e);
            proof {
                assert(p == spec_decide(attempt as nat, old(self).retries_allowed() + 1, e, None));
            }
            return p;
        }
        match e.classify() {
            Class::Permanent => {
                let p = RetryPolicy::ForwardError(e);
                proof {
                    assert(p == spec_decide(attempt as nat, old(self).retries_allowed() + 1, e, None));
                }
                p
            },
            Class::Transient => {
                let w = next_backoff_ms(&mut self.backoff);
                let p = match w {
                    Some(d) => RetryPolicy::WaitRetry(d),
                    None => RetryPolicy::ForwardError(e),
                };
                proof {
                    assert(p == spec_decide(attempt as nat, old(self).retries_allowed() + 1, e, w));
                }
                p
            },
        }
    }
}

/// How many attempts the engine makes, counting from a point where `k`
/// attempts have already failed, against an operation whose next `failing`
/// attempts fail transiently and whose following attempt succeeds, when
/// every backoff wait is granted. An attempt is always made; it is followed
/// by another exactly when it fails and the decision rule says to wait.
pub open spec fn attempts_from(k: nat, budget: nat, failing: nat) -> nat
    decreases failing,
{
    if failing == 0 {
        1
    } else if k + 1 < budget {
        1 + attempts_from(k + 1, budget, (failing - 1) as nat)
    } else {
        1
    }
}

/// How many attempts the engine makes in all against an operation whose
/// first `failing` attempts fail transiently, with every backoff wait
/// granted.
pub open spec fn attempts_made(budget: nat, failing: nat) -> nat {
    attempts_from(0, budget, failing)
}

/// The recursion in `attempts_from` continues exactly where the decision
/// rule answers a wait: a transient failure, within budget, with a wait on
/// offer.
pub proof fn lemma_decide_continues(failures: nat, budget: nat, e: Error, w: u64)
    ensures
        (spec_decide(failures, budget, e, Some(w)) is WaitRetry) <==> (failures < budget
            && classification(e) == Class::Transient),
{
}

/// A failure classified permanent ends the operation at once, whatever the
/// remaining budget and whatever the backoff source would have offered: the
/// attempt that revealed it is the last.
pub proof fn lemma_permanent_fails_fast(failures: nat, budget: nat, e: Error, wait: Option<u64>)
    requires
        classification(e) == Class::Permanent,
    ensures
        spec_decide(failures, budget, e, wait) == RetryPolicy::ForwardError(e),
{
}

/// With a budget of zero the first failure, of any kind, ends the
/// operation: no retry follows it.
pub proof fn lemma_zero_budget_stops(e: Error, wait: Option<u64>)
    ensures
        spec_decide(1, 0, e, wait) == RetryPolicy::ForwardError(e),
        forall|failing: nat| #[trigger] attempts_made(0, failing) == 1,
{
    assert forall|failing: nat| #[trigger] attempts_made(0, failing) == 1 by {
        reveal(attempts_from);
    }
}

/// Against transient failures with every wait granted, the engine makes
/// `min(budget, failing + 1)` attempts — `failing + 1` being the attempt
/// on which the operation would first succeed — except that the first
/// attempt is always made, budget or none.
pub proof fn lemma_attempt_count(k: nat, budget: nat, failing: nat)
    ensures
        attempts_from(k, budget, failing) == if k + failing + 1 <= budget {
            failing + 1
        } else if k + 1 <= budget {
            (budget - k) as nat
        } else {
            1
        },
    decreases failing,
{
    if failing > 0 && k + 1 < budget {
        lemma_attempt_count(k + 1, budget, (failing - 1) as nat);
    }
}

/// An operation that fails transiently on every attempt is given exactly
/// its budget of attempts — one, if the budget is zero — and no more.
pub proof fn lemma_budget_exhausted(budget: nat, failing: nat)
    requires
        failing >= budget,
    ensures
        attempts_made(budget, failing) == if budget == 0 {
            1
        } else {
            budget
        },
{
    lemma_attempt_count(0, budget, failing);
}

/// An operation that recovers within its budget is attempted until the
/// success, `failing + 1` times, and not after it.
pub proof fn lemma_attempts_until_success(budget: nat, failing: nat)
    requires
        failing + 1 <= budget,
    ensures
        attempts_made(budget, failing) == failing + 1,
{
    lemma_attempt_count(0, budget, failing);
}

} // verus!
