use vstd::prelude::*;

use crate::scenario::RetryConfig;
use vstd::arithmetic::power2::{lemma_pow2_unfold, pow2};

verus! {

/// The pause, in milliseconds, that follows the `k`-th failed send (counting
/// from 0): the initial backoff, then each time twice the previous pause but
/// never more than the configured maximum.
pub open spec fn backoff_after(c: RetryConfig, k: nat) -> int
    decreases k,
{
    if k == 0 {
        c.initial_backoff_ms as int
    } else {
        let doubled = 2 * backoff_after(c, (k - 1) as nat);
        if doubled < c.max_backoff_ms { doubled } else { c.max_backoff_ms as int }
    }
}

/// What to do next while sending one message.
#[derive(Debug, Clone, Copy, PartialEq, Eq)]
pub enum SendStep {
    /// Try to send (again).
    Attempt,
    /// Give up: every allowed attempt failed, and the last failure is reported.
    GiveUpAfterFailure,
    /// Give up without having tried (no attempt is allowed).
    GiveUpUntried,
}

/// What to do after `failed` failed attempts under policy `c`: attempt while
/// fewer than `max_retries` attempts have failed; then give up, reporting the
/// last failure if there was one.
pub open spec fn send_step(c: RetryConfig, failed: nat) -> SendStep {
    if failed < c.max_retries {
        SendStep::Attempt
    } else if failed > 0 {
        SendStep::GiveUpAfterFailure
    } else {
        SendStep::GiveUpUntried
    }
}

/// How the send of one message ends.
pub enum SendOutcome {
    /// Attempt number `attempts` (counting from 1) delivered the message.
    Delivered { attempts: nat },
    /// All `attempts` attempts failed; the error reported is that of attempt
    /// number `reported` (counting from 0).
    GaveUp { attempts: nat, reported: nat },
    /// No attempt was allowed.
    Untried,
}

/// The send of one message driven by [`SendRetry::next_step`] and
/// [`SendRetry::record_failure`], from `failed` failed attempts on, when
/// attempt number `i` (counting from 0) delivers exactly when `outcomes[i]`.
pub open spec fn send_run(c: RetryConfig, failed: nat, outcomes: Seq<bool>) -> SendOutcome
    decreases c.max_retries - failed,
{
    match send_step(c, failed) {
        SendStep::Attempt => if outcomes[failed as int] {
            SendOutcome::Delivered { attempts: failed + 1 }
        } else {
            send_run(c, failed + 1, outcomes)
        },
        SendStep::GiveUpAfterFailure => SendOutcome::GaveUp { attempts: failed, reported: (failed - 1) as nat },
        SendStep::GiveUpUntried => SendOutcome::Untried,
    }
}

/// Progress of the attempts to send one message under a retry policy.
#[derive(Debug, Clone, Copy)]
pub struct SendRetry {
    config: RetryConfig,
    attempt: u32,
    backoff_ms: u64,
}

impl SendRetry {
    #[verifier::type_invariant]
    spec fn consistent(self) -> bool {
        &&& self.attempt <= self.config.max_retries
        &&& self.backoff_ms == backoff_after(self.config, self.attempt as nat)
    }

    /// The retry policy.
    pub closed spec fn policy(self) -> RetryConfig {
        self.config
    }

    /// How many attempts have failed so far.
    pub closed spec fn failures(self) -> nat {
        self.attempt as nat
    }

    /// Before any attempt.
    pub fn start(config: RetryConfig) -> (r: SendRetry)
        ensures
            r.policy() == config,
            r.failures() == 0,
    {
        SendRetry { config, attempt: 0, backoff_ms: config.initial_backoff_ms }
    }

    /// The pause that follows the next failure.
    pub fn backoff_ms(&self) -> (ms: u64)
        ensures
            ms == backoff_after(self.policy(), self.failures()),
    {
        proof {
            use_type_invariant(self);
        }
        self.backoff_ms
    }

    /// How many attempts have failed so far.
    pub fn attempts_failed(&self) -> (n: u32)
        ensures
            n == self.failures(),
    {
        self.attempt
    }

    /// What to do next: attempt while fewer than `max_retries` attempts have
    /// failed, then give up.
    pub fn next_step(&self) -> (s: SendStep)
        ensures
            self.failures() <= self.policy().max_retries,
            s == send_step(self.policy(), self.failures()),
    {
        proof {
            use_type_invariant(self);
        }
        if self.attempt < self.config.max_retries {
            SendStep::Attempt
        } else if self.attempt > 0 {
            SendStep::GiveUpAfterFailure
        } else {
            SendStep::GiveUpUntried
        }
    }

    /// Records a failed attempt and returns how long to pause before the next
    /// step.
    pub fn record_failure(&mut self) -> (pause_ms: u64)
        requires
            old(self).failures() < old(self).policy().max_retries,
            2 * backoff_after(old(self).policy(), old(self).failures()) <= u64::MAX,
        ensures
            final(self).policy() == old(self).policy(),
            final(self).failures() == old(self).failures() + 1,
            pause_ms == backoff_after(old(self).policy(), old(self).failures()),
    {
        proof {
            use_type_invariant(&*self);
        }
        let pause_ms = self.backoff_ms;
        let doubled = pause_ms * 2;
        let next = if doubled < self.config.max_backoff_ms { doubled } else { self.config.max_backoff_ms };
        let attempt = self.attempt + 1;
        proof {
            assert(backoff_after(self.config, attempt as nat) == next);
        }
        *self = SendRetry { config: self.config, attempt, backoff_ms: next };
        pause_ms
    }
}

/// The whole send of one message, when attempt number `i` (counting from 0)
/// delivers exactly when `outcomes[i]`: it is delivered exactly when one of
/// the first `max_retries` attempts delivers, and then by the first such
/// attempt, with no attempt after it; otherwise all `max_retries` attempts
/// are made and the error reported is the last attempt's; with `max_retries`
/// zero nothing is tried.
pub proof fn lemma_whole_send(c: RetryConfig, outcomes: Seq<bool>)
    requires
        outcomes.len() >= c.max_retries,
    ensures
        (send_run(c, 0, outcomes) is Delivered) <==> exists|i: int| 0 <= i < c.max_retries && #[trigger] outcomes[i],
        send_run(c, 0, outcomes) matches SendOutcome::Delivered { attempts } ==> 1 <= attempts <= c.max_retries
            && outcomes[attempts - 1] && forall|j: int| 0 <= j < attempts - 1 ==> !#[trigger] outcomes[j],
        send_run(c, 0, outcomes) matches SendOutcome::GaveUp { attempts, reported } ==> attempts == c.max_retries
            && attempts > 0 && reported == attempts - 1,
        (send_run(c, 0, outcomes) is Untried) <==> c.max_retries == 0,
{
    lemma_send_run_from(c, 0, outcomes);
}

/// [`lemma_whole_send`] from `k` failed attempts on.
proof fn lemma_send_run_from(c: RetryConfig, k: nat, outcomes: Seq<bool>)
    requires
        outcomes.len() >= c.max_retries,
        k <= c.max_retries,
        forall|j: int| 0 <= j < k ==> !#[trigger] outcomes[j],
    ensures
        (send_run(c, k, outcomes) is Delivered) <==> exists|i: int| 0 <= i < c.max_retries && #[trigger] outcomes[i],
        send_run(c, k, outcomes) matches SendOutcome::Delivered { attempts } ==> 1 <= attempts <= c.max_retries
            && outcomes[attempts - 1] && forall|j: int| 0 <= j < attempts - 1 ==> !#[trigger] outcomes[j],
        send_run(c, k, outcomes) matches SendOutcome::GaveUp { attempts, reported } ==> attempts == c.max_retries
            && attempts > 0 && reported == attempts - 1,
        (send_run(c, k, outcomes) is Untried) <==> c.max_retries == 0,
    decreases c.max_retries - k,
{
    if k < c.max_retries {
        if !outcomes[k as int] {
            lemma_send_run_from(c, k + 1, outcomes);
        } else {
            assert(outcomes[k as int]);
        }
    } else {
        assert forall|i: int| 0 <= i < c.max_retries implies !#[trigger] outcomes[i] by {}
    }
}

/// After the first failure, a pause never exceeds the configured maximum; and
/// no pause exceeds the larger of the initial backoff and the maximum.
pub proof fn lemma_backoff_capped(c: RetryConfig, k: nat)
    ensures
        k >= 1 ==> backoff_after(c, k) <= c.max_backoff_ms,
        backoff_after(c, k) <= c.initial_backoff_ms || backoff_after(c, k) <= c.max_backoff_ms,
        backoff_after(c, k) >= 0,
    decreases k,
{
    if k > 0 {
        lemma_backoff_capped(c, (k - 1) as nat);
    }
}

/// When the initial backoff does not exceed the maximum, pauses never shrink
/// from one failure to the next.
pub proof fn lemma_backoff_nondecreasing(c: RetryConfig, j: nat, k: nat)
    requires
        c.initial_backoff_ms <= c.max_backoff_ms,
        j <= k,
    ensures
        backoff_after(c, j) <= backoff_after(c, k),
    decreases k - j,
{
    if j < k {
        lemma_backoff_nondecreasing(c, j, (k - 1) as nat);
        lemma_backoff_capped(c, (k - 1) as nat);
    }
}

/// Once a pause reaches the maximum, every later pause is the maximum.
pub proof fn lemma_backoff_stays_at_max(c: RetryConfig, j: nat, k: nat)
    requires
        backoff_after(c, j) == c.max_backoff_ms,
        j <= k,
    ensures
        backoff_after(c, k) == c.max_backoff_ms,
    decreases k - j,
{
    if j < k {
        lemma_backoff_stays_at_max(c, j, (k - 1) as nat);
    }
}

/// After `k >= 1` failures the pause is the initial backoff doubled `k` times,
/// capped at the maximum.
pub proof fn lemma_backoff_closed_form(c: RetryConfig, k: nat)
    requires
        k >= 1,
    ensures
        backoff_after(c, k) == if c.initial_backoff_ms * pow2(k) < c.max_backoff_ms {
            c.initial_backoff_ms * pow2(k)
        } else {
            c.max_backoff_ms as int
        },
    decreases k,
{
    lemma_pow2_unfold(k);
    let i = c.initial_backoff_ms as int;
    assert(i * pow2(k) == 2 * (i * pow2((k - 1) as nat))) by (nonlinear_arith)
        requires
            pow2(k) == 2 * pow2((k - 1) as nat),
    ;
    let x = i * pow2((k - 1) as nat);
    if k > 1 {
        lemma_backoff_closed_form(c, (k - 1) as nat);
        assert(backoff_after(c, (k - 1) as nat) == if x < c.max_backoff_ms { x } else { c.max_backoff_ms as int });
    } else {
        assert(pow2(0) == 1) by {
            vstd::arithmetic::power2::lemma2_to64();
        }
        assert(x == i) by (nonlinear_arith)
            requires
                x == i * pow2(0),
                pow2(0) == 1,
        ;
    }
    let prev = backoff_after(c, (k - 1) as nat);
    assert(prev == x || (x >= c.max_backoff_ms && prev == c.max_backoff_ms));
    assert(i * pow2(k) == 2 * x);
    if prev == x {
        assert(backoff_after(c, k) == if 2 * x < c.max_backoff_ms { 2 * x } else { c.max_backoff_ms as int });
    } else {
        assert(backoff_after(c, k) == c.max_backoff_ms);
    }
}

} // verus!
