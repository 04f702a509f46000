//! Bounded retry with exponential backoff, as a state machine: the caller makes
//! the attempts and sleeps, the machine decides what comes next.

use vstd::prelude::*;
use crate::errors::FrameQueryError;
use crate::transport::Outcome;

verus! {

/// The longest wait between two attempts, in seconds.
pub const MAX_BACKOFF_SECS: u64 = 32;

/// Two to the power `n`.
pub open spec fn pow2(n: nat) -> nat
    decreases n,
{
    if n == 0 {
        1
    } else {
        2 * pow2((n - 1) as nat)
    }
}

/// The seconds to wait before attempt number `attempt`, counted from zero:
/// nothing before the first, then one second, doubled each time, and never more
/// than [`MAX_BACKOFF_SECS`].
pub open spec fn backoff(attempt: nat) -> nat {
    if attempt == 0 {
        0
    } else if pow2((attempt - 1) as nat) < MAX_BACKOFF_SECS {
        pow2((attempt - 1) as nat)
    } else {
        MAX_BACKOFF_SECS as nat
    }
}

/// Powers of two grow with the exponent.
pub proof fn lemma_pow2_monotonic(a: nat, b: nat)
    requires
        a <= b,
    ensures
        pow2(a) <= pow2(b),
    decreases b,
{
    if a < b {
        lemma_pow2_monotonic(a, (b - 1) as nat);
    }
}

/// The waits before attempts one to seven are 1, 2, 4, 8, 16, 32 and 32
/// seconds, and from the sixth attempt on the wait stays at 32 seconds.
pub proof fn lemma_backoff_sequence()
    ensures
        backoff(0) == 0,
        backoff(1) == 1,
        backoff(2) == 2,
        backoff(3) == 4,
        backoff(4) == 8,
        backoff(5) == 16,
        backoff(6) == 32,
        backoff(7) == 32,
        forall|attempt: nat| attempt >= 6 ==> #[trigger] backoff(attempt) == 32,
{
    reveal_with_fuel(pow2, 7);
    assert(pow2(5) == 32);
    assert forall|attempt: nat| attempt >= 6 implies #[trigger] backoff(attempt) == 32 by {
        lemma_pow2_monotonic(5, (attempt - 1) as nat);
    }
}

/// The seconds to wait before attempt number `attempt`, counted from zero.
pub fn backoff_seconds(attempt: u32) -> (secs: u64)
    ensures
        secs == backoff(attempt as nat),
        secs <= MAX_BACKOFF_SECS,
{
    if attempt == 0 {
        return 0;
    }
    let doublings: u32 = if attempt - 1 < 5 {
        attempt - 1
    } else {
        5
    };
    let mut secs: u64 = 1;
    let mut i: u32 = 0;
    while i < doublings
        invariant
            i <= doublings <= 5,
            secs == pow2(i as nat),
            secs <= 32,
        decreases doublings - i,
    {
        proof {
            reveal_with_fuel(pow2, 7);
            lemma_pow2_monotonic((i + 1) as nat, 5);
        }
        secs = secs * 2;
        i += 1;
    }
    proof {
        reveal_with_fuel(pow2, 7);
        if attempt - 1 >= 5 {
            lemma_pow2_monotonic(5, (attempt - 1) as nat);
        } else {
            lemma_pow2_monotonic((attempt - 1) as nat, 4);
        }
    }
    secs
}

/// Where a call stands: how many retries it may make, and which attempt, counted
/// from zero, is under way.
#[derive(Clone, Copy, Debug, PartialEq, Eq, Structural)]
pub struct RetryState {
    pub max_retries: u32,
    pub attempt: u32,
}

/// What the caller does next.
#[derive(Debug, PartialEq)]
pub enum RetryAction<T> {
    /// Sleep for `wait_secs` seconds, then make another attempt.
    Attempt { wait_secs: u64 },
    /// Stop, with this result.
    Finish(Result<T, FrameQueryError>),
}

/// The state and the action that follow `outcome` in `state`. Success and a
/// fatal failure end the call at once; a transient failure leads to another
/// attempt after the backoff, or, where no retry is left, ends the call with
/// that failure.
pub open spec fn step<T>(state: RetryState, outcome: Outcome<T>) -> (RetryState, RetryAction<T>) {
    match outcome {
        Outcome::Success(value) => (state, RetryAction::Finish(Ok(value))),
        Outcome::Fatal(error) => (state, RetryAction::Finish(Err(error))),
        Outcome::Transient(error) => if state.attempt < state.max_retries {
            (
                RetryState { max_retries: state.max_retries, attempt: (state.attempt + 1) as u32 },
                RetryAction::Attempt { wait_secs: backoff((state.attempt + 1) as nat) as u64 },
            )
        } else {
            (state, RetryAction::Finish(Err(error)))
        },
    }
}

impl RetryState {
    /// The state in which the first attempt is made, at once.
    pub fn new(max_retries: u32) -> (state: RetryState)
        ensures
            state == (RetryState { max_retries, attempt: 0 }),
    {
        RetryState { max_retries, attempt: 0 }
    }

    /// Takes the outcome of the attempt under way and says what comes next.
    pub fn on_outcome<T>(&mut self, outcome: Outcome<T>) -> (action: RetryAction<T>)
        ensures
            (*final(self), action) == step(*old(self), outcome),
    {
        match outcome {
            Outcome::Success(value) => RetryAction::Finish(Ok(value)),
            Outcome::Fatal(error) => RetryAction::Finish(Err(error)),
            Outcome::Transient(error) => {
                if self.attempt < self.max_retries {
                    self.attempt = self.attempt + 1;
                    RetryAction::Attempt { wait_secs: backoff_seconds(self.attempt) }
                } else {
                    RetryAction::Finish(Err(error))
                }
            },
        }
    }
}

/// What a whole call amounts to: the waits it made, in order, the number of
/// attempts, and its result, or no result where the outcomes ran out first.
pub struct Run<T> {
    pub waits: Seq<nat>,
    pub attempts: nat,
    pub result: Option<Result<T, FrameQueryError>>,
}

/// The call that starts in `state` and meets `outcomes`, one for each attempt
/// it makes.
pub open spec fn run<T>(state: RetryState, outcomes: Seq<Outcome<T>>) -> Run<T>
    decreases outcomes.len(),
{
    if outcomes.len() == 0 {
        Run { waits: Seq::empty(), attempts: 0, result: None }
    } else {
        match step(state, outcomes[0]) {
            (_, RetryAction::Finish(result)) => Run {
                waits: Seq::empty(),
                attempts: 1,
                result: Some(result),
            },
            (next, RetryAction::Attempt { wait_secs }) => {
                let rest = run(next, outcomes.drop_first());
                Run {
                    waits: seq![wait_secs as nat] + rest.waits,
                    attempts: 1 + rest.attempts,
                    result: rest.result,
                }
            },
        }
    }
}

/// The first `n` waits of a call that starts at attempt `from`.
pub open spec fn waits_from(from: nat, n: nat) -> Seq<nat> {
    Seq::new(n, |i: int| backoff((from + i + 1) as nat))
}

/// A call that meets `k` transient failures, with `k` retries still left, and
/// then a success or a fatal failure, makes `k` waits by the backoff rule and
/// `k + 1` attempts, and ends as that last outcome says: with the value of the
/// success, or the error of the fatal failure.
pub proof fn lemma_run_ends_after_transients<T>(state: RetryState, outcomes: Seq<Outcome<T>>, k: nat)
    requires
        k < outcomes.len(),
        state.attempt + k <= state.max_retries,
        forall|i: int| 0 <= i < k ==> outcomes[i] is Transient,
        !(outcomes[k as int] is Transient),
    ensures
        run(state, outcomes).waits == waits_from(state.attempt as nat, k),
        run(state, outcomes).attempts == k + 1,
        run(state, outcomes).result == Some(
            match outcomes[k as int] {
                Outcome::Success(value) => Ok::<T, FrameQueryError>(value),
                Outcome::Fatal(error) => Err(error),
                Outcome::Transient(error) => Err(error),
            },
        ),
    decreases k,
{
    if k == 0 {
        assert(run(state, outcomes).waits =~= waits_from(state.attempt as nat, 0));
    } else {
        let next = RetryState { max_retries: state.max_retries, attempt: (state.attempt + 1) as u32 };
        let rest = outcomes.drop_first();
        lemma_run_ends_after_transients(next, rest, (k - 1) as nat);
        lemma_backoff_bounded((state.attempt + 1) as nat);
        assert(run(state, outcomes).waits =~= waits_from(state.attempt as nat, k));
    }
}

/// A call whose first outcome is a fatal failure ends at once: one attempt, no
/// wait, and that failure as the result, whatever the state.
pub proof fn lemma_run_fatal_first<T>(state: RetryState, outcomes: Seq<Outcome<T>>)
    requires
        outcomes.len() > 0,
        outcomes[0] is Fatal,
    ensures
        run(state, outcomes).waits.len() == 0,
        run(state, outcomes).attempts == 1,
        run(state, outcomes).result == Some(Err::<T, FrameQueryError>(outcomes[0]->Fatal_0)),
{
}

/// A call whose every attempt fails transiently uses up its retries: from
/// attempt zero it makes `max_retries` waits and `max_retries + 1` attempts, and
/// ends with the error of the last one.
pub proof fn lemma_run_exhausts_retries<T>(state: RetryState, outcomes: Seq<Outcome<T>>)
    requires
        state.attempt <= state.max_retries,
        outcomes.len() > state.max_retries - state.attempt,
        forall|i: int| 0 <= i <= state.max_retries - state.attempt ==> outcomes[i] is Transient,
    ensures
        run(state, outcomes).waits == waits_from(
            state.attempt as nat,
            (state.max_retries - state.attempt) as nat,
        ),
        run(state, outcomes).attempts == state.max_retries - state.attempt + 1,
        run(state, outcomes).result == Some(
            Err::<T, FrameQueryError>(
                outcomes[state.max_retries - state.attempt]->Transient_0,
            ),
        ),
    decreases state.max_retries - state.attempt,
{
    if state.attempt == state.max_retries {
        assert(run(state, outcomes).waits =~= waits_from(state.attempt as nat, 0));
    } else {
        let next = RetryState { max_retries: state.max_retries, attempt: (state.attempt + 1) as u32 };
        let rest = outcomes.drop_first();
        lemma_run_exhausts_retries(next, rest);
        lemma_backoff_bounded((state.attempt + 1) as nat);
        assert(run(state, outcomes).waits =~= waits_from(
            state.attempt as nat,
            (state.max_retries - state.attempt) as nat,
        ));
    }
}

/// No wait is longer than [`MAX_BACKOFF_SECS`].
pub proof fn lemma_backoff_bounded(attempt: nat)
    ensures
        backoff(attempt) <= MAX_BACKOFF_SECS,
{
}

} // verus!
