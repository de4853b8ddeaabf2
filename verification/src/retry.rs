//! The retry policy wrapped around one network operation: every failed
//! attempt is retried after a growing wait, until the budget is used up.
//!
//! The policy is a small state machine. Its driver makes the attempts and
//! sleeps; after each attempt it reports the outcome and does what the
//! machine decides.

use crate::text::{decimal, to_decimal};
use vstd::arithmetic::power::pow;
use vstd::prelude::*;
use vstd::string::*;

verus! {

/// How many times a failed operation is attempted again.
pub const MAX_RETRIES: u32 = 10;

/// The wait after the first failure, in nanoseconds (one second).
pub const INITIAL_WAIT_NANOS: u64 = 1_000_000_000;

/// The factor by which the wait grows from one retry to the next is
/// `BACKOFF_MULTIPLIER_NUMERATOR / BACKOFF_MULTIPLIER_DENOMINATOR`, that is 1.5.
pub const BACKOFF_MULTIPLIER_NUMERATOR: u64 = 3;

pub const BACKOFF_MULTIPLIER_DENOMINATOR: u64 = 2;

/// The three ways in which an attempt fails. All are retried alike.
#[derive(Clone, Copy, Debug, PartialEq, Eq, Structural)]
pub enum FailureKind {
    /// The request could not be sent or no response arrived.
    Transport,
    /// The response carried a status code that is not a success.
    Status,
    /// The response body did not have the expected shape.
    Decode,
}

/// What one attempt came to.
#[derive(Clone, Copy, Debug, PartialEq, Eq, Structural)]
pub enum AttemptOutcome {
    Succeeded,
    Failed(FailureKind),
}

/// What the driver does after an attempt.
#[derive(Clone, Copy, Debug, PartialEq, Eq, Structural)]
pub enum RetryDecision {
    /// The attempt succeeded: its value is the operation's result.
    Done,
    /// Sleep for `wait_nanos` nanoseconds, then attempt again.
    RetryAfter { wait_nanos: u64 },
    /// The budget is used up: the operation fails for good, with the kind of
    /// its last failure and the number of retries that were made.
    GiveUp { failure: FailureKind, retries: u32 },
}

/// The wait before the retry that `retry_count` retries have preceded, in
/// nanoseconds: the initial wait times the multiplier to the power of
/// `retry_count`.
pub open spec fn backoff_wait_nanos(retry_count: nat) -> int {
    INITIAL_WAIT_NANOS as int * pow(BACKOFF_MULTIPLIER_NUMERATOR as int, retry_count) / pow(
        BACKOFF_MULTIPLIER_DENOMINATOR as int,
        retry_count,
    )
}

/// What the policy decides after an attempt, given how many retries were
/// made before it, and the number of retries made after the decision.
pub open spec fn decide(retries: nat, outcome: AttemptOutcome) -> (RetryDecision, nat) {
    match outcome {
        AttemptOutcome::Succeeded => (RetryDecision::Done, retries),
        AttemptOutcome::Failed(failure) => if retries >= MAX_RETRIES {
            (RetryDecision::GiveUp { failure, retries: MAX_RETRIES }, retries)
        } else {
            (
                RetryDecision::RetryAfter { wait_nanos: backoff_wait_nanos(retries) as u64 },
                retries + 1,
            )
        },
    }
}

/// The powers of two and of three up to the ninth.
spec fn small_power(base: int, e: nat) -> int {
    if base == 2 {
        if e == 0 { 1 } else if e == 1 { 2 } else if e == 2 { 4 } else if e == 3 { 8 }
        else if e == 4 { 16 } else if e == 5 { 32 } else if e == 6 { 64 } else if e == 7 { 128 }
        else if e == 8 { 256 } else { 512 }
    } else {
        if e == 0 { 1 } else if e == 1 { 3 } else if e == 2 { 9 } else if e == 3 { 27 }
        else if e == 4 { 81 } else if e == 5 { 243 } else if e == 6 { 729 } else if e == 7 { 2187 }
        else if e == 8 { 6561 } else { 19683 }
    }
}

/// The powers of the multiplier's two parts that the schedule uses.
proof fn lemma_small_powers(e: nat)
    requires
        e < MAX_RETRIES,
    ensures
        pow(2, e) == small_power(2, e),
        pow(3, e) == small_power(3, e),
    decreases e,
{
    reveal(pow);
    if e > 0 {
        lemma_small_powers((e - 1) as nat);
    }
}

/// Within the retry budget no wait is rounded: the wait times the
/// denominator's power is the initial wait times the numerator's power. It
/// also fits the type that carries it.
pub proof fn lemma_backoff_wait_exact(retry_count: nat)
    requires
        retry_count < MAX_RETRIES,
    ensures
        backoff_wait_nanos(retry_count) * pow(BACKOFF_MULTIPLIER_DENOMINATOR as int, retry_count)
            == INITIAL_WAIT_NANOS * pow(BACKOFF_MULTIPLIER_NUMERATOR as int, retry_count),
        INITIAL_WAIT_NANOS <= backoff_wait_nanos(retry_count) <= u64::MAX,
{
    lemma_small_powers(retry_count);
}

/// The three kinds of failure are retried alike: within the budget the kind
/// changes neither the wait nor the count of retries.
pub proof fn lemma_failures_are_retried_alike(retries: nat, one: FailureKind, other: FailureKind)
    requires
        retries < MAX_RETRIES,
    ensures
        decide(retries, AttemptOutcome::Failed(one)) == decide(
            retries,
            AttemptOutcome::Failed(other),
        ),
{
}

/// The decisions that a run of attempts draws, one for each outcome in turn,
/// from a policy that has made `retries` retries before the first of them.
pub open spec fn decisions(retries: nat, outcomes: Seq<AttemptOutcome>) -> Seq<RetryDecision>
    decreases outcomes.len(),
{
    if outcomes.len() == 0 {
        Seq::empty()
    } else {
        let (decision, retries_after) = decide(retries, outcomes.first());
        seq![decision] + decisions(retries_after, outcomes.drop_first())
    }
}

/// While every attempt fails, the decision after an attempt is the one that
/// the count of failures before it calls for.
proof fn lemma_decisions_while_failing(retries: nat, outcomes: Seq<AttemptOutcome>, i: int)
    requires
        0 <= i < outcomes.len(),
        retries + i <= MAX_RETRIES,
        forall|j: int| 0 <= j < outcomes.len() ==> outcomes[j] is Failed,
    ensures
        decisions(retries, outcomes).len() == outcomes.len(),
        decisions(retries, outcomes)[i] == decide((retries + i) as nat, outcomes[i]).0,
    decreases outcomes.len(),
{
    let rest = outcomes.drop_first();
    let retries_after = decide(retries, outcomes.first()).1;
    lemma_decisions_length(retries_after, rest);
    if i > 0 {
        assert forall|j: int| 0 <= j < rest.len() implies rest[j] is Failed by {
            assert(rest[j] == outcomes[j + 1]);
        }
        lemma_decisions_while_failing(retries_after, rest, i - 1);
    }
}

/// Every outcome draws one decision.
proof fn lemma_decisions_length(retries: nat, outcomes: Seq<AttemptOutcome>)
    ensures
        decisions(retries, outcomes).len() == outcomes.len(),
    decreases outcomes.len(),
{
    if outcomes.len() != 0 {
        lemma_decisions_length(decide(retries, outcomes.first()).1, outcomes.drop_first());
    }
}

/// Backoff schedule: an operation that fails at every attempt is attempted
/// `MAX_RETRIES + 1` times. After each attempt but the last the policy asks
/// for a wait, and the wait before attempt `n` (the first attempt being
/// attempt 0) is the initial wait times the multiplier to the power of
/// `n - 1`, unrounded. After the last attempt the policy gives up, with the
/// kind of that attempt's failure.
pub proof fn lemma_backoff_schedule(failures: Seq<FailureKind>)
    requires
        failures.len() == MAX_RETRIES + 1,
    ensures
        ({
            let outcomes = failures.map_values(|kind: FailureKind| AttemptOutcome::Failed(kind));
            let drawn = decisions(0, outcomes);
            &&& drawn.len() == MAX_RETRIES + 1
            &&& forall|n: int|
                1 <= n <= MAX_RETRIES ==> {
                    &&& #[trigger] drawn[n - 1] matches RetryDecision::RetryAfter { wait_nanos }
                    &&& wait_nanos * pow(BACKOFF_MULTIPLIER_DENOMINATOR as int, (n - 1) as nat)
                        == INITIAL_WAIT_NANOS * pow(
                        BACKOFF_MULTIPLIER_NUMERATOR as int,
                        (n - 1) as nat,
                    )
                }
            &&& drawn[MAX_RETRIES as int] == RetryDecision::GiveUp {
                failure: failures[MAX_RETRIES as int],
                retries: MAX_RETRIES,
            }
        }),
{
    let outcomes = failures.map_values(|kind: FailureKind| AttemptOutcome::Failed(kind));
    let drawn = decisions(0, outcomes);
    lemma_decisions_length(0, outcomes);
    assert forall|n: int| 1 <= n <= MAX_RETRIES implies {
        &&& #[trigger] drawn[n - 1] matches RetryDecision::RetryAfter { wait_nanos }
        &&& wait_nanos * pow(BACKOFF_MULTIPLIER_DENOMINATOR as int, (n - 1) as nat)
            == INITIAL_WAIT_NANOS * pow(BACKOFF_MULTIPLIER_NUMERATOR as int, (n - 1) as nat)
    } by {
        lemma_decisions_while_failing(0, outcomes, n - 1);
        lemma_backoff_wait_exact((n - 1) as nat);
    }
    lemma_decisions_while_failing(0, outcomes, MAX_RETRIES as int);
}

/// The state of the retry policy for one operation.
pub struct RetryingClient {
    retries: u32,
}

impl View for RetryingClient {
    type V = nat;

    /// The number of retries made so far.
    closed spec fn view(&self) -> nat {
        self.retries as nat
    }
}

impl RetryingClient {
    #[verifier::type_invariant]
    spec fn within_budget(self) -> bool {
        self.retries <= MAX_RETRIES
    }

    /// The policy before the first attempt.
    pub fn new() -> (client: RetryingClient)
        ensures
            client@ == 0,
    {
        RetryingClient { retries: 0 }
    }

    /// The number of retries made so far.
    pub fn retries(&self) -> (n: u32)
        ensures
            n == self@,
            n <= MAX_RETRIES,
    {
        proof {
            use_type_invariant(self);
        }
        self.retries
    }

    /// Takes the outcome of the attempt just made and decides what follows.
    pub fn record(&mut self, outcome: AttemptOutcome) -> (decision: RetryDecision)
        ensures
            (decision, final(self)@) == decide(old(self)@, outcome),
    {
        proof {
            use_type_invariant(&*self);
        }
        match outcome {
            AttemptOutcome::Succeeded => RetryDecision::Done,
            AttemptOutcome::Failed(failure) => {
                if self.retries >= MAX_RETRIES {
                    RetryDecision::GiveUp { failure, retries: MAX_RETRIES }
                } else {
                    let wait_nanos: u64 = backoff_wait(self.retries);
                    self.retries = self.retries + 1;
                    RetryDecision::RetryAfter { wait_nanos }
                }
            },
        }
    }
}

/// How the error of an operation that was given up on reads: what failed
/// last, for which operation, and after how many retries.
pub open spec fn give_up_text(operation_name: Seq<char>, failure: FailureKind) -> Seq<char> {
    (match failure {
        FailureKind::Transport => "Failed to send request for "@,
        FailureKind::Status => "API returned an error for "@,
        FailureKind::Decode => "Failed to deserialize response for "@,
    }) + operation_name + " after "@ + decimal(MAX_RETRIES as nat) + " retries"@
}

/// Writes the error of an operation that was given up on.
pub fn give_up_message(operation_name: &str, failure: FailureKind) -> (message: String)
    ensures
        message@ == give_up_text(operation_name@, failure),
{
    let mut message: String = match failure {
        FailureKind::Transport => "Failed to send request for ".to_owned(),
        FailureKind::Status => "API returned an error for ".to_owned(),
        FailureKind::Decode => "Failed to deserialize response for ".to_owned(),
    };
    message.append(operation_name);
    message.append(" after ");
    message.append(to_decimal(MAX_RETRIES as u64).as_str());
    message.append(" retries");
    message
}

/// Computes [`backoff_wait_nanos`] within the retry budget.
fn backoff_wait(retry_count: u32) -> (wait_nanos: u64)
    requires
        retry_count < MAX_RETRIES,
    ensures
        wait_nanos == backoff_wait_nanos(retry_count as nat),
{
    let mut numerator: u64 = INITIAL_WAIT_NANOS;
    let mut denominator: u64 = 1;
    let mut i: u32 = 0;
    proof {
        lemma_small_powers(0);
    }
    while i < retry_count
        invariant
            i <= retry_count < MAX_RETRIES,
            numerator == INITIAL_WAIT_NANOS * pow(BACKOFF_MULTIPLIER_NUMERATOR as int, i as nat),
            denominator == pow(BACKOFF_MULTIPLIER_DENOMINATOR as int, i as nat),
        decreases retry_count - i,
    {
        proof {
            lemma_small_powers(i as nat);
            lemma_small_powers((i + 1) as nat);
        }
        numerator = numerator * BACKOFF_MULTIPLIER_NUMERATOR;
        denominator = denominator * BACKOFF_MULTIPLIER_DENOMINATOR;
        i = i + 1;
    }
    proof {
        lemma_small_powers(retry_count as nat);
    }
    numerator / denominator
}

} // verus!
