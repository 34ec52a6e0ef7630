//! When a failed attempt is repeated, and after how long.
//!
//! Only failures of the network that may pass are retried: a connection that
//! could not be made, a timeout, both before any answer came. An answer that
//! breaks off while it is read is surfaced at once. The wait before retry number
//! `n`, counted from zero, is the base delay times the factor to the power
//! `n`, capped at the maximum delay. Once more time than the total budget has
//! passed since the first attempt, the failure is surfaced instead. A response
//! is always delivered, whatever its status.

use crate::github_api::request::RawResponse;
use vstd::arithmetic::mul::*;
use vstd::arithmetic::power::*;
use vstd::prelude::*;

verus! {

/// The numbers of a retry policy, in milliseconds.
pub struct RetrySchedule {
    pub base_delay_ms: nat,
    pub factor: nat,
    pub max_delay_ms: nat,
    pub total_budget_ms: nat,
}

impl RetrySchedule {
    /// The numbers that make a policy: waits never shrink, and never vanish.
    pub open spec fn valid(self) -> bool {
        &&& 1 <= self.base_delay_ms <= self.max_delay_ms
        &&& 1 <= self.factor
    }

    /// The wait before retry number `retries`.
    pub open spec fn delay(self, retries: nat) -> nat {
        let grown = self.base_delay_ms * pow(self.factor as int, retries);
        if grown < self.max_delay_ms {
            grown as nat
        } else {
            self.max_delay_ms
        }
    }

    /// Whether a failure seen `elapsed_ms` after the first attempt is final.
    pub open spec fn gives_up(self, elapsed_ms: nat) -> bool {
        elapsed_ms > self.total_budget_ms
    }

    /// The time spent waiting before attempt number `retries` begins, which
    /// is all the time that has passed when every attempt fails at once.
    pub open spec fn waited(self, retries: nat) -> nat
        decreases retries,
    {
        if retries == 0 {
            0
        } else {
            self.waited((retries - 1) as nat) + self.delay((retries - 1) as nat)
        }
    }

    /// What follows a failure of the network.
    pub open spec fn decision(self, retries: nat, elapsed_ms: nat) -> RetryDecision {
        if self.gives_up(elapsed_ms) {
            RetryDecision::GiveUp
        } else {
            RetryDecision::RetryAfter { delay_ms: self.delay(retries) as u64 }
        }
    }

    /// What follows an attempt.
    pub open spec fn step(self, retries: nat, elapsed_ms: nat, outcome: AttemptOutcome) -> TransportStep {
        match outcome {
            AttemptOutcome::Response(response) => TransportStep::Deliver(response),
            AttemptOutcome::PermanentFailure => TransportStep::Fail,
            AttemptOutcome::TransientFailure => match self.decision(retries, elapsed_ms) {
                RetryDecision::GiveUp => TransportStep::Fail,
                RetryDecision::RetryAfter { delay_ms } => TransportStep::RetryAfter { delay_ms },
            },
        }
    }
}

proof fn lemma_grown_is_positive(schedule: RetrySchedule, retries: nat)
    requires
        schedule.valid(),
    ensures
        schedule.base_delay_ms * pow(schedule.factor as int, retries) >= 1,
{
    lemma_pow_positive(schedule.factor as int, retries);
    assert(schedule.base_delay_ms * pow(schedule.factor as int, retries) >= 1) by (nonlinear_arith)
        requires
            schedule.base_delay_ms >= 1,
            pow(schedule.factor as int, retries) >= 1,
    ;
}

/// One second at first, doubling, at most a minute, for five minutes.
pub open spec fn standard_schedule() -> RetrySchedule {
    RetrySchedule { base_delay_ms: 1_000, factor: 2, max_delay_ms: 60_000, total_budget_ms: 300_000 }
}

/// What to do after an attempt failed in the network.
#[derive(Debug, Clone, Copy, PartialEq, Eq)]
pub enum RetryDecision {
    RetryAfter { delay_ms: u64 },
    GiveUp,
}

/// How one attempt ended.
#[derive(Debug, PartialEq, Eq)]
pub enum AttemptOutcome {
    /// The server answered.
    Response(RawResponse),
    /// The network failed in a way that may pass: no connection, a timeout.
    TransientFailure,
    /// The request cannot be sent at all.
    PermanentFailure,
}

/// What is known of an attempt that brought no response.
#[derive(Debug, Clone, Copy, PartialEq, Eq)]
pub struct SendFailure {
    /// No connection could be made.
    pub connect: bool,
    /// The attempt ran out of time.
    pub timeout: bool,
    /// The server had answered, and its answer broke off while it was read.
    pub reading_body: bool,
}

/// Whether a failure may pass when the request is sent again: a failure to
/// connect or a timeout, before any answer came.
pub open spec fn is_transient(failure: SendFailure) -> bool {
    !failure.reading_body && (failure.connect || failure.timeout)
}

/// How an attempt that brought no response ended.
pub fn failed_attempt(failure: SendFailure) -> (outcome: AttemptOutcome)
    ensures
        outcome == if is_transient(failure) {
            AttemptOutcome::TransientFailure
        } else {
            AttemptOutcome::PermanentFailure
        },
{
    if !failure.reading_body && (failure.connect || failure.timeout) {
        AttemptOutcome::TransientFailure
    } else {
        AttemptOutcome::PermanentFailure
    }
}

/// What the transport does after an attempt.
#[derive(Debug, PartialEq, Eq)]
pub enum TransportStep {
    /// Hand the response to the caller.
    Deliver(RawResponse),
    /// Wait, then send the same request again.
    RetryAfter { delay_ms: u64 },
    /// Report a transport failure to the caller.
    Fail,
}

/// A retry policy.
#[derive(Debug, Clone, Copy, PartialEq, Eq)]
pub struct RetryPolicy {
    base_delay_ms: u64,
    factor: u64,
    max_delay_ms: u64,
    total_budget_ms: u64,
}

impl View for RetryPolicy {
    type V = RetrySchedule;

    closed spec fn view(&self) -> RetrySchedule {
        RetrySchedule {
            base_delay_ms: self.base_delay_ms as nat,
            factor: self.factor as nat,
            max_delay_ms: self.max_delay_ms as nat,
            total_budget_ms: self.total_budget_ms as nat,
        }
    }
}

impl RetryPolicy {
    #[verifier::type_invariant]
    spec fn well_formed(self) -> bool {
        self@.valid()
    }

    /// The policy of the API client.
    pub fn standard() -> (policy: Self)
        ensures
            policy@ == standard_schedule(),
    {
        RetryPolicy { base_delay_ms: 1_000, factor: 2, max_delay_ms: 60_000, total_budget_ms: 300_000 }
    }

    /// A policy with numbers of its own. The base delay may not exceed the
    /// maximum delay, and neither it nor the factor may be zero.
    pub fn new(base_delay_ms: u64, factor: u64, max_delay_ms: u64, total_budget_ms: u64) -> (policy:
        Self)
        requires
            1 <= base_delay_ms <= max_delay_ms,
            1 <= factor,
        ensures
            policy@ == (RetrySchedule {
                base_delay_ms: base_delay_ms as nat,
                factor: factor as nat,
                max_delay_ms: max_delay_ms as nat,
                total_budget_ms: total_budget_ms as nat,
            }),
    {
        RetryPolicy { base_delay_ms, factor, max_delay_ms, total_budget_ms }
    }

    /// The wait before retry number `retries`, counted from zero.
    pub fn delay_ms(&self, retries: u32) -> (delay: u64)
        ensures
            delay == self@.delay(retries as nat),
    {
        proof {
            use_type_invariant(self);
            lemma_pow0(self.factor as int);
        }
        let mut delay: u64 = self.base_delay_ms;
        let mut grown: u32 = 0;
        while grown < retries && delay < self.max_delay_ms
            invariant
                self@.valid(),
                grown <= retries,
                delay == self@.delay(grown as nat),
            decreases retries - grown,
        {
            let ghost before = self.base_delay_ms * pow(self.factor as int, grown as nat);
            proof {
                lemma_grown_is_positive(self@, grown as nat);
                lemma_grown_is_positive(self@, (grown + 1) as nat);
                assert(delay == before);
                assert(pow(self.factor as int, (grown + 1) as nat) == self.factor * pow(
                    self.factor as int,
                    grown as nat,
                )) by {
                    reveal(pow);
                }
                assert(self.base_delay_ms * pow(self.factor as int, (grown + 1) as nat) == before
                    * self.factor) by (nonlinear_arith)
                    requires
                        before == self.base_delay_ms * pow(self.factor as int, grown as nat),
                        pow(self.factor as int, (grown + 1) as nat) == self.factor * pow(
                            self.factor as int,
                            grown as nat,
                        ),
                ;
            }
            delay = match delay.checked_mul(self.factor) {
                Some(product) => if product < self.max_delay_ms {
                    product
                } else {
                    self.max_delay_ms
                },
                None => self.max_delay_ms,
            };
            grown = grown + 1;
        }
        proof {
            lemma_grown_is_positive(self@, grown as nat);
            lemma_grown_is_positive(self@, retries as nat);
            if grown < retries {
                let reached = pow(self.factor as int, grown as nat);
                let asked = pow(self.factor as int, retries as nat);
                lemma_pow_increases(self.factor as nat, grown as nat, retries as nat);
                lemma_mul_inequality(reached, asked, self.base_delay_ms as int);
                assert(self.base_delay_ms * reached == reached * self.base_delay_ms);
                assert(self.base_delay_ms * asked == asked * self.base_delay_ms);
            }
        }
        delay
    }

    /// Decides on a failure of the network, seen `elapsed_ms` after the
    /// first attempt began and after `retries` retries.
    pub fn after_failure(&self, retries: u32, elapsed_ms: u64) -> (decision: RetryDecision)
        ensures
            decision == self@.decision(retries as nat, elapsed_ms as nat),
    {
        if elapsed_ms > self.total_budget_ms {
            RetryDecision::GiveUp
        } else {
            RetryDecision::RetryAfter { delay_ms: self.delay_ms(retries) }
        }
    }

    /// Decides what follows an attempt that ended with `outcome`,
    /// `elapsed_ms` after the first attempt began and after `retries`
    /// retries.
    pub fn next_step(&self, retries: u32, elapsed_ms: u64, outcome: AttemptOutcome) -> (step:
        TransportStep)
        ensures
            step == self@.step(retries as nat, elapsed_ms as nat, outcome),
    {
        match outcome {
            AttemptOutcome::Response(response) => TransportStep::Deliver(response),
            AttemptOutcome::PermanentFailure => TransportStep::Fail,
            AttemptOutcome::TransientFailure => match self.after_failure(retries, elapsed_ms) {
                RetryDecision::GiveUp => TransportStep::Fail,
                RetryDecision::RetryAfter { delay_ms } => TransportStep::RetryAfter { delay_ms },
            },
        }
    }
}

/// The standard policy waits one, two, four, eight, sixteen and thirty-two
/// seconds before its first six retries, and a minute before every later one.
pub proof fn lemma_standard_delays(retries: nat)
    ensures
        standard_schedule().delay(0) == 1_000,
        standard_schedule().delay(1) == 2_000,
        standard_schedule().delay(2) == 4_000,
        standard_schedule().delay(3) == 8_000,
        standard_schedule().delay(4) == 16_000,
        standard_schedule().delay(5) == 32_000,
        retries >= 6 ==> standard_schedule().delay(retries) == 60_000,
{
    reveal_with_fuel(pow, 8);
    assert(pow(2, 6) == 64);
    if retries >= 6 {
        lemma_pow_increases(2, 6, retries);
        assert(1_000 * pow(2, retries) >= 60_000) by (nonlinear_arith)
            requires
                pow(2, retries) >= 64,
        ;
    }
}

/// Against a transport whose every attempt fails at once, the standard
/// policy is still retrying after nine retries, 243 seconds in, and gives
/// up at the eleventh failure, 303 seconds in: past the budget of five
/// minutes by less than one maximum delay.
pub proof fn lemma_standard_gives_up_after_budget()
    ensures
        standard_schedule().waited(9) == 243_000,
        !standard_schedule().gives_up(standard_schedule().waited(9)),
        standard_schedule().waited(10) == 303_000,
        standard_schedule().gives_up(standard_schedule().waited(10)),
{
    let schedule = standard_schedule();
    lemma_standard_delays(6);
    lemma_standard_delays(7);
    lemma_standard_delays(8);
    lemma_standard_delays(9);
    assert(schedule.waited(0) == 0);
    assert(schedule.waited(1) == 1_000);
    assert(schedule.waited(2) == 3_000);
    assert(schedule.waited(3) == 7_000);
    assert(schedule.waited(4) == 15_000);
    assert(schedule.waited(5) == 31_000);
    assert(schedule.waited(6) == 63_000);
    assert(schedule.waited(7) == 123_000);
    assert(schedule.waited(8) == 183_000);
    assert(schedule.waited(9) == 243_000);
    assert(schedule.waited(10) == 303_000);
}

/// No wait is shorter than the base delay or longer than the maximum delay.
pub proof fn lemma_delay_is_bounded(schedule: RetrySchedule, retries: nat)
    requires
        schedule.valid(),
    ensures
        schedule.base_delay_ms <= schedule.delay(retries) <= schedule.max_delay_ms,
{
    lemma_pow_positive(schedule.factor as int, retries);
    assert(schedule.base_delay_ms * pow(schedule.factor as int, retries) >= schedule.base_delay_ms)
        by (nonlinear_arith)
        requires
            schedule.base_delay_ms >= 1,
            pow(schedule.factor as int, retries) >= 1,
    ;
}

/// A failure is surfaced no earlier than the budget allows, and a retry
/// that is still granted begins no later than one maximum delay past the
/// budget.
pub proof fn lemma_failure_surfaces_near_budget(
    schedule: RetrySchedule,
    retries: nat,
    elapsed_ms: nat,
)
    requires
        schedule.valid(),
    ensures
        schedule.gives_up(elapsed_ms) <==> elapsed_ms > schedule.total_budget_ms,
        !schedule.gives_up(elapsed_ms) ==> elapsed_ms + schedule.delay(retries)
            <= schedule.total_budget_ms + schedule.max_delay_ms,
{
    lemma_delay_is_bounded(schedule, retries);
}

proof fn lemma_waited_grows(schedule: RetrySchedule, retries: nat)
    requires
        schedule.valid(),
    ensures
        schedule.waited(retries) >= retries,
    decreases retries,
{
    if retries > 0 {
        lemma_waited_grows(schedule, (retries - 1) as nat);
        lemma_delay_is_bounded(schedule, (retries - 1) as nat);
    }
}

/// A transport that never stops failing is given up on: the waits alone
/// use up the budget after finitely many retries.
pub proof fn lemma_gives_up_eventually(schedule: RetrySchedule)
    requires
        schedule.valid(),
    ensures
        schedule.gives_up(schedule.waited(schedule.total_budget_ms + 1)),
{
    lemma_waited_grows(schedule, schedule.total_budget_ms + 1);
}

} // verus!
