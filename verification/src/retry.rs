//! Per-item fetch policy: one-shot primary resource, retried secondary
//! resource with linear backoff.
//!
//! The primary resource gets a single attempt; any non-success status or
//! parse failure is terminal for the item. The secondary resource gets up
//! to `MAX_SECONDARY_ATTEMPTS` attempts; an attempt whose status is above
//! `SECONDARY_RETRY_STATUS` is retried after a linearly growing delay
//! (the failed attempt `k`, counted from 0, is followed by a delay of
//! `k + 1` time units, so the delay before attempt `k` is `k`), while a
//! successful status with a malformed payload aborts at once. The caller
//! performs the network I/O and the sleeps; the functions here make every
//! decision.

use vstd::prelude::*;

verus! {

/// Total attempts allowed for the secondary resource.
pub const MAX_SECONDARY_ATTEMPTS: u64 = 10;

/// Status codes above this are terminal for the primary resource.
pub const PRIMARY_TERMINAL_STATUS: u16 = 299;

/// Status codes above this are retryable for the secondary resource.
pub const SECONDARY_RETRY_STATUS: u16 = 399;

/// Outcome of the single primary-resource attempt.
#[derive(PartialEq, Eq, Structural, Debug, Clone, Copy)]
pub enum PrimaryOutcome {
    /// Success status and a well-formed payload: hand it to the store.
    Accepted,
    /// Non-success status: terminal for the item, never retried.
    TerminalStatus,
    /// Success status but a malformed payload: terminal, never retried.
    TerminalParse,
}

/// Decision after one secondary-resource attempt.
#[derive(PartialEq, Eq, Structural, Debug, Clone, Copy)]
pub enum SecondaryDecision {
    /// Success status and a well-formed payload: hand it to the store.
    Accept,
    /// Success status but a malformed payload: abort at once, no retry.
    AbortParse,
    /// Retryable status with attempts left: sleep this many time units,
    /// then try again.
    RetryAfter(u64),
    /// Retryable status on the last allowed attempt: terminal failure.
    Exhausted,
}

/// Result of driving the secondary-resource attempts to completion.
#[derive(PartialEq, Eq, Structural, Debug, Clone, Copy)]
pub enum SecondaryResult {
    /// Attempt `attempt` (counted from 0) returned a success status and
    /// the payload parsed.
    Accepted { attempt: u64 },
    /// Attempt `attempt` returned a success status but the payload was
    /// malformed; the item fails without further attempts.
    AbortedParse { attempt: u64 },
    /// All allowed attempts returned retryable statuses.
    Exhausted,
}

/// How the primary attempt is classified, as a function of the response
/// status and whether the payload parsed.
pub open spec fn spec_classify_primary(status: u16, parse_ok: bool) -> PrimaryOutcome {
    if status > PRIMARY_TERMINAL_STATUS {
        PrimaryOutcome::TerminalStatus
    } else if parse_ok {
        PrimaryOutcome::Accepted
    } else {
        PrimaryOutcome::TerminalParse
    }
}

/// Classify the single primary-resource attempt.
pub fn classify_primary(status: u16, parse_ok: bool) -> (o: PrimaryOutcome)
    ensures
        o == spec_classify_primary(status, parse_ok),
{
    if status > PRIMARY_TERMINAL_STATUS {
        PrimaryOutcome::TerminalStatus
    } else if parse_ok {
        PrimaryOutcome::Accepted
    } else {
        PrimaryOutcome::TerminalParse
    }
}

/// The decision after secondary attempt `attempt` (counted from 0), as a
/// function of the response status and whether the payload parsed.
pub open spec fn spec_secondary_decision(attempt: u64, status: u16, parse_ok: bool) -> SecondaryDecision {
    if status > SECONDARY_RETRY_STATUS {
        if attempt + 1 < MAX_SECONDARY_ATTEMPTS {
            SecondaryDecision::RetryAfter((attempt + 1) as u64)
        } else {
            SecondaryDecision::Exhausted
        }
    } else if parse_ok {
        SecondaryDecision::Accept
    } else {
        SecondaryDecision::AbortParse
    }
}

/// Decide what to do after secondary attempt `attempt` (counted from 0).
pub fn secondary_decision(attempt: u64, status: u16, parse_ok: bool) -> (d: SecondaryDecision)
    requires
        attempt < MAX_SECONDARY_ATTEMPTS,
    ensures
        d == spec_secondary_decision(attempt, status, parse_ok),
{
    if status > SECONDARY_RETRY_STATUS {
        if attempt + 1 < MAX_SECONDARY_ATTEMPTS {
            SecondaryDecision::RetryAfter(attempt + 1)
        } else {
            SecondaryDecision::Exhausted
        }
    } else if parse_ok {
        SecondaryDecision::Accept
    } else {
        SecondaryDecision::AbortParse
    }
}

/// Delay slept after failed attempt `attempt` (counted from 0), in time
/// units: the schedule grows linearly, one unit per attempt already made.
pub fn backoff_delay(attempt: u64) -> (d: u64)
    requires
        attempt < MAX_SECONDARY_ATTEMPTS,
    ensures
        d == attempt + 1,
{
    attempt + 1
}

/// The first `n` attempts all drew a retryable status.
pub open spec fn all_retryable(statuses: Seq<u16>, n: int) -> bool {
    forall|j: int| 0 <= j < n ==> statuses[j] > SECONDARY_RETRY_STATUS
}

/// The delays slept before a run that reached attempt `attempt`: one entry
/// per failed attempt, the entry after attempt `j` being `j + 1`.
pub open spec fn backoff_schedule(attempt: u64) -> Seq<u64> {
    Seq::new(attempt as nat, |j: int| (j + 1) as u64)
}

/// What driving the secondary attempts produced: the final result and the
/// delays slept between attempts, in order.
pub struct SecondaryRun {
    /// How the attempts ended.
    pub result: SecondaryResult,
    /// Delay slept after each failed-and-retried attempt, in order.
    pub delays: Vec<u64>,
}

/// Drive the secondary-resource policy over the statuses the upstream
/// returns for successive attempts (`statuses[k]` answering attempt `k`)
/// and whether a successfully fetched payload parses. Attempts stop at the
/// first non-retryable status, or after `MAX_SECONDARY_ATTEMPTS` retryable
/// ones — never an attempt more.
pub fn run_secondary(statuses: &Vec<u16>, parse_ok: bool) -> (run: SecondaryRun)
    requires
        statuses@.len() >= MAX_SECONDARY_ATTEMPTS,
    ensures
        match run.result {
            SecondaryResult::Accepted { attempt } => {
                &&& parse_ok
                &&& attempt < MAX_SECONDARY_ATTEMPTS
                &&& all_retryable(statuses@, attempt as int)
                &&& statuses@[attempt as int] <= SECONDARY_RETRY_STATUS
                &&& run.delays@ == backoff_schedule(attempt)
            },
            SecondaryResult::AbortedParse { attempt } => {
                &&& !parse_ok
                &&& attempt < MAX_SECONDARY_ATTEMPTS
                &&& all_retryable(statuses@, attempt as int)
                &&& statuses@[attempt as int] <= SECONDARY_RETRY_STATUS
                &&& run.delays@ == backoff_schedule(attempt)
            },
            SecondaryResult::Exhausted => {
                &&& all_retryable(statuses@, MAX_SECONDARY_ATTEMPTS as int)
                &&& run.delays@ == backoff_schedule((MAX_SECONDARY_ATTEMPTS - 1) as u64)
            },
        },
{
    let mut delays: Vec<u64> = Vec::new();
    let mut i: u64 = 0;
    while i < MAX_SECONDARY_ATTEMPTS
        invariant
            statuses@.len() >= MAX_SECONDARY_ATTEMPTS,
            i <= MAX_SECONDARY_ATTEMPTS - 1,
            all_retryable(statuses@, i as int),
            delays@ == backoff_schedule(i),
        decreases MAX_SECONDARY_ATTEMPTS - i,
    {
        let status = statuses[i as usize];
        if status > SECONDARY_RETRY_STATUS {
            if i + 1 < MAX_SECONDARY_ATTEMPTS {
                let d = backoff_delay(i);
                delays.push(d);
                proof {
                    assert(delays@ =~= backoff_schedule((i + 1) as u64));
                }
                i = i + 1;
            } else {
                proof {
                    assert(all_retryable(statuses@, MAX_SECONDARY_ATTEMPTS as int));
                }
                return SecondaryRun { result: SecondaryResult::Exhausted, delays };
            }
        } else {
            if parse_ok {
                return SecondaryRun { result: (SecondaryResult::Accepted { attempt: i }), delays };
            } else {
                return SecondaryRun { result: (SecondaryResult::AbortedParse { attempt: i }), delays };
            }
        }
    }
    // The loop can only be left by returning: the final failing attempt
    // returns `Exhausted` from inside it.
    proof {
        assert(false);
    }
    SecondaryRun { result: SecondaryResult::Exhausted, delays }
}

/// Backoff-schedule law: when the secondary resource keeps failing with a
/// retryable status, the delay before attempt `k` (counted from 0) is
/// exactly `k` time units, and the decision after the last allowed attempt
/// is a terminal failure — no further attempt is ever scheduled.
pub proof fn lemma_backoff_schedule(k: u64, status: u16, parse_ok: bool)
    requires
        status > SECONDARY_RETRY_STATUS,
    ensures
        1 <= k < MAX_SECONDARY_ATTEMPTS ==> spec_secondary_decision((k - 1) as u64, status, parse_ok)
            == SecondaryDecision::RetryAfter(k),
        spec_secondary_decision((MAX_SECONDARY_ATTEMPTS - 1) as u64, status, parse_ok)
            == SecondaryDecision::Exhausted,
{
}

} // verus!
