//! Probe outcomes and their threshold classification.

use vstd::prelude::*;

verus! {

/// What one probe attempt produced.
pub enum ProbeOutcome {
    /// A reply came back after `round_trip_ms` milliseconds from `address`
    /// (the responder's address in its textual form).
    Success { round_trip_ms: u32, address: String },
    /// No usable reply; `reason` describes why.
    Failure { reason: String },
}

/// The category a probe outcome falls into.
#[derive(Clone, Copy, Debug, PartialEq, Eq, Structural)]
pub enum Category {
    Fail,
    Upper,
    Pass,
}

/// The category of an outcome: failures are `Fail`; successes whose round
/// trip is strictly above the bound are `Upper`; all others are `Pass`.
pub open spec fn category_of(outcome: ProbeOutcome, upper_bound_ms: u64) -> Category {
    match outcome {
        ProbeOutcome::Failure { .. } => Category::Fail,
        ProbeOutcome::Success { round_trip_ms, .. } => {
            if round_trip_ms as u64 > upper_bound_ms {
                Category::Upper
            } else {
                Category::Pass
            }
        },
    }
}

/// Classifies a probe outcome against the latency bound.
pub fn classify(outcome: &ProbeOutcome, upper_bound_ms: u64) -> (r: Category)
    ensures
        r == category_of(*outcome, upper_bound_ms),
{
    match outcome {
        ProbeOutcome::Failure { .. } => Category::Fail,
        ProbeOutcome::Success { round_trip_ms, .. } => {
            if *round_trip_ms as u64 > upper_bound_ms {
                Category::Upper
            } else {
                Category::Pass
            }
        },
    }
}

/// A successful probe whose round trip does not exceed the bound is `Pass`,
/// one that exceeds it is `Upper`; a round trip equal to the bound is `Pass`.
pub proof fn success_against_bound(round_trip_ms: u32, address: String, upper_bound_ms: u64)
    ensures
        round_trip_ms <= upper_bound_ms ==> category_of(
            ProbeOutcome::Success { round_trip_ms, address },
            upper_bound_ms,
        ) == Category::Pass,
        round_trip_ms > upper_bound_ms ==> category_of(
            ProbeOutcome::Success { round_trip_ms, address },
            upper_bound_ms,
        ) == Category::Upper,
        category_of(ProbeOutcome::Success { round_trip_ms, address }, round_trip_ms as u64)
            == Category::Pass,
{
}

/// Every failed probe is `Fail`, whatever its reason and whatever the bound.
pub proof fn failure_is_fail(reason: String, upper_bound_ms: u64)
    ensures
        category_of(ProbeOutcome::Failure { reason }, upper_bound_ms) == Category::Fail,
{
}

/// Classification has no hidden state: the same outcome and bound always
/// give the same category, and two calls agree.
pub proof fn classification_is_deterministic(
    outcome: ProbeOutcome,
    upper_bound_ms: u64,
    first: Category,
    second: Category,
)
    requires
        first == category_of(outcome, upper_bound_ms),
        second == category_of(outcome, upper_bound_ms),
    ensures
        first == second,
{
}

/// Linux `errno` values that mean the probe subsystem itself is unusable
/// (`EPERM`, `ENOMEM`, `EACCES`, `ENFILE`, `EMFILE`, `ENOBUFS`: no
/// permission for a raw socket, no descriptors, no memory or buffers
/// left), as opposed to one probe going unanswered. Other systems number
/// their errors otherwise.
pub open spec fn transport_fault_code(os_code: u32) -> bool {
    os_code == 1 || os_code == 12 || os_code == 13 || os_code == 23 || os_code == 24
        || os_code == 105
}

/// Whether a Linux `errno` met while probing ends the run: resource
/// exhaustion and missing permission do; anything else is an ordinary
/// probe failure.
pub fn is_transport_fault(os_code: u32) -> (r: bool)
    ensures
        r == transport_fault_code(os_code),
{
    os_code == 1 || os_code == 12 || os_code == 13 || os_code == 23 || os_code == 24
        || os_code == 105
}

} // verus!
