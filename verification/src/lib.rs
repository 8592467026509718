//! Deterministic replay of failing invariant-test call sequences.
//!
//! Given a call sequence that a property-based search found to violate an
//! invariant, this library re-executes that sequence deterministically to
//! collect diagnostic evidence (logs, traces, execution contexts, coverage)
//! and to build a human-inspectable counterexample.
//!
//! The [`coordinator`] dispatches on the recorded failure, consults the
//! external minimizer when shrinking is enabled, and hands the chosen
//! sequence to the [`replay`] module, which folds the execution engine's
//! per-call results into the accumulated evidence. [`coverage`] and
//! [`registry`] hold the merged coverage map and the growing registry of
//! contract identities, [`counterexample`] builds the per-call descriptors,
//! [`invariant_call`] encodes the read-only invariant check, and [`laws`]
//! states the replay-wide guarantees. The engine itself is an external
//! collaborator: an unverified driver performs its calls and feeds the
//! results back as plain values.

use vstd::prelude::*;

pub mod coordinator;
pub mod counterexample;
pub mod coverage;
pub mod invariant_call;
pub mod laws;
pub mod records;
pub mod registry;
pub mod replay;
pub mod table;

verus! {

/// The count a location ends up with when `b` fresh hits meet an existing
/// count of `a` (a missing entry counts as no hits).
pub open spec fn combine_hits(a: Option<u64>, b: u64) -> u64 {
    match a {
        Some(x) => sat_add(x, b),
        None => b,
    }
}

/// Saturating addition of two hit counts: hit counts never wrap, they clip
/// at the maximum representable count.
pub open spec fn sat_add(a: u64, b: u64) -> u64 {
    if a + b > u64::MAX {
        u64::MAX
    } else {
        (a + b) as u64
    }
}

/// Executable saturating addition, proved against `sat_add`.
pub fn saturating_add_u64(a: u64, b: u64) -> (r: u64)
    ensures
        r == sat_add(a, b),
{
    if b > u64::MAX - a {
        u64::MAX
    } else {
        a + b
    }
}

} // verus!
