//! The failure replay coordinator: turns a recorded failed case into
//! evidence plus counterexample. An abort-kind case is not supported for
//! replay and short-circuits to "no counterexample" without any engine work.
//! For a fail-kind case the external minimizer is consulted when shrinking
//! is enabled (its result is trusted to still reproduce the failure and to
//! be no longer than the original); otherwise the original sequence is
//! replayed unchanged, byte for byte.

use vstd::prelude::*;
use crate::counterexample::CounterExample;
use crate::coverage::CoverageMap;
use crate::records::CallEffects;
use crate::records::CallRecord;
use crate::records::CallRecordModel;
use crate::records::ExecContext;
use crate::records::Log;
use crate::records::Trace;
use crate::records::TraceKind;
use crate::records::TestError;
use crate::records::FailedCase;
use crate::records::call_views;
use crate::records::copy_sequence;
use crate::registry::ContractRegistry;
use crate::replay::contexts_of;
use crate::replay::cov_fold;
use crate::replay::cov_view;
use crate::replay::cov_wf;
use crate::replay::discoveries_of;
use crate::replay::effects_wf;
use crate::replay::entry_at;
use crate::replay::logs_of;
use crate::replay::reg_fold;
use crate::replay::replay_run;
use crate::replay::traces_of;

verus! {

/// The calls a fail-kind case replays: the minimizer's result when
/// shrinking is enabled, the originally recorded sequence otherwise.
pub open spec fn replayed_calls(case: FailedCase, minimized: Option<Vec<CallRecord>>) -> Seq<
    CallRecordModel,
>
    recommends
        case.test_error is Fail,
{
    if case.shrink_sequence {
        call_views(minimized->0@)
    } else {
        call_views(case.test_error->calls@)
    }
}

/// The sequence the external minimizer is to shrink: the originally
/// recorded calls, but only for a fail-kind case with shrinking enabled.
/// The minimizer's contract is to return a sequence, no longer than this
/// one, that still reproduces the failure.
pub fn shrink_request(case: &FailedCase) -> (r: Option<&Vec<CallRecord>>)
    ensures
        case.test_error is Fail && case.shrink_sequence ==> r is Some && r->0@
            == case.test_error->calls@,
        !(case.test_error is Fail && case.shrink_sequence) ==> r is None,
{
    match &case.test_error {
        TestError::Fail { calls } => if case.shrink_sequence {
            Some(calls)
        } else {
            None
        },
        TestError::Abort => None,
    }
}

/// What a recorded failed case asks the driver to do.
pub enum ReplayPlan {
    /// The case is of the abort kind: not supported for replay, no
    /// counterexample, and the execution engine is never invoked.
    Unsupported,
    /// Replay this sequence, call by call, each followed by the invariant
    /// check.
    Execute { sequence: Vec<CallRecord> },
}

/// Decide what to replay: nothing for an abort-kind case; the minimized
/// sequence when shrinking is enabled; otherwise a byte-for-byte copy of
/// the originally recorded sequence. The replayed sequence is never longer
/// than the original.
pub fn replay_plan(case: &FailedCase, minimized: Option<Vec<CallRecord>>) -> (r: ReplayPlan)
    requires
        case.test_error is Fail && case.shrink_sequence ==> minimized is Some && minimized->0@.len()
            <= case.test_error->calls@.len(),
    ensures
        case.test_error is Abort <==> r is Unsupported,
        case.test_error is Fail ==> r is Execute && call_views(r->sequence@) == replayed_calls(
            *case,
            minimized,
        ) && r->sequence@.len() <= case.test_error->calls@.len(),
        case.test_error is Fail && !case.shrink_sequence ==> r->sequence@.len()
            == case.test_error->calls@.len() && (forall|i: int|
            0 <= i < case.test_error->calls@.len() ==> (#[trigger] r->sequence@[i])@
                == case.test_error->calls@[i]@),
{
    match &case.test_error {
        TestError::Abort => ReplayPlan::Unsupported,
        TestError::Fail { calls } => {
            if case.shrink_sequence {
                let sequence = minimized.unwrap();
                ReplayPlan::Execute { sequence }
            } else {
                // Shrinking disabled: replay the original sequence unchanged.
                let sequence = copy_sequence(calls);
                proof {
                    assert(call_views(sequence@) =~= call_views(calls@));
                }
                ReplayPlan::Execute { sequence }
            }
        },
    }
}

/// Replay a recorded failed case from the engine's per-call results.
///
/// An abort-kind case yields no counterexample and leaves every accumulator
/// and the registry untouched. A fail-kind case replays the minimized
/// sequence when shrinking is enabled — trusting the minimizer's contract
/// that it is no longer than the original — and otherwise the original
/// sequence byte for byte; the replay collects logs, traces, contexts and
/// coverage and returns one descriptor per replayed call.
///
/// The driver obtains `minimized` from the external minimizer (see
/// [`shrink_request`]) and `effects` by running the planned sequence
/// against its engine, one committing call and one read-only invariant
/// check per position (see [`replay_plan`],
/// [`crate::replay::sequence_call_request`] and
/// [`crate::invariant_call::invariant_check_request`]).
pub fn replay_error(
    failed_case: &FailedCase,
    minimized: Option<Vec<CallRecord>>,
    effects: Vec<CallEffects>,
    ided_contracts: ContractRegistry,
    logs: &mut Vec<Log>,
    traces: &mut Vec<(TraceKind, Trace)>,
    contexts: &mut Vec<ExecContext>,
    coverage: &mut Option<CoverageMap>,
) -> (r: (Option<CounterExample>, ContractRegistry))
    requires
        effects_wf(effects@),
        ided_contracts.wf(),
        cov_wf(*old(coverage)),
        failed_case.test_error is Fail && failed_case.shrink_sequence ==> minimized is Some
            && minimized->0@.len() <= failed_case.test_error->calls@.len() && effects@.len()
            == minimized->0@.len(),
        failed_case.test_error is Fail && !failed_case.shrink_sequence ==> effects@.len()
            == failed_case.test_error->calls@.len(),
    ensures
        cov_wf(*final(coverage)),
        r.1.wf(),
        failed_case.test_error is Abort ==> ({
            &&& r.0 is None
            &&& final(logs)@ == old(logs)@
            &&& final(traces)@ == old(traces)@
            &&& final(contexts)@ == old(contexts)@
            &&& *final(coverage) == *old(coverage)
            &&& r.1@ == ided_contracts@
        }),
        failed_case.test_error is Fail ==> ({
            let calls = replayed_calls(*failed_case, minimized);
            &&& final(logs)@ == old(logs)@ + logs_of(effects@)
            &&& final(traces)@ == old(traces)@ + traces_of(effects@)
            &&& final(contexts)@ == old(contexts)@ + contexts_of(effects@)
            &&& cov_view(*final(coverage)) == cov_fold(cov_view(*old(coverage)), effects@)
            &&& r.1@ == reg_fold(ided_contracts@, discoveries_of(effects@))
            &&& (calls.len() == 0 ==> r.0 is None)
            &&& (calls.len() > 0 ==> r.0 is Some)
            &&& (r.0 is Some ==> r.0->0.entries@.len() == calls.len())
            &&& (r.0 is Some ==> r.0->0.entries@.len()
                <= failed_case.test_error->calls@.len())
            &&& (r.0 is Some ==> forall|i: int|
                0 <= i < calls.len() ==> (#[trigger] r.0->0.entries@[i])@ == entry_at(
                    calls,
                    discoveries_of(effects@),
                    ided_contracts@,
                    i,
                ))
        }),
{
    let plan = replay_plan(failed_case, minimized);
    match plan {
        ReplayPlan::Unsupported => (None, ided_contracts),
        ReplayPlan::Execute { sequence } => {
            proof {
                assert(call_views(sequence@).len() == sequence@.len());
                if failed_case.shrink_sequence {
                    assert(call_views(minimized->0@).len() == minimized->0@.len());
                } else {
                    assert(call_views(failed_case.test_error->calls@).len()
                        == failed_case.test_error->calls@.len());
                }
            }
            replay_run(
            sequence,
            effects,
            ided_contracts,
            logs,
            traces,
            contexts,
            coverage,
            )
        },
    }
}

} // verus!
