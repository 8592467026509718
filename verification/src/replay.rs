//! The sequence replayer: folds the engine's per-call results over a call
//! sequence, in strict order, accumulating logs, traces, execution contexts
//! and coverage, extending the contract registry, and building one
//! counterexample descriptor per sequence call.
//!
//! The execution engine itself is an external collaborator. The driver asks
//! it to run each request this module describes (the committing sequence
//! call, then the read-only invariant check) and hands the collected
//! [`CallEffects`] back; everything the replay decides and accumulates from
//! those results is verified here.

use vstd::prelude::*;
use crate::counterexample::CounterExample;
use crate::counterexample::CounterExampleEntry;
use crate::counterexample::CounterExampleEntryModel;
use crate::counterexample::entry_model;
use crate::coverage::CoverageMap;
use crate::coverage::merge_cov;
use crate::records::CallEffects;
use crate::records::CallRecord;
use crate::records::CallRecordModel;
use crate::records::CallRequest;
use crate::records::ExecContext;
use crate::records::ExecResult;
use crate::records::GeneratorState;
use crate::records::Log;
use crate::records::Trace;
use crate::records::TraceKind;
use crate::records::call_views;
use crate::records::copy_bytes;
use crate::records::copy_call;
use crate::records::opt_call_view;
use crate::registry::ContractRegistry;
use crate::registry::extend_reg;

verus! {

/// The logs a replay of `s` appends: for each position, the sequence call's
/// events followed by the invariant check's events.
pub open spec fn logs_of(s: Seq<CallEffects>) -> Seq<Log>
    decreases s.len(),
{
    if s.len() == 0 {
        Seq::empty()
    } else {
        logs_of(s.drop_last()) + s.last().call.logs@ + s.last().check.logs@
    }
}

/// The traces a replay of `s` appends: every collected trace is tagged as an
/// execution trace, the sequence call's before the invariant check's.
pub open spec fn traces_of(s: Seq<CallEffects>) -> Seq<(TraceKind, Trace)>
    decreases s.len(),
{
    if s.len() == 0 {
        Seq::empty()
    } else {
        traces_of(s.drop_last()).push((TraceKind::Execution, s.last().call.trace)).push(
            (TraceKind::Execution, s.last().check.trace),
        )
    }
}

/// The execution contexts a replay of `s` appends.
pub open spec fn contexts_of(s: Seq<CallEffects>) -> Seq<ExecContext>
    decreases s.len(),
{
    if s.len() == 0 {
        Seq::empty()
    } else {
        contexts_of(s.drop_last()) + s.last().call.contexts@ + s.last().check.contexts@
    }
}

/// The view of an optional coverage map.
pub open spec fn cov_view(c: Option<CoverageMap>) -> Option<Map<u64, u64>> {
    match c {
        Some(m) => Some(m@),
        None => None,
    }
}

/// An optional coverage map is well-formed when the map it holds is.
pub open spec fn cov_wf(c: Option<CoverageMap>) -> bool {
    match c {
        Some(m) => m.wf(),
        None => true,
    }
}

/// Folding one call's coverage into the accumulator: an absent map leaves
/// the accumulator alone, and the first map present initializes it.
pub open spec fn cov_step(acc: Option<Map<u64, u64>>, c: Option<Map<u64, u64>>) -> Option<
    Map<u64, u64>,
> {
    match c {
        None => acc,
        Some(m) => match acc {
            None => Some(m),
            Some(a) => Some(merge_cov(a, m)),
        },
    }
}

/// The coverage accumulator after replaying `s`: only the sequence calls'
/// coverage is merged; the invariant checks' coverage is infrastructure and
/// never contributes.
pub open spec fn cov_fold(acc: Option<Map<u64, u64>>, s: Seq<CallEffects>) -> Option<Map<u64, u64>>
    decreases s.len(),
{
    if s.len() == 0 {
        acc
    } else {
        cov_step(cov_fold(acc, s.drop_last()), cov_view(s.last().call.coverage))
    }
}

/// The discovered-identity batches of a replay, one per sequence call; the
/// invariant checks discover nothing.
pub open spec fn discoveries_of(s: Seq<CallEffects>) -> Seq<Seq<(u64, u64)>> {
    s.map_values(|e: CallEffects| e.call.discovered@)
}

/// The registry after folding the first `i` discovery batches into `m`.
pub open spec fn reg_fold(m: Map<u64, u64>, discoveries: Seq<Seq<(u64, u64)>>) -> Map<u64, u64>
    decreases discoveries.len(),
{
    if discoveries.len() == 0 {
        m
    } else {
        extend_reg(reg_fold(m, discoveries.drop_last()), discoveries.last())
    }
}

/// The descriptor the replay builds at position `i`: the call at `i`,
/// labelled against the registry as extended by the discoveries of calls
/// `0..=i`.
pub open spec fn entry_at(
    calls: Seq<CallRecordModel>,
    discoveries: Seq<Seq<(u64, u64)>>,
    registry: Map<u64, u64>,
    i: int,
) -> CounterExampleEntryModel {
    entry_model(calls[i], reg_fold(registry, discoveries.take(i + 1)))
}

/// Every coverage map carried by the effects is well-formed.
pub open spec fn effects_wf(s: Seq<CallEffects>) -> bool {
    forall|i: int| 0 <= i < s.len() ==> cov_wf((#[trigger] s[i]).call.coverage)
}

/// Taking one more element appends it.
proof fn lemma_take_push(s: Seq<CallEffects>, i: int)
    requires
        0 <= i < s.len(),
    ensures
        s.take(i + 1) == s.take(i).push(s[i]),
        s.take(i + 1).drop_last() == s.take(i),
        s.take(i + 1).last() == s[i],
{
    assert(s.take(i + 1) =~= s.take(i).push(s[i]));
    assert(s.take(i + 1).drop_last() =~= s.take(i));
}

/// The request a sequence call turns into: issued by the recorded sender to
/// the recorded target with the recorded payload, committing its effects,
/// transferring no value.
pub fn sequence_call_request(call: &CallRecord) -> (r: CallRequest)
    ensures
        r.caller == call.sender,
        r.target == call.target,
        r.payload@ == call.payload@,
        r.value == 0,
        r.committing,
{
    CallRequest {
        caller: call.sender,
        target: call.target,
        payload: copy_bytes(&call.payload),
        value: 0,
        committing: true,
    }
}

/// Pin the nested generator to the recorded inner sequence and switch it to
/// replay mode, so that nested call generation during the replay consults
/// the recorded choices instead of sampling fresh randomness. This must
/// complete before the replay's first engine call.
pub fn set_up_inner_replay(generator: &mut GeneratorState, inner_sequence: &Vec<Option<CallRecord>>)
    ensures
        final(generator).replay,
        final(generator).last_sequence@.len() == inner_sequence@.len(),
        forall|i: int|
            0 <= i < inner_sequence@.len() ==> opt_call_view(
                #[trigger] final(generator).last_sequence@[i],
            ) == opt_call_view(inner_sequence@[i]),
{
    let n = inner_sequence.len();
    let mut pinned: Vec<Option<CallRecord>> = Vec::new();
    let mut i: usize = 0;
    while i < n
        invariant
            n == inner_sequence@.len(),
            0 <= i <= n,
            pinned@.len() == i,
            forall|j: int|
                0 <= j < i ==> opt_call_view(#[trigger] pinned@[j]) == opt_call_view(
                    inner_sequence@[j],
                ),
        decreases n - i,
    {
        let entry = match &inner_sequence[i] {
            Some(c) => Some(copy_call(c)),
            None => None,
        };
        pinned.push(entry);
        i += 1;
    }
    generator.last_sequence = pinned;
    generator.replay = true;
}

/// Replay a call sequence end-to-end from the engine's per-call results,
/// accumulating diagnostic evidence and building the counterexample.
///
/// For each call, in strict sequence order: the call's logs, trace (tagged
/// as an execution trace) and contexts are appended; its coverage is merged
/// into the accumulator; identities discovered from its trace extend the
/// registry; and one descriptor is built against the just-updated registry.
/// The invariant check run after each call contributes its logs, trace and
/// contexts exactly the same way, but no descriptor and no coverage.
///
/// Returns no counterexample for an empty sequence, otherwise one descriptor
/// per input call in order, together with the extended registry.
pub fn replay_run(
    inputs: Vec<CallRecord>,
    effects: Vec<CallEffects>,
    ided_contracts: ContractRegistry,
    logs: &mut Vec<Log>,
    traces: &mut Vec<(TraceKind, Trace)>,
    contexts: &mut Vec<ExecContext>,
    coverage: &mut Option<CoverageMap>,
) -> (r: (Option<CounterExample>, ContractRegistry))
    requires
        effects@.len() == inputs@.len(),
        effects_wf(effects@),
        ided_contracts.wf(),
        cov_wf(*old(coverage)),
    ensures
        final(logs)@ == old(logs)@ + logs_of(effects@),
        final(traces)@ == old(traces)@ + traces_of(effects@),
        final(contexts)@ == old(contexts)@ + contexts_of(effects@),
        cov_wf(*final(coverage)),
        cov_view(*final(coverage)) == cov_fold(cov_view(*old(coverage)), effects@),
        r.1.wf(),
        r.1@ == reg_fold(ided_contracts@, discoveries_of(effects@)),
        inputs@.len() == 0 ==> r.0 is None,
        inputs@.len() > 0 ==> r.0 is Some,
        r.0 is Some ==> r.0->0.entries@.len() == inputs@.len(),
        r.0 is Some ==> forall|i: int|
            0 <= i < inputs@.len() ==> (#[trigger] r.0->0.entries@[i])@ == entry_at(
                call_views(inputs@),
                discoveries_of(effects@),
                ided_contracts@,
                i,
            ),
{
    let ghost effects0 = effects@;
    let ghost discoveries = discoveries_of(effects@);
    let ghost reg0 = ided_contracts@;
    let ghost cov0 = cov_view(*coverage);

    let mut effects = effects;
    let mut registry = ided_contracts;
    let mut sequence: Vec<CounterExampleEntry> = Vec::new();

    let n = inputs.len();
    let mut i: usize = 0;
    while i < n
        invariant
            n == inputs@.len(),
            effects0.len() == n,
            effects_wf(effects0),
            discoveries == discoveries_of(effects0),
            0 <= i <= n,
            effects@ == effects0.skip(i as int),
            logs@ == old(logs)@ + logs_of(effects0.take(i as int)),
            traces@ == old(traces)@ + traces_of(effects0.take(i as int)),
            contexts@ == old(contexts)@ + contexts_of(effects0.take(i as int)),
            cov_wf(*coverage),
            cov_view(*coverage) == cov_fold(cov0, effects0.take(i as int)),
            registry.wf(),
            registry@ == reg_fold(reg0, discoveries.take(i as int)),
            sequence@.len() == i,
            forall|j: int|
                0 <= j < i ==> (#[trigger] sequence@[j])@ == entry_at(
                    call_views(inputs@),
                    discoveries,
                    reg0,
                    j,
                ),
        decreases n - i,
    {
        proof {
            lemma_take_push(effects0, i as int);
            assert(effects0.skip(i as int)[0] == effects0[i as int]);
            assert(effects0.skip(i as int).remove(0) =~= effects0.skip(i as int + 1));
            assert(discoveries.take(i as int + 1) =~= discoveries.take(i as int).push(
                discoveries[i as int],
            ));
            assert(discoveries.take(i as int + 1).drop_last() =~= discoveries.take(i as int));
        }
        let eff = effects.remove(0);
        let CallEffects { call: call_result, check: check_result } = eff;
        let ExecResult {
            logs: mut call_logs,
            trace: call_trace,
            contexts: mut call_contexts,
            coverage: call_coverage,
            discovered,
        } = call_result;

        // Collect the sequence call's evidence.
        logs.append(&mut call_logs);
        traces.push((TraceKind::Execution, call_trace));
        contexts.append(&mut call_contexts);

        // Merge the call's coverage into the running accumulator,
        // initializing the accumulator from the first map seen.
        match call_coverage {
            Some(new_coverage) => {
                let old_coverage = coverage.take();
                match old_coverage {
                    Some(mut acc) => {
                        acc.merge(new_coverage);
                        *coverage = Some(acc);
                    },
                    None => {
                        *coverage = Some(new_coverage);
                    },
                }
            },
            None => {},
        }

        // Identify newly created contracts, if they exist.
        registry.extend(&discovered);

        // Create the descriptor to be used in the failed case.
        let entry = CounterExampleEntry::create(
            inputs[i].sender,
            inputs[i].target,
            &inputs[i].payload,
            &registry,
        );
        sequence.push(entry);
        proof {
            assert(call_views(inputs@)[i as int] == inputs@[i as int]@);
        }

        // Fold in the invariant check's logs and traces; its coverage is
        // infrastructure, not part of the reproduction, and its trace
        // yields no descriptor.
        let ExecResult {
            logs: mut check_logs,
            trace: check_trace,
            contexts: mut check_contexts,
            coverage: _,
            discovered: _,
        } = check_result;
        traces.push((TraceKind::Execution, check_trace));
        logs.append(&mut check_logs);
        contexts.append(&mut check_contexts);

        i += 1;
    }
    proof {
        assert(effects0.take(n as int) =~= effects0);
        assert(discoveries.take(n as int) =~= discoveries);
    }
    let counterexample = if sequence.len() > 0 {
        Some(CounterExample { entries: sequence })
    } else {
        None
    };
    (counterexample, registry)
}

} // verus!
