use invariant_replay::coordinator::{replay_error, replay_plan, shrink_request, ReplayPlan};
use invariant_replay::counterexample::CounterExample;
use invariant_replay::coverage::CoverageMap;
use invariant_replay::records::{
    CallEffects, CallRecord, ExecContext, ExecResult, FailedCase, GeneratorState, Log, TestError,
    Trace, TraceKind,
};
use invariant_replay::registry::ContractRegistry;
use invariant_replay::replay::{replay_run, sequence_call_request, set_up_inner_replay};

fn call(sender: u64, target: u64, payload: &[u8]) -> CallRecord {
    CallRecord { sender, target, payload: payload.to_vec() }
}

fn log(byte: u8) -> Log {
    Log { data: vec![byte] }
}

fn cov(pairs: &[(u64, u64)]) -> CoverageMap {
    let mut m = CoverageMap::new();
    for &(k, v) in pairs {
        m.add_hits(k, v);
    }
    m
}

fn result(
    log_bytes: &[u8],
    trace_byte: u8,
    coverage: Option<CoverageMap>,
    discovered: Vec<(u64, u64)>,
) -> ExecResult {
    ExecResult {
        logs: log_bytes.iter().map(|&b| log(b)).collect(),
        trace: Trace { data: vec![trace_byte] },
        contexts: Vec::new(),
        coverage,
        discovered,
    }
}

fn effects_for_two_calls() -> Vec<CallEffects> {
    vec![
        CallEffects {
            call: result(&[0x01], 0x10, Some(cov(&[(10, 1), (11, 1)])), vec![(2, 77)]),
            check: result(&[0xa1], 0x1a, Some(cov(&[(90, 9)])), Vec::new()),
        },
        CallEffects {
            call: result(&[0x02], 0x20, Some(cov(&[(11, 1), (12, 1)])), Vec::new()),
            check: result(&[0xa2], 0x2a, None, Vec::new()),
        },
    ]
}

fn run_two_call_case() -> (Option<CounterExample>, Vec<Log>, Vec<(TraceKind, Trace)>, Option<CoverageMap>)
{
    let failed_case = FailedCase {
        test_error: TestError::Fail {
            calls: vec![call(1, 2, b"deposit(100)"), call(1, 2, b"withdraw(50)")],
        },
        shrink_sequence: false,
        inner_sequence: Vec::new(),
    };
    let mut logs: Vec<Log> = Vec::new();
    let mut traces: Vec<(TraceKind, Trace)> = Vec::new();
    let mut contexts: Vec<ExecContext> = Vec::new();
    let mut coverage: Option<CoverageMap> = None;
    let (cx, _registry) = replay_error(
        &failed_case,
        None,
        effects_for_two_calls(),
        ContractRegistry::new(),
        &mut logs,
        &mut traces,
        &mut contexts,
        &mut coverage,
    );
    (cx, logs, traces, coverage)
}

#[test]
fn empty_sequence_yields_no_counterexample() {
    let mut logs: Vec<Log> = Vec::new();
    let mut traces: Vec<(TraceKind, Trace)> = Vec::new();
    let mut contexts: Vec<ExecContext> = Vec::new();
    let mut coverage: Option<CoverageMap> = None;
    let (cx, registry) = replay_run(
        Vec::new(),
        Vec::new(),
        ContractRegistry::new(),
        &mut logs,
        &mut traces,
        &mut contexts,
        &mut coverage,
    );
    assert!(cx.is_none());
    assert!(logs.is_empty());
    assert!(traces.is_empty());
    assert!(contexts.is_empty());
    assert!(coverage.is_none());
    assert!(registry.lookup(2).is_none());
}

#[test]
fn length_correspondence_one_descriptor_per_call() {
    let inputs = vec![call(1, 2, b"a"), call(3, 4, b"bb"), call(5, 6, b"ccc")];
    let effects = vec![
        CallEffects {
            call: result(&[1], 1, None, Vec::new()),
            check: result(&[2], 2, None, Vec::new()),
        },
        CallEffects {
            call: result(&[3], 3, None, Vec::new()),
            check: result(&[4], 4, None, Vec::new()),
        },
        CallEffects {
            call: result(&[5], 5, None, Vec::new()),
            check: result(&[6], 6, None, Vec::new()),
        },
    ];
    let mut logs: Vec<Log> = Vec::new();
    let mut traces: Vec<(TraceKind, Trace)> = Vec::new();
    let mut contexts: Vec<ExecContext> = Vec::new();
    let mut coverage: Option<CoverageMap> = None;
    let (cx, _) = replay_run(
        inputs,
        effects,
        ContractRegistry::new(),
        &mut logs,
        &mut traces,
        &mut contexts,
        &mut coverage,
    );
    let cx = cx.expect("non-empty sequence must yield a counterexample");
    // One descriptor per sequence call, in order; the three interleaved
    // invariant checks contribute none.
    assert_eq!(cx.entries.len(), 3);
    assert_eq!(cx.entries[0].sender, 1);
    assert_eq!(cx.entries[1].sender, 3);
    assert_eq!(cx.entries[2].sender, 5);
    assert_eq!(cx.entries[0].payload, b"a".to_vec());
    assert_eq!(cx.entries[1].payload, b"bb".to_vec());
    assert_eq!(cx.entries[2].payload, b"ccc".to_vec());
    // Logs and traces interleave sequence calls and invariant checks.
    assert_eq!(logs.len(), 6);
    assert_eq!(traces.len(), 6);
}

#[test]
fn two_call_scenario_builds_full_counterexample() {
    let (cx, logs, traces, coverage) = run_two_call_case();
    let cx = cx.expect("two calls must yield a counterexample");
    assert_eq!(cx.entries.len(), 2);
    assert_eq!(cx.entries[0].sender, 1);
    assert_eq!(cx.entries[0].target, 2);
    assert_eq!(cx.entries[0].payload, b"deposit(100)".to_vec());
    assert_eq!(cx.entries[1].sender, 1);
    assert_eq!(cx.entries[1].target, 2);
    assert_eq!(cx.entries[1].payload, b"withdraw(50)".to_vec());
    // Both calls' events and the two interleaved invariant checks' events.
    let bytes: Vec<u8> = logs.iter().map(|l| l.data[0]).collect();
    assert_eq!(bytes, vec![0x01, 0xa1, 0x02, 0xa2]);
    assert_eq!(traces.len(), 4);
    assert!(traces.iter().all(|t| t.0 == TraceKind::Execution));
    // Coverage equals the union of both calls' maps.
    let m = coverage.expect("coverage was collected");
    assert_eq!(m.hits_of(10), Some(1));
    assert_eq!(m.hits_of(11), Some(2));
    assert_eq!(m.hits_of(12), Some(1));
    assert_eq!(m.hits_of(90), None);
}

#[test]
fn invariant_check_coverage_is_excluded() {
    // The check results carry coverage for location 90, which must never be
    // merged; only sequence-call locations appear.
    let (_, _, _, coverage) = run_two_call_case();
    let m = coverage.unwrap();
    assert!(m.hits_of(90).is_none());
    assert!(m.hits_of(10).is_some());
}

#[test]
fn discovered_identity_labels_descriptors() {
    // The first call deploys code at its own target: its descriptor and all
    // later ones against that target carry the discovered identity.
    let (cx, _, _, _) = run_two_call_case();
    let cx = cx.unwrap();
    assert_eq!(cx.entries[0].contract, Some(77));
    assert_eq!(cx.entries[1].contract, Some(77));
}

#[test]
fn unknown_target_stays_unresolved() {
    let inputs = vec![call(1, 9, b"x")];
    let effects = vec![CallEffects {
        call: result(&[1], 1, None, Vec::new()),
        check: result(&[2], 2, None, Vec::new()),
    }];
    let mut logs: Vec<Log> = Vec::new();
    let mut traces: Vec<(TraceKind, Trace)> = Vec::new();
    let mut contexts: Vec<ExecContext> = Vec::new();
    let mut coverage: Option<CoverageMap> = None;
    let (cx, _) = replay_run(
        inputs,
        effects,
        ContractRegistry::new(),
        &mut logs,
        &mut traces,
        &mut contexts,
        &mut coverage,
    );
    assert_eq!(cx.unwrap().entries[0].contract, None);
}

#[test]
fn abort_case_short_circuits() {
    let failed_case = FailedCase {
        test_error: TestError::Abort,
        shrink_sequence: true,
        inner_sequence: Vec::new(),
    };
    // No engine results exist: the engine is never invoked for an abort.
    let mut logs: Vec<Log> = Vec::new();
    let mut traces: Vec<(TraceKind, Trace)> = Vec::new();
    let mut contexts: Vec<ExecContext> = Vec::new();
    let mut coverage: Option<CoverageMap> = None;
    let (cx, _) = replay_error(
        &failed_case,
        None,
        Vec::new(),
        ContractRegistry::new(),
        &mut logs,
        &mut traces,
        &mut contexts,
        &mut coverage,
    );
    assert!(cx.is_none());
    assert!(logs.is_empty());
    assert!(traces.is_empty());
    assert!(contexts.is_empty());
    assert!(coverage.is_none());
    // And the plan itself already refuses the case.
    assert!(matches!(replay_plan(&failed_case, None), ReplayPlan::Unsupported));
    assert!(shrink_request(&failed_case).is_none());
}

#[test]
fn shrink_enabled_replays_minimized_sequence() {
    let failed_case = FailedCase {
        test_error: TestError::Fail {
            calls: vec![call(1, 2, b"a"), call(1, 2, b"b"), call(1, 2, b"c")],
        },
        shrink_sequence: true,
        inner_sequence: Vec::new(),
    };
    // The external minimizer is handed the original sequence…
    let request = shrink_request(&failed_case).expect("shrinking was requested");
    assert_eq!(request.len(), 3);
    // …and returns a shorter one that still fails.
    let minimized = vec![call(1, 2, b"c")];
    let effects = vec![CallEffects {
        call: result(&[1], 1, None, Vec::new()),
        check: result(&[2], 2, None, Vec::new()),
    }];
    let mut logs: Vec<Log> = Vec::new();
    let mut traces: Vec<(TraceKind, Trace)> = Vec::new();
    let mut contexts: Vec<ExecContext> = Vec::new();
    let mut coverage: Option<CoverageMap> = None;
    let (cx, _) = replay_error(
        &failed_case,
        Some(minimized),
        effects,
        ContractRegistry::new(),
        &mut logs,
        &mut traces,
        &mut contexts,
        &mut coverage,
    );
    let cx = cx.unwrap();
    // Never longer than the original failing sequence.
    assert!(cx.entries.len() <= 3);
    assert_eq!(cx.entries.len(), 1);
    assert_eq!(cx.entries[0].payload, b"c".to_vec());
}

#[test]
fn shrink_disabled_replays_original_bytes() {
    let failed_case = FailedCase {
        test_error: TestError::Fail {
            calls: vec![call(1, 2, b"deposit(100)"), call(3, 4, b"withdraw(50)")],
        },
        shrink_sequence: false,
        inner_sequence: Vec::new(),
    };
    let plan = replay_plan(&failed_case, None);
    match plan {
        ReplayPlan::Execute { sequence } => {
            assert_eq!(sequence.len(), 2);
            assert_eq!(sequence[0].sender, 1);
            assert_eq!(sequence[0].target, 2);
            assert_eq!(sequence[0].payload, b"deposit(100)".to_vec());
            assert_eq!(sequence[1].sender, 3);
            assert_eq!(sequence[1].target, 4);
            assert_eq!(sequence[1].payload, b"withdraw(50)".to_vec());
        },
        ReplayPlan::Unsupported => panic!("a fail-kind case must be replayed"),
    }
    assert!(shrink_request(&failed_case).is_none());
}

#[test]
fn replaying_twice_yields_identical_descriptors() {
    let (cx1, _, _, _) = run_two_call_case();
    let (cx2, _, _, _) = run_two_call_case();
    let (cx1, cx2) = (cx1.unwrap(), cx2.unwrap());
    assert_eq!(cx1.entries.len(), cx2.entries.len());
    for (a, b) in cx1.entries.iter().zip(cx2.entries.iter()) {
        assert_eq!(a.sender, b.sender);
        assert_eq!(a.target, b.target);
        assert_eq!(a.payload, b.payload);
        assert_eq!(a.contract, b.contract);
    }
}

#[test]
fn contexts_accumulate_from_calls_and_checks() {
    let inputs = vec![call(1, 2, b"a")];
    let mut call_result = result(&[1], 1, None, Vec::new());
    call_result.contexts = vec![ExecContext { data: vec![0xc1] }];
    let mut check_result = result(&[2], 2, None, Vec::new());
    check_result.contexts = vec![ExecContext { data: vec![0xc2] }, ExecContext { data: vec![0xc3] }];
    let effects = vec![CallEffects { call: call_result, check: check_result }];
    let mut logs: Vec<Log> = Vec::new();
    let mut traces: Vec<(TraceKind, Trace)> = Vec::new();
    let mut contexts: Vec<ExecContext> = Vec::new();
    let mut coverage: Option<CoverageMap> = None;
    let (cx, _) = replay_run(
        inputs,
        effects,
        ContractRegistry::new(),
        &mut logs,
        &mut traces,
        &mut contexts,
        &mut coverage,
    );
    assert_eq!(cx.unwrap().entries.len(), 1);
    let bytes: Vec<u8> = contexts.iter().map(|c| c.data[0]).collect();
    assert_eq!(bytes, vec![0xc1, 0xc2, 0xc3]);
}

#[test]
fn sequence_call_request_reflects_the_call() {
    let c = call(11, 22, b"payload");
    let req = sequence_call_request(&c);
    assert_eq!(req.caller, 11);
    assert_eq!(req.target, 22);
    assert_eq!(req.payload, b"payload".to_vec());
    assert_eq!(req.value, 0);
    assert!(req.committing);
}

#[test]
fn set_up_inner_replay_pins_generator() {
    let mut generator = GeneratorState { last_sequence: Vec::new(), replay: false };
    let inner = vec![Some(call(1, 2, b"inner")), None];
    set_up_inner_replay(&mut generator, &inner);
    assert!(generator.replay);
    assert_eq!(generator.last_sequence.len(), 2);
    match &generator.last_sequence[0] {
        Some(c) => {
            assert_eq!(c.sender, 1);
            assert_eq!(c.target, 2);
            assert_eq!(c.payload, b"inner".to_vec());
        },
        None => panic!("first inner entry was recorded"),
    }
    assert!(generator.last_sequence[1].is_none());
}
