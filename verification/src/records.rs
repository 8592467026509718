//! The data a replay consumes and produces: call records, per-call execution
//! results, the recorded failed case, and the engine's nested-generator
//! state. Addresses and contract identities are plain numeric handles; the
//! surrounding driver converts to and from the execution engine's own types.

use vstd::prelude::*;
use crate::coverage::CoverageMap;

verus! {

/// One call of a sequence: who sends it, whom it targets, and its payload.
pub struct CallRecord {
    pub sender: u64,
    pub target: u64,
    pub payload: Vec<u8>,
}

/// The mathematical value of a call record.
pub ghost struct CallRecordModel {
    pub sender: u64,
    pub target: u64,
    pub payload: Seq<u8>,
}

impl View for CallRecord {
    type V = CallRecordModel;

    open spec fn view(&self) -> CallRecordModel {
        CallRecordModel { sender: self.sender, target: self.target, payload: self.payload@ }
    }
}

/// The views of a sequence of call records.
pub open spec fn call_views(s: Seq<CallRecord>) -> Seq<CallRecordModel> {
    s.map_values(|c: CallRecord| c@)
}

/// The view of an optional call record.
pub open spec fn opt_call_view(o: Option<CallRecord>) -> Option<CallRecordModel> {
    match o {
        Some(c) => Some(c@),
        None => None,
    }
}

/// An event emitted during execution of a call. Its content is opaque to the
/// replay: events are only collected, in order.
pub struct Log {
    pub data: Vec<u8>,
}

/// A structured record of the nested invocations one call performed, kept
/// for diagnostics. The replay collects traces; it never interprets them.
pub struct Trace {
    pub data: Vec<u8>,
}

/// What a collected trace records.
#[derive(Clone, Copy, PartialEq, Eq, Structural, Debug)]
pub enum TraceKind {
    Deployment,
    Setup,
    Execution,
}

/// Auxiliary per-call metadata needed for downstream contract discovery.
pub struct ExecContext {
    pub data: Vec<u8>,
}

/// What the execution engine reports for one successfully executed call.
pub struct ExecResult {
    /// The events the call emitted, in order.
    pub logs: Vec<Log>,
    /// The call's trace.
    pub trace: Trace,
    /// Auxiliary execution contexts the call produced.
    pub contexts: Vec<ExecContext>,
    /// The call's coverage map, if coverage was collected.
    pub coverage: Option<CoverageMap>,
    /// Contract identities resolved from this call's trace, as
    /// `(address, identity)` entries.
    pub discovered: Vec<(u64, u64)>,
}

/// The engine's results for one sequence position: the committing sequence
/// call itself, and the read-only invariant check run right after it.
pub struct CallEffects {
    pub call: ExecResult,
    pub check: ExecResult,
}

/// What the search process recorded when it first found the failure.
pub enum TestError {
    /// The search aborted rather than finding a concrete failing sequence.
    Abort,
    /// The search found a concrete failing call sequence.
    Fail { calls: Vec<CallRecord> },
}

/// A recorded failed case: the original error, whether the sequence should
/// be shrunk before replay, and the inner sequence of nested sub-calls
/// recorded during the original failing run.
pub struct FailedCase {
    pub test_error: TestError,
    pub shrink_sequence: bool,
    pub inner_sequence: Vec<Option<CallRecord>>,
}

/// The nested generator's shared state, reachable from the engine during
/// execution: the last recorded inner sequence and the replay-mode flag.
/// It is written once, before a replay starts, and only read thereafter.
pub struct GeneratorState {
    pub last_sequence: Vec<Option<CallRecord>>,
    pub replay: bool,
}

/// One call for the driver to run against the execution engine.
pub struct CallRequest {
    /// The identity the call is issued from.
    pub caller: u64,
    /// The address the call targets.
    pub target: u64,
    /// The raw calldata.
    pub payload: Vec<u8>,
    /// The value transferred with the call; a replay always sends zero.
    pub value: u64,
    /// Whether the call's effects persist into subsequent calls, or the
    /// call is read-only.
    pub committing: bool,
}

/// A byte-for-byte copy of a payload.
pub fn copy_bytes(v: &Vec<u8>) -> (r: Vec<u8>)
    ensures
        r@ == v@,
{
    let r = v.clone();
    proof {
        assert(r@ =~= v@);
    }
    r
}

/// A copy of a call record with the same view.
pub fn copy_call(c: &CallRecord) -> (r: CallRecord)
    ensures
        r@ == c@,
{
    CallRecord { sender: c.sender, target: c.target, payload: copy_bytes(&c.payload) }
}

/// A copy of a call sequence, element views preserved.
pub fn copy_sequence(s: &Vec<CallRecord>) -> (r: Vec<CallRecord>)
    ensures
        r@.len() == s@.len(),
        forall|i: int| 0 <= i < s@.len() ==> (#[trigger] r@[i])@ == s@[i]@,
{
    let n = s.len();
    let mut r: Vec<CallRecord> = Vec::new();
    let mut i: usize = 0;
    while i < n
        invariant
            n == s@.len(),
            0 <= i <= n,
            r@.len() == i,
            forall|j: int| 0 <= j < i ==> (#[trigger] r@[j])@ == s@[j]@,
        decreases n - i,
    {
        r.push(copy_call(&s[i]));
        i += 1;
    }
    r
}

} // verus!
