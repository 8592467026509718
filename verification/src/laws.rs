//! Replay-wide guarantees, stated and proved over the replay's
//! specification functions.

use vstd::prelude::*;
use crate::coverage::lemma_merge_cov_keeps_left;
use crate::coverage::lemma_merge_cov_keeps_right;
use crate::records::CallEffects;
use crate::records::CallRecordModel;
use crate::replay::cov_fold;
use crate::replay::cov_view;
use crate::replay::discoveries_of;
use crate::replay::entry_at;

verus! {

/// Coverage monotonicity, incoming side: every location hit by any sequence
/// call of the replay is present in the final merged coverage accumulator —
/// the merge never loses hits.
pub proof fn lemma_coverage_superset_of_each_call(
    acc: Option<Map<u64, u64>>,
    s: Seq<CallEffects>,
    i: int,
    k: u64,
)
    requires
        0 <= i < s.len(),
        cov_view(s[i].call.coverage) is Some,
        cov_view(s[i].call.coverage)->0.contains_key(k),
    ensures
        cov_fold(acc, s) is Some,
        cov_fold(acc, s)->0.contains_key(k),
    decreases s.len(),
{
    let front = cov_fold(acc, s.drop_last());
    if i == s.len() - 1 {
        let m = cov_view(s[i].call.coverage)->0;
        match front {
            Some(a) => {
                lemma_merge_cov_keeps_right(a, m, k);
            },
            None => {},
        }
    } else {
        assert(s.drop_last()[i] == s[i]);
        lemma_coverage_superset_of_each_call(acc, s.drop_last(), i, k);
        match cov_view(s.last().call.coverage) {
            Some(m) => {
                lemma_merge_cov_keeps_left(front->0, m, k);
            },
            None => {},
        }
    }
}

/// Coverage monotonicity, accumulator side: every location the accumulator
/// held before the replay is still present afterwards.
pub proof fn lemma_coverage_keeps_accumulator(acc: Option<Map<u64, u64>>, s: Seq<CallEffects>, k: u64)
    requires
        acc is Some,
        acc->0.contains_key(k),
    ensures
        cov_fold(acc, s) is Some,
        cov_fold(acc, s)->0.contains_key(k),
    decreases s.len(),
{
    if s.len() > 0 {
        lemma_coverage_keeps_accumulator(acc, s.drop_last(), k);
        match cov_view(s.last().call.coverage) {
            Some(m) => {
                lemma_merge_cov_keeps_left(cov_fold(acc, s.drop_last())->0, m, k);
            },
            None => {},
        }
    }
}

/// Invariant-check exclusion: what the interleaved invariant checks return
/// is immaterial to the merged coverage and to the discovered identities —
/// two replays whose sequence calls returned the same results agree on
/// both, whatever their invariant checks returned.
pub proof fn lemma_invariant_checks_immaterial(
    acc: Option<Map<u64, u64>>,
    s1: Seq<CallEffects>,
    s2: Seq<CallEffects>,
)
    requires
        s1.len() == s2.len(),
        forall|j: int| 0 <= j < s1.len() ==> (#[trigger] s1[j]).call == s2[j].call,
    ensures
        cov_fold(acc, s1) == cov_fold(acc, s2),
        discoveries_of(s1) == discoveries_of(s2),
    decreases s1.len(),
{
    assert(discoveries_of(s1) =~= discoveries_of(s2));
    if s1.len() > 0 {
        assert(forall|j: int|
            0 <= j < s1.drop_last().len() ==> (#[trigger] s1.drop_last()[j]).call
                == s2.drop_last()[j].call);
        lemma_invariant_checks_immaterial(acc, s1.drop_last(), s2.drop_last());
        assert(s1.last().call == s2.last().call);
    }
}

/// Determinism of the counterexample: the descriptor built at any position
/// depends only on the replayed calls, the identities the sequence calls
/// discovered, and the initial registry. Two replays of the same sequence
/// whose calls discovered the same identities yield identical descriptors,
/// whatever else (logs, traces, coverage) differed.
pub proof fn lemma_counterexample_deterministic(
    registry: Map<u64, u64>,
    calls: Seq<CallRecordModel>,
    s1: Seq<CallEffects>,
    s2: Seq<CallEffects>,
    i: int,
)
    requires
        s1.len() == s2.len(),
        forall|j: int|
            0 <= j < s1.len() ==> (#[trigger] s1[j]).call.discovered@ == s2[j].call.discovered@,
        0 <= i < calls.len(),
    ensures
        entry_at(calls, discoveries_of(s1), registry, i) == entry_at(
            calls,
            discoveries_of(s2),
            registry,
            i,
        ),
{
    assert(discoveries_of(s1) =~= discoveries_of(s2));
}

} // verus!
