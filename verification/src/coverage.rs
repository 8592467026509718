//! Coverage accumulation: a map from code-location key to hit count, with a
//! destructive union-with-sum merge. Merging never drops a location that
//! either side has recorded.

use vstd::prelude::*;
use crate::combine_hits;
use crate::table::AssocTable;
use crate::table::distinct_keys;
use crate::table::pairs_to_map;

verus! {

/// The value of `m` at `k`, or `None` when `k` is absent.
pub open spec fn opt_hits(m: Map<u64, u64>, k: u64) -> Option<u64> {
    if m.contains_key(k) {
        Some(m[k])
    } else {
        None
    }
}

/// Union of two coverage maps: every location of either side stays, and a
/// location both sides hit carries the (saturating) sum of the counts.
pub open spec fn merge_cov(a: Map<u64, u64>, b: Map<u64, u64>) -> Map<u64, u64> {
    Map::new(
        |k: u64| a.contains_key(k) || b.contains_key(k),
        |k: u64|
            if b.contains_key(k) {
                combine_hits(opt_hits(a, k), b[k])
            } else {
                a[k]
            },
    )
}

/// A coverage map keyed by code location.
pub struct CoverageMap {
    pub hits: AssocTable,
}

impl View for CoverageMap {
    type V = Map<u64, u64>;

    open spec fn view(&self) -> Map<u64, u64> {
        self.hits@
    }
}

/// One merge step: folding the next pair of `b`'s backing vector into an
/// accumulator that already holds the merge of `a` with the earlier pairs.
proof fn lemma_merge_cov_step(a: Map<u64, u64>, p: Seq<(u64, u64)>, k: u64, v: u64)
    requires
        !pairs_to_map(p).contains_key(k),
    ensures
        merge_cov(a, pairs_to_map(p.push((k, v)))) == merge_cov(a, pairs_to_map(p)).insert(
            k,
            combine_hits(opt_hits(merge_cov(a, pairs_to_map(p)), k), v),
        ),
{
    crate::table::lemma_pairs_to_map_push(p, k, v);
    let m = pairs_to_map(p);
    assert(merge_cov(a, m.insert(k, v)) =~= merge_cov(a, m).insert(
        k,
        combine_hits(opt_hits(merge_cov(a, m), k), v),
    ));
}

impl CoverageMap {
    /// Well-formed: the backing table carries each location once.
    pub open spec fn wf(&self) -> bool {
        self.hits.wf()
    }

    /// An empty coverage map.
    pub fn new() -> (r: CoverageMap)
        ensures
            r.wf(),
            r@ == Map::<u64, u64>::empty(),
    {
        CoverageMap { hits: AssocTable::new() }
    }

    /// Record `count` further hits of `location`.
    pub fn add_hits(&mut self, location: u64, count: u64)
        requires
            old(self).wf(),
        ensures
            final(self).wf(),
            final(self)@ == old(self)@.insert(
                location,
                combine_hits(opt_hits(old(self)@, location), count),
            ),
    {
        self.hits.add_saturating(location, count);
    }

    /// The recorded count for `location`, if any.
    pub fn hits_of(&self, location: u64) -> (r: Option<u64>)
        requires
            self.wf(),
        ensures
            r == opt_hits(self@, location),
    {
        self.hits.get(location)
    }

    /// Destructively merge `other` into this accumulator.
    pub fn merge(&mut self, other: CoverageMap)
        requires
            old(self).wf(),
            other.wf(),
        ensures
            final(self).wf(),
            final(self)@ == merge_cov(old(self)@, other@),
    {
        let ghost a = self@;
        let ghost ps = other.hits.pairs@;
        let n = other.hits.pairs.len();
        let mut i: usize = 0;
        while i < n
            invariant
                self.wf(),
                distinct_keys(ps),
                n == ps.len(),
                other.hits.pairs@ == ps,
                0 <= i <= n,
                self@ == merge_cov(a, pairs_to_map(ps.take(i as int))),
            decreases n - i,
        {
            let pair = other.hits.pairs[i];
            proof {
                assert(ps.take(i as int + 1) =~= ps.take(i as int).push(ps[i as int]));
                crate::table::lemma_pairs_to_map_contains(ps.take(i as int), pair.0);
                assert(forall|j: int|
                    0 <= j < i ==> (#[trigger] ps.take(i as int)[j]).0 != pair.0);
                lemma_merge_cov_step(a, ps.take(i as int), pair.0, pair.1);
            }
            self.add_hits(pair.0, pair.1);
            i += 1;
        }
        proof {
            assert(ps.take(n as int) =~= ps);
        }
    }
}

/// The merged map records exactly the locations either side has recorded.
pub proof fn lemma_merge_cov_dom(a: Map<u64, u64>, b: Map<u64, u64>)
    ensures
        merge_cov(a, b).dom() == a.dom().union(b.dom()),
{
    assert(merge_cov(a, b).dom() =~= a.dom().union(b.dom()));
}

/// The empty map is the identity of the merge.
pub proof fn lemma_merge_cov_identity(a: Map<u64, u64>)
    ensures
        merge_cov(a, Map::empty()) == a,
        merge_cov(Map::empty(), a) == a,
{
    assert(merge_cov(a, Map::empty()) =~= a);
    assert(merge_cov(Map::empty(), a) =~= a);
}

/// Merging is commutative.
pub proof fn lemma_merge_cov_commutative(a: Map<u64, u64>, b: Map<u64, u64>)
    ensures
        merge_cov(a, b) == merge_cov(b, a),
{
    assert(merge_cov(a, b) =~= merge_cov(b, a));
}

/// Merging is associative.
pub proof fn lemma_merge_cov_associative(a: Map<u64, u64>, b: Map<u64, u64>, c: Map<u64, u64>)
    ensures
        merge_cov(merge_cov(a, b), c) == merge_cov(a, merge_cov(b, c)),
{
    assert(merge_cov(merge_cov(a, b), c) =~= merge_cov(a, merge_cov(b, c)));
}

/// Merging keeps every location the accumulator already had.
pub proof fn lemma_merge_cov_keeps_left(a: Map<u64, u64>, b: Map<u64, u64>, k: u64)
    requires
        a.contains_key(k),
    ensures
        merge_cov(a, b).contains_key(k),
{
}

/// Merging records every location of the incoming map.
pub proof fn lemma_merge_cov_keeps_right(a: Map<u64, u64>, b: Map<u64, u64>, k: u64)
    requires
        b.contains_key(k),
    ensures
        merge_cov(a, b).contains_key(k),
{
}

} // verus!
