//! A small association table from numeric keys to numeric values, backed by
//! a vector of pairs with pairwise-distinct keys. Its mathematical model is
//! the finite map holding exactly those pairs. Both the coverage accumulator
//! and the contract registry are built on it.

use vstd::prelude::*;

verus! {

/// All keys in the pair sequence are pairwise distinct.
pub open spec fn distinct_keys(s: Seq<(u64, u64)>) -> bool {
    forall|i: int, j: int|
        0 <= i < j < s.len() ==> (#[trigger] s[i]).0 != (#[trigger] s[j]).0
}

/// The finite map holding exactly the pairs of `s`; on duplicate keys the
/// later pair wins.
pub open spec fn pairs_to_map(s: Seq<(u64, u64)>) -> Map<u64, u64>
    decreases s.len(),
{
    if s.len() == 0 {
        Map::empty()
    } else {
        pairs_to_map(s.drop_last()).insert(s.last().0, s.last().1)
    }
}

/// A key is in the map exactly when some pair carries it.
pub proof fn lemma_pairs_to_map_contains(s: Seq<(u64, u64)>, k: u64)
    ensures
        pairs_to_map(s).contains_key(k) <==> exists|i: int|
            0 <= i < s.len() && (#[trigger] s[i]).0 == k,
    decreases s.len(),
{
    if s.len() > 0 {
        lemma_pairs_to_map_contains(s.drop_last(), k);
        if s.last().0 == k {
            assert(s[s.len() - 1].0 == k);
        } else if pairs_to_map(s).contains_key(k) {
            let i = choose|i: int| 0 <= i < s.drop_last().len() && (#[trigger] s.drop_last()[i]).0 == k;
            assert(s[i].0 == k);
        } else if exists|i: int| 0 <= i < s.len() && (#[trigger] s[i]).0 == k {
            let i = choose|i: int| 0 <= i < s.len() && (#[trigger] s[i]).0 == k;
            assert(i < s.len() - 1);
            assert(s.drop_last()[i].0 == k);
        }
    }
}

/// With distinct keys, the pair at any position gives the map's value at
/// that pair's key.
pub proof fn lemma_pairs_to_map_at(s: Seq<(u64, u64)>, i: int)
    requires
        distinct_keys(s),
        0 <= i < s.len(),
    ensures
        pairs_to_map(s).contains_key(s[i].0),
        pairs_to_map(s)[s[i].0] == s[i].1,
    decreases s.len(),
{
    if i == s.len() - 1 {
    } else {
        assert(distinct_keys(s.drop_last()));
        assert(s.drop_last()[i] == s[i]);
        lemma_pairs_to_map_at(s.drop_last(), i);
        assert(s.last().0 != s[i].0);
    }
}

/// Overwriting the pair at position `i` updates the map at its key.
pub proof fn lemma_pairs_to_map_update(s: Seq<(u64, u64)>, i: int, v: u64)
    requires
        distinct_keys(s),
        0 <= i < s.len(),
    ensures
        pairs_to_map(s.update(i, (s[i].0, v))) == pairs_to_map(s).insert(s[i].0, v),
    decreases s.len(),
{
    let k = s[i].0;
    let t = s.update(i, (k, v));
    if i == s.len() - 1 {
        assert(t.drop_last() =~= s.drop_last());
        assert(t.last() == (k, v));
        assert(pairs_to_map(t) == pairs_to_map(s.drop_last()).insert(k, v));
        assert(pairs_to_map(s.drop_last()).insert(k, s[i].1).insert(k, v)
            =~= pairs_to_map(s.drop_last()).insert(k, v));
    } else {
        assert(distinct_keys(s.drop_last()));
        assert(s.drop_last()[i] == s[i]);
        lemma_pairs_to_map_update(s.drop_last(), i, v);
        assert(t.drop_last() =~= s.drop_last().update(i, (k, v)));
        assert(t.last() == s.last());
        assert(s.last().0 != k);
        assert(pairs_to_map(s.drop_last()).insert(k, v).insert(s.last().0, s.last().1)
            =~= pairs_to_map(s.drop_last()).insert(s.last().0, s.last().1).insert(k, v));
    }
}

/// Appending a pair inserts its key.
pub proof fn lemma_pairs_to_map_push(s: Seq<(u64, u64)>, k: u64, v: u64)
    ensures
        pairs_to_map(s.push((k, v))) == pairs_to_map(s).insert(k, v),
{
    assert(s.push((k, v)).drop_last() =~= s);
    assert(s.push((k, v)).last() == (k, v));
}

/// The association table.
pub struct AssocTable {
    pub pairs: Vec<(u64, u64)>,
}

impl View for AssocTable {
    type V = Map<u64, u64>;

    open spec fn view(&self) -> Map<u64, u64> {
        pairs_to_map(self.pairs@)
    }
}

impl AssocTable {
    /// Well-formed: no key occurs twice.
    pub open spec fn wf(&self) -> bool {
        distinct_keys(self.pairs@)
    }

    /// An empty table.
    pub fn new() -> (r: AssocTable)
        ensures
            r.wf(),
            r@ == Map::<u64, u64>::empty(),
    {
        AssocTable { pairs: Vec::new() }
    }

    /// Position of the pair carrying `k`, if any.
    fn find(&self, k: u64) -> (r: Option<usize>)
        ensures
            match r {
                Some(i) => i < self.pairs@.len() && self.pairs@[i as int].0 == k,
                None => forall|i: int|
                    0 <= i < self.pairs@.len() ==> (#[trigger] self.pairs@[i]).0 != k,
            },
    {
        let n = self.pairs.len();
        let mut i: usize = 0;
        while i < n
            invariant
                n == self.pairs@.len(),
                0 <= i <= n,
                forall|j: int| 0 <= j < i ==> (#[trigger] self.pairs@[j]).0 != k,
            decreases n - i,
        {
            if self.pairs[i].0 == k {
                return Some(i);
            }
            i += 1;
        }
        None
    }

    /// The value stored at `k`, if any.
    pub fn get(&self, k: u64) -> (r: Option<u64>)
        requires
            self.wf(),
        ensures
            self@.contains_key(k) ==> r == Some(self@[k]),
            !self@.contains_key(k) ==> r is None,
    {
        proof {
            lemma_pairs_to_map_contains(self.pairs@, k);
        }
        match self.find(k) {
            Some(i) => {
                proof {
                    lemma_pairs_to_map_at(self.pairs@, i as int);
                }
                Some(self.pairs[i].1)
            },
            None => None,
        }
    }

    /// Store `v` at `k`, overwriting any earlier value.
    pub fn set(&mut self, k: u64, v: u64)
        requires
            old(self).wf(),
        ensures
            final(self).wf(),
            final(self)@ == old(self)@.insert(k, v),
    {
        proof {
            lemma_pairs_to_map_contains(self.pairs@, k);
        }
        match self.find(k) {
            Some(i) => {
                proof {
                    lemma_pairs_to_map_update(self.pairs@, i as int, v);
                }
                let ghost s0 = self.pairs@;
                let p = self.pairs.remove(i);
                self.pairs.insert(i, (k, v));
                proof {
                    assert(self.pairs@ =~= s0.update(i as int, (k, v)));
                    assert(distinct_keys(self.pairs@));
                }
            },
            None => {
                proof {
                    lemma_pairs_to_map_push(self.pairs@, k, v);
                }
                self.pairs.push((k, v));
            },
        }
    }

    /// Add `v` to the count stored at `k`, saturating; a missing key counts
    /// as zero.
    pub fn add_saturating(&mut self, k: u64, v: u64)
        requires
            old(self).wf(),
        ensures
            final(self).wf(),
            final(self)@ == old(self)@.insert(
                k,
                crate::combine_hits(
                    if old(self)@.contains_key(k) {
                        Some(old(self)@[k])
                    } else {
                        None
                    },
                    v,
                ),
            ),
    {
        let nv = match self.get(k) {
            Some(c) => crate::saturating_add_u64(c, v),
            None => v,
        };
        self.set(k, nv);
    }
}

} // verus!
