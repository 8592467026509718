//! The contract registry: a map from address to known contract identity.
//! It is threaded through a replay and extended in place as newly created
//! contracts are discovered; it grows monotonically and never shrinks.

use vstd::prelude::*;
use crate::table::AssocTable;

verus! {

/// Folding a batch of discovered `(address, identity)` entries into a
/// registry; on a duplicate address the later entry wins.
pub open spec fn extend_reg(m: Map<u64, u64>, s: Seq<(u64, u64)>) -> Map<u64, u64>
    decreases s.len(),
{
    if s.len() == 0 {
        m
    } else {
        extend_reg(m, s.drop_last()).insert(s.last().0, s.last().1)
    }
}

/// Every address known before an extension is still known after it.
pub proof fn lemma_extend_reg_monotonic(m: Map<u64, u64>, s: Seq<(u64, u64)>, k: u64)
    requires
        m.contains_key(k),
    ensures
        extend_reg(m, s).contains_key(k),
    decreases s.len(),
{
    if s.len() > 0 {
        lemma_extend_reg_monotonic(m, s.drop_last(), k);
    }
}

/// A registry of contract identities, keyed by address.
pub struct ContractRegistry {
    pub entries: AssocTable,
}

impl View for ContractRegistry {
    type V = Map<u64, u64>;

    open spec fn view(&self) -> Map<u64, u64> {
        self.entries@
    }
}

impl ContractRegistry {
    /// Well-formed: each address occurs once.
    pub open spec fn wf(&self) -> bool {
        self.entries.wf()
    }

    /// An empty registry.
    pub fn new() -> (r: ContractRegistry)
        ensures
            r.wf(),
            r@ == Map::<u64, u64>::empty(),
    {
        ContractRegistry { entries: AssocTable::new() }
    }

    /// Record that `address` holds the contract with identity `identity`.
    pub fn insert(&mut self, address: u64, identity: u64)
        requires
            old(self).wf(),
        ensures
            final(self).wf(),
            final(self)@ == old(self)@.insert(address, identity),
    {
        self.entries.set(address, identity);
    }

    /// The identity known for `address`, if any.
    pub fn lookup(&self, address: u64) -> (r: Option<u64>)
        requires
            self.wf(),
        ensures
            self@.contains_key(address) ==> r == Some(self@[address]),
            !self@.contains_key(address) ==> r is None,
    {
        self.entries.get(address)
    }

    /// Merge a batch of newly discovered identities into the registry.
    pub fn extend(&mut self, discovered: &Vec<(u64, u64)>)
        requires
            old(self).wf(),
        ensures
            final(self).wf(),
            final(self)@ == extend_reg(old(self)@, discovered@),
    {
        let ghost m0 = self@;
        let n = discovered.len();
        let mut i: usize = 0;
        while i < n
            invariant
                self.wf(),
                n == discovered@.len(),
                0 <= i <= n,
                self@ == extend_reg(m0, discovered@.take(i as int)),
            decreases n - i,
        {
            let pair = discovered[i];
            proof {
                let p = discovered@.take(i as int);
                assert(discovered@.take(i as int + 1) =~= p.push(discovered@[i as int]));
                assert(p.push(discovered@[i as int]).drop_last() =~= p);
            }
            self.entries.set(pair.0, pair.1);
            i += 1;
        }
        proof {
            assert(discovered@.take(n as int) =~= discovered@);
        }
    }
}

} // verus!
