//! The counterexample: a self-contained description of the calls that
//! reproduce a failure, one descriptor per replayed call, each labelled with
//! the contract identity of its target where that identity was known when
//! the descriptor was built.
//!
//! A descriptor always keeps the raw calldata. Decoding the call's
//! arguments needs the target's ABI and is the reporting layer's work: with
//! the raw payload and the resolved contract identity it can decode where
//! the ABI is known and fall back to the raw bytes where it is not.

use vstd::prelude::*;
use crate::records::CallRecordModel;
use crate::records::copy_bytes;
use crate::registry::ContractRegistry;

verus! {

/// One per-call descriptor of the counterexample.
pub struct CounterExampleEntry {
    /// The sender of the replayed call.
    pub sender: u64,
    /// The address the call targeted.
    pub target: u64,
    /// The raw calldata of the call.
    pub payload: Vec<u8>,
    /// The contract identity of the target, if it was known when this
    /// descriptor was built (it may only become known during replay, since
    /// a call may itself deploy new code).
    pub contract: Option<u64>,
}

/// The mathematical value of a descriptor.
pub ghost struct CounterExampleEntryModel {
    pub sender: u64,
    pub target: u64,
    pub payload: Seq<u8>,
    pub contract: Option<u64>,
}

impl View for CounterExampleEntry {
    type V = CounterExampleEntryModel;

    open spec fn view(&self) -> CounterExampleEntryModel {
        CounterExampleEntryModel {
            sender: self.sender,
            target: self.target,
            payload: self.payload@,
            contract: self.contract,
        }
    }
}

/// The descriptor a call yields against a given registry state.
pub open spec fn entry_model(call: CallRecordModel, registry: Map<u64, u64>) -> CounterExampleEntryModel {
    CounterExampleEntryModel {
        sender: call.sender,
        target: call.target,
        payload: call.payload,
        contract: if registry.contains_key(call.target) {
            Some(registry[call.target])
        } else {
            None
        },
    }
}

impl CounterExampleEntry {
    /// Build the descriptor for one call, labelling its target with the
    /// best currently-known contract identity.
    pub fn create(sender: u64, target: u64, payload: &Vec<u8>, registry: &ContractRegistry) -> (r:
        CounterExampleEntry)
        requires
            registry.wf(),
        ensures
            r@ == entry_model(
                CallRecordModel { sender, target, payload: payload@ },
                registry@,
            ),
    {
        CounterExampleEntry {
            sender,
            target,
            payload: copy_bytes(payload),
            contract: registry.lookup(target),
        }
    }
}

/// A non-empty sequence of per-call descriptors, one per replayed call, in
/// replay order.
pub struct CounterExample {
    pub entries: Vec<CounterExampleEntry>,
}

} // verus!
