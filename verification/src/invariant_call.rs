//! Building the invariant-check call. The invariant under test is a
//! parameterless function described by an ABI item; its calldata is encoded
//! through the ABI crate, and the check is issued read-only from a fixed
//! system-level caller identity, so it never counts as a sequence call.

use vstd::prelude::*;
use alloy_dyn_abi::JsonAbiExt;
use crate::records::CallRequest;

verus! {

#[verifier::external_type_specification]
#[verifier::external_body]
pub struct ExFunction(alloy_json_abi::Function);

#[verifier::external_type_specification]
#[verifier::external_body]
pub struct ExAbiError(alloy_dyn_abi::Error);

/// The fixed system-level caller identity the invariant check is issued
/// from, reserved for infrastructure calls rather than sequence senders.
pub const INVARIANT_CALLER: u64 = 0x00a329c0;

/// The invariant being checked: the address hosting it and the ABI
/// description of the parameterless invariant function.
pub struct InvariantContract {
    pub address: u64,
    pub invariant_function: alloy_json_abi::Function,
}

/// Why a replay cannot proceed.
#[derive(Clone, Copy, PartialEq, Eq, Structural, Debug)]
pub enum ReplayError {
    /// The invariant function's calldata could not be encoded: the ABI item
    /// does not describe a parameterless function.
    InvariantEncoding,
}

/// The calldata that encoding an empty value list against an ABI function
/// item yields, when it yields any: the item's 4-byte selector. It is a
/// function of the ABI item alone; `None` stands for the encoding error
/// raised when the item declares inputs.
pub uninterp spec fn empty_input_encoding(function: alloy_json_abi::Function) -> Option<Seq<u8>>;

/// Relies on `alloy_dyn_abi::JsonAbiExt::abi_encode_input` for
/// `alloy_json_abi::Function`: it succeeds exactly when the given values
/// match the item's declared inputs — for zero values, when the item is
/// parameterless — and on success the calldata is the item's 4-byte
/// selector followed by the encoding of the given values, which for zero
/// values is empty, so the result is exactly the 4-byte selector. The
/// result depends on the ABI item alone.
#[verifier::external_body]
fn encode_empty_input(function: &alloy_json_abi::Function) -> (r: Result<
    Vec<u8>,
    alloy_dyn_abi::Error,
>)
    ensures
        r is Ok <==> empty_input_encoding(*function) is Some,
        r is Ok ==> r->Ok_0@ == empty_input_encoding(*function)->0,
        r is Ok ==> r->Ok_0@.len() == 4,
{
    function.abi_encode_input(&[])
}

/// The read-only invariant-check call: issued from the fixed system caller
/// to the invariant's address, with the encoded parameterless calldata and
/// no value. Succeeds exactly when the ABI item encodes an empty input
/// list, i.e. when it is parameterless, and the payload sent is exactly
/// that encoding.
pub fn invariant_check_request(invariant_contract: &InvariantContract) -> (r: Result<
    CallRequest,
    ReplayError,
>)
    ensures
        r is Ok <==> empty_input_encoding(invariant_contract.invariant_function) is Some,
        r is Ok ==> ({
            &&& r->Ok_0.caller == INVARIANT_CALLER
            &&& r->Ok_0.target == invariant_contract.address
            &&& r->Ok_0.payload@ == empty_input_encoding(
                invariant_contract.invariant_function,
            )->0
            &&& r->Ok_0.payload@.len() == 4
            &&& r->Ok_0.value == 0
            &&& !r->Ok_0.committing
        }),
        r is Err ==> r->Err_0 == ReplayError::InvariantEncoding,
{
    match encode_empty_input(&invariant_contract.invariant_function) {
        Ok(payload) => Ok(
            CallRequest {
                caller: INVARIANT_CALLER,
                target: invariant_contract.address,
                payload,
                value: 0,
                committing: false,
            },
        ),
        Err(_) => Err(ReplayError::InvariantEncoding),
    }
}

} // verus!
