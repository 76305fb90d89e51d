//! What guest code gets back from each host capability, once the host has
//! answered: the typed outcome, and the output narrowed to what was written.

use crate::buffer::extract_from_slice;
use crate::status::{decode_length, decode_status, Error, ReturnCode};
use vstd::prelude::*;

verus! {

/// Whether the host kept its promise to write no more than the region holds.
pub open spec fn within_capacity(reported: u32, output: &[u8]) -> bool {
    reported <= output@.len()
}

/// The outcome of creating a contract: the new identity and the
/// constructor's output, each narrowed to what the host wrote.
pub fn instantiate(
    ret_code: ReturnCode,
    address_len: u32,
    return_value_len: u32,
    out_address: &mut &mut [u8],
    out_return_value: &mut &mut [u8],
) -> (res: Result<(), Error>)
    requires
        within_capacity(address_len, *old(out_address)),
        within_capacity(return_value_len, *old(out_return_value)),
    ensures
        final(out_address)@ == old(out_address)@.take(address_len as int),
        final(out_return_value)@ == old(out_return_value)@.take(return_value_len as int),
        final(out_address)@.len() <= old(out_address)@.len(),
        final(out_return_value)@.len() <= old(out_return_value)@.len(),
        res == decode_status(ret_code.0),
{
    extract_from_slice(out_address, address_len as usize);
    extract_from_slice(out_return_value, return_value_len as usize);
    ret_code.into()
}

/// The outcome of calling another contract.
pub fn call(ret_code: ReturnCode, output_len: u32, output: &mut &mut [u8]) -> (res: Result<
    (),
    Error,
>)
    requires
        within_capacity(output_len, *old(output)),
    ensures
        final(output)@ == old(output)@.take(output_len as int),
        final(output)@.len() <= old(output)@.len(),
        res == decode_status(ret_code.0),
{
    extract_from_slice(output, output_len as usize);
    ret_code.into()
}

/// The outcome of running foreign code in the caller's own context.
pub fn delegate_call(ret_code: ReturnCode, output_len: u32, output: &mut &mut [u8]) -> (res: Result<
    (),
    Error,
>)
    requires
        within_capacity(output_len, *old(output)),
    ensures
        final(output)@ == old(output)@.take(output_len as int),
        final(output)@.len() <= old(output)@.len(),
        res == decode_status(ret_code.0),
{
    extract_from_slice(output, output_len as usize);
    ret_code.into()
}

/// The outcome of a transfer.
pub fn transfer(ret_code: ReturnCode) -> (res: Result<(), Error>)
    ensures
        res == decode_status(ret_code.0),
{
    ret_code.into()
}

/// The length of what a write replaced, if it replaced anything.
pub fn set_storage(ret_code: ReturnCode) -> (prior: Option<u32>)
    ensures
        prior == decode_length(ret_code.0),
{
    ret_code.into()
}

/// The length of what a deletion removed, if it removed anything.
pub fn clear_storage(ret_code: ReturnCode) -> (prior: Option<u32>)
    ensures
        prior == decode_length(ret_code.0),
{
    ret_code.into()
}

/// The outcome of a read: the value, narrowed to what the host wrote.
pub fn get_storage(ret_code: ReturnCode, output_len: u32, output: &mut &mut [u8]) -> (res: Result<
    (),
    Error,
>)
    requires
        within_capacity(output_len, *old(output)),
    ensures
        final(output)@ == old(output)@.take(output_len as int),
        final(output)@.len() <= old(output)@.len(),
        res == decode_status(ret_code.0),
{
    extract_from_slice(output, output_len as usize);
    ret_code.into()
}

/// The outcome of a read that also deletes: the value, narrowed to what the
/// host wrote.
pub fn take_storage(ret_code: ReturnCode, output_len: u32, output: &mut &mut [u8]) -> (res: Result<
    (),
    Error,
>)
    requires
        within_capacity(output_len, *old(output)),
    ensures
        final(output)@ == old(output)@.take(output_len as int),
        final(output)@.len() <= old(output)@.len(),
        res == decode_status(ret_code.0),
{
    extract_from_slice(output, output_len as usize);
    ret_code.into()
}

/// The length of what is stored under a key, if anything is.
pub fn storage_contains(ret_code: ReturnCode) -> (size: Option<u32>)
    ensures
        size == decode_length(ret_code.0),
{
    ret_code.into()
}

/// The outcome of a chain extension: its output, narrowed to what the host
/// wrote, and its status as the extension gave it. What the status means is
/// for the extension to say.
pub fn call_chain_extension(ret_code: ReturnCode, output_len: u32, output: &mut &mut [u8]) -> (raw:
    u32)
    requires
        within_capacity(output_len, *old(output)),
    ensures
        final(output)@ == old(output)@.take(output_len as int),
        final(output)@.len() <= old(output)@.len(),
        raw == ret_code.0,
{
    extract_from_slice(output, output_len as usize);
    ret_code.into_u32()
}

/// The input of the current call, narrowed to what the host wrote.
pub fn input(output_len: u32, output: &mut &mut [u8])
    requires
        within_capacity(output_len, *old(output)),
    ensures
        final(output)@ == old(output)@.take(output_len as int),
        final(output)@.len() <= old(output)@.len(),
{
    extract_from_slice(output, output_len as usize);
}

/// The outcome of a call dispatched into the runtime.
pub fn call_runtime(ret_code: ReturnCode) -> (res: Result<(), Error>)
    ensures
        res == decode_status(ret_code.0),
{
    ret_code.into()
}

/// The answer to a query about the execution (the caller, the block number,
/// the contract's own address, its balance, the gas left, the value
/// transferred, the time, the minimum balance), narrowed to what the host
/// wrote.
pub fn query(output_len: u32, output: &mut &mut [u8])
    requires
        within_capacity(output_len, *old(output)),
    ensures
        final(output)@ == old(output)@.take(output_len as int),
        final(output)@.len() <= old(output)@.len(),
{
    extract_from_slice(output, output_len as usize);
}

/// The price of an amount of gas, narrowed to what the host wrote.
pub fn weight_to_fee(output_len: u32, output: &mut &mut [u8])
    requires
        within_capacity(output_len, *old(output)),
    ensures
        final(output)@ == old(output)@.take(output_len as int),
        final(output)@.len() <= old(output)@.len(),
{
    extract_from_slice(output, output_len as usize);
}

/// The outcome of recovering a public key.
pub fn ecdsa_recover(ret_code: ReturnCode) -> (res: Result<(), Error>)
    ensures
        res == decode_status(ret_code.0),
{
    ret_code.into()
}

/// The outcome of deriving an address from a public key.
pub fn ecdsa_to_eth_address(ret_code: ReturnCode) -> (res: Result<(), Error>)
    ensures
        res == decode_status(ret_code.0),
{
    ret_code.into()
}

/// Whether an account is a contract.
pub fn is_contract(ret_val: ReturnCode) -> (yes: bool)
    ensures
        yes == (ret_val.0 != 0),
{
    ret_val.into_bool()
}

/// Whether the caller of this contract is the origin of the whole call
/// chain.
pub fn caller_is_origin(ret_val: ReturnCode) -> (yes: bool)
    ensures
        yes == (ret_val.0 != 0),
{
    ret_val.into_bool()
}

/// The outcome of replacing the contract's code.
pub fn set_code_hash(ret_val: ReturnCode) -> (res: Result<(), Error>)
    ensures
        res == decode_status(ret_val.0),
{
    ret_val.into()
}

/// The code hash of an account, narrowed to what the host wrote.
pub fn code_hash(output_len: u32, output: &mut &mut [u8])
    requires
        within_capacity(output_len, *old(output)),
    ensures
        final(output)@ == old(output)@.take(output_len as int),
        final(output)@.len() <= old(output)@.len(),
{
    extract_from_slice(output, output_len as usize);
}

/// The contract's own code hash, narrowed to what the host wrote.
pub fn own_code_hash(output_len: u32, output: &mut &mut [u8])
    requires
        within_capacity(output_len, *old(output)),
    ensures
        final(output)@ == old(output)@.take(output_len as int),
        final(output)@.len() <= old(output)@.len(),
{
    extract_from_slice(output, output_len as usize);
}

} // verus!
