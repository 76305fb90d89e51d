//! The arguments of each host entry point, made from what guest code holds.
//!
//! Every function hands back the arguments in the order in which the entry
//! point takes them: what is fixed first, then each region that the host
//! reads with its length, then each region that the host fills with its
//! length cell.

use crate::buffer::{Input, Negotiated};
use crate::ptr::{Ptr32, Ptr32Mut};
use vstd::prelude::*;

verus! {

/// Whether a region is small enough for its length to cross the boundary.
pub open spec fn fits(bytes: Seq<u8>) -> bool {
    bytes.len() <= u32::MAX
}

/// The arguments for creating a contract from the code at `code_hash`.
pub fn instantiate<'a>(
    code_hash: &'a [u8],
    gas_limit: u64,
    endowment: &'a [u8],
    input: &'a [u8],
    out_address: &'a mut [u8],
    address_len: &'a mut u32,
    out_return_value: &'a mut [u8],
    return_value_len: &'a mut u32,
    salt: &'a [u8],
) -> (args: (Ptr32<'a, [u8]>, u64, Ptr32<'a, [u8]>, Input<'a>, Negotiated<'a>, Negotiated<'a>, Input<'a>))
    requires
        fits(input@),
        fits(salt@),
        fits(old(out_address)@),
        fits(old(out_return_value)@),
    ensures
        args.0.region()@ == code_hash@,
        args.1 == gas_limit,
        args.2.region()@ == endowment@,
        args.3.carries(input@),
        args.4.offers(old(out_address)@),
        args.5.offers(old(out_return_value)@),
        args.6.carries(salt@),
        final(out_address)@.len() == old(out_address)@.len(),
        final(out_return_value)@.len() == old(out_return_value)@.len(),
{
    (
        Ptr32::from_slice(code_hash),
        gas_limit,
        Ptr32::from_slice(endowment),
        Input::new(input),
        Negotiated::open(out_address, address_len),
        Negotiated::open(out_return_value, return_value_len),
        Input::new(salt),
    )
}

/// The arguments for calling the contract `callee`.
pub fn call<'a>(
    flags: u32,
    callee: &'a [u8],
    gas_limit: u64,
    value: &'a [u8],
    input: &'a [u8],
    output: &'a mut [u8],
    output_len: &'a mut u32,
) -> (args: (u32, Ptr32<'a, [u8]>, u64, Ptr32<'a, [u8]>, Input<'a>, Negotiated<'a>))
    requires
        fits(input@),
        fits(old(output)@),
    ensures
        args.0 == flags,
        args.1.region()@ == callee@,
        args.2 == gas_limit,
        args.3.region()@ == value@,
        args.4.carries(input@),
        args.5.offers(old(output)@),
        final(output)@.len() == old(output)@.len(),
{
    (
        flags,
        Ptr32::from_slice(callee),
        gas_limit,
        Ptr32::from_slice(value),
        Input::new(input),
        Negotiated::open(output, output_len),
    )
}

/// The arguments for running the code at `code_hash` in the caller's own
/// context.
pub fn delegate_call<'a>(
    flags: u32,
    code_hash: &'a [u8],
    input: &'a [u8],
    output: &'a mut [u8],
    output_len: &'a mut u32,
) -> (args: (u32, Ptr32<'a, [u8]>, Input<'a>, Negotiated<'a>))
    requires
        fits(input@),
        fits(old(output)@),
    ensures
        args.0 == flags,
        args.1.region()@ == code_hash@,
        args.2.carries(input@),
        args.3.offers(old(output)@),
        final(output)@.len() == old(output)@.len(),
{
    (flags, Ptr32::from_slice(code_hash), Input::new(input), Negotiated::open(output, output_len))
}

/// The arguments for moving `value` to `account_id`.
pub fn transfer<'a>(account_id: &'a [u8], value: &'a [u8]) -> (args: (Input<'a>, Input<'a>))
    requires
        fits(account_id@),
        fits(value@),
    ensures
        args.0.carries(account_id@),
        args.1.carries(value@),
{
    (Input::new(account_id), Input::new(value))
}

/// The arguments for emitting an event.
pub fn deposit_event<'a>(topics: &'a [u8], data: &'a [u8]) -> (args: (Input<'a>, Input<'a>))
    requires
        fits(topics@),
        fits(data@),
    ensures
        args.0.carries(topics@),
        args.1.carries(data@),
{
    (Input::new(topics), Input::new(data))
}

/// The arguments for writing `encoded_value` under `key`.
pub fn set_storage<'a>(key: &'a [u8], encoded_value: &'a [u8]) -> (args: (Input<'a>, Input<'a>))
    requires
        fits(key@),
        fits(encoded_value@),
    ensures
        args.0.carries(key@),
        args.1.carries(encoded_value@),
{
    (Input::new(key), Input::new(encoded_value))
}

/// The arguments for reading what is stored under `key`.
pub fn get_storage<'a>(key: &'a [u8], output: &'a mut [u8], output_len: &'a mut u32) -> (args: (
    Input<'a>,
    Negotiated<'a>,
))
    requires
        fits(key@),
        fits(old(output)@),
    ensures
        args.0.carries(key@),
        args.1.offers(old(output)@),
        final(output)@.len() == old(output)@.len(),
{
    (Input::new(key), Negotiated::open(output, output_len))
}

/// The arguments for reading what is stored under `key` and deleting it.
pub fn take_storage<'a>(key: &'a [u8], output: &'a mut [u8], output_len: &'a mut u32) -> (args: (
    Input<'a>,
    Negotiated<'a>,
))
    requires
        fits(key@),
        fits(old(output)@),
    ensures
        args.0.carries(key@),
        args.1.offers(old(output)@),
        final(output)@.len() == old(output)@.len(),
{
    (Input::new(key), Negotiated::open(output, output_len))
}

/// The arguments for the function `func_id` of a chain extension.
pub fn call_chain_extension<'a>(
    func_id: u32,
    input: &'a [u8],
    output: &'a mut [u8],
    output_len: &'a mut u32,
) -> (args: (u32, Input<'a>, Negotiated<'a>))
    requires
        fits(input@),
        fits(old(output)@),
    ensures
        args.0 == func_id,
        args.1.carries(input@),
        args.2.offers(old(output)@),
        final(output)@.len() == old(output)@.len(),
{
    (func_id, Input::new(input), Negotiated::open(output, output_len))
}

/// The arguments for the price of `gas`.
pub fn weight_to_fee<'a>(gas: u64, output: &'a mut [u8], output_len: &'a mut u32) -> (args: (
    u64,
    Negotiated<'a>,
))
    requires
        fits(old(output)@),
    ensures
        args.0 == gas,
        args.1.offers(old(output)@),
        final(output)@.len() == old(output)@.len(),
{
    (gas, Negotiated::open(output, output_len))
}

/// The arguments for looking up the code hash of `account_id`.
pub fn code_hash<'a>(account_id: &'a [u8], output: &'a mut [u8], output_len: &'a mut u32) -> (args: (
    Ptr32<'a, [u8]>,
    Negotiated<'a>,
))
    requires
        fits(old(output)@),
    ensures
        args.0.region()@ == account_id@,
        args.1.offers(old(output)@),
        final(output)@.len() == old(output)@.len(),
{
    (Ptr32::from_slice(account_id), Negotiated::open(output, output_len))
}

/// The arguments for the SHA-2 digest of `input`, 256 bits wide.
pub fn hash_sha2_256<'a>(input: &'a [u8], output: &'a mut [u8; 32]) -> (args: (
    Input<'a>,
    Ptr32Mut<'a, [u8]>,
))
    requires
        fits(input@),
    ensures
        args.0.carries(input@),
        args.1.region()@ == old(output)@,
        args.1.region()@.len() == 32,
{
    (Input::new(input), Ptr32Mut::from_slice(output))
}

/// The arguments for the Keccak digest of `input`, 256 bits wide.
pub fn hash_keccak_256<'a>(input: &'a [u8], output: &'a mut [u8; 32]) -> (args: (
    Input<'a>,
    Ptr32Mut<'a, [u8]>,
))
    requires
        fits(input@),
    ensures
        args.0.carries(input@),
        args.1.region()@ == old(output)@,
        args.1.region()@.len() == 32,
{
    (Input::new(input), Ptr32Mut::from_slice(output))
}

/// The arguments for the BLAKE2 digest of `input`, 256 bits wide.
pub fn hash_blake2_256<'a>(input: &'a [u8], output: &'a mut [u8; 32]) -> (args: (
    Input<'a>,
    Ptr32Mut<'a, [u8]>,
))
    requires
        fits(input@),
    ensures
        args.0.carries(input@),
        args.1.region()@ == old(output)@,
        args.1.region()@.len() == 32,
{
    (Input::new(input), Ptr32Mut::from_slice(output))
}

/// The arguments for the BLAKE2 digest of `input`, 128 bits wide.
pub fn hash_blake2_128<'a>(input: &'a [u8], output: &'a mut [u8; 16]) -> (args: (
    Input<'a>,
    Ptr32Mut<'a, [u8]>,
))
    requires
        fits(input@),
    ensures
        args.0.carries(input@),
        args.1.region()@ == old(output)@,
        args.1.region()@.len() == 16,
{
    (Input::new(input), Ptr32Mut::from_slice(output))
}

/// The arguments for recovering the public key that signed `message_hash`.
pub fn ecdsa_recover<'a>(
    signature: &'a [u8; 65],
    message_hash: &'a [u8; 32],
    output: &'a mut [u8; 33],
) -> (args: (Ptr32<'a, [u8]>, Ptr32<'a, [u8]>, Ptr32Mut<'a, [u8]>))
    ensures
        args.0.region()@ == signature@,
        args.1.region()@ == message_hash@,
        args.2.region()@ == old(output)@,
        args.0.region()@.len() == 65,
        args.1.region()@.len() == 32,
        args.2.region()@.len() == 33,
{
    (Ptr32::from_slice(signature), Ptr32::from_slice(message_hash), Ptr32Mut::from_slice(output))
}

/// The arguments for deriving the address that belongs to `pubkey`.
pub fn ecdsa_to_eth_address<'a>(pubkey: &'a [u8; 33], output: &'a mut [u8; 20]) -> (args: (
    Ptr32<'a, [u8]>,
    Ptr32Mut<'a, [u8]>,
))
    ensures
        args.0.region()@ == pubkey@,
        args.1.region()@ == old(output)@,
        args.0.region()@.len() == 33,
        args.1.region()@.len() == 20,
{
    (Ptr32::from_slice(pubkey), Ptr32Mut::from_slice(output))
}

/// A call after which the host never hands control back.
pub enum Halt<'a> {
    /// Remove the contract and send what it holds to the beneficiary.
    Terminate(Ptr32<'a, [u8]>),
    /// Hand the flags and the data to the caller of this contract.
    Return(u32, Input<'a>),
}

/// The arguments for removing the calling contract in favour of
/// `beneficiary`.
pub fn terminate<'a>(beneficiary: &'a [u8]) -> (halt: Halt<'a>)
    ensures
        halt matches Halt::Terminate(ptr) && ptr.region()@ == beneficiary@,
{
    Halt::Terminate(Ptr32::from_slice(beneficiary))
}

/// The arguments for ending the execution and handing `data` to the caller.
pub fn return_value<'a>(flags: u32, data: &'a [u8]) -> (halt: Halt<'a>)
    requires
        fits(data@),
    ensures
        halt matches Halt::Return(f, input) && f == flags && input.carries(data@),
{
    Halt::Return(flags, Input::new(data))
}

} // verus!
