//! Decoding of the numeric status that every boundary call hands back.

use vstd::prelude::*;
use vstd::std_specs::convert::FromSpecImpl;

verus! {

/// Every error that the host can report to guest code.
#[derive(Clone, Copy, Debug, PartialEq, Eq, Structural)]
pub enum Error {
    /// The callee trapped; its state changes are reverted and no output is returned.
    CalleeTrapped,
    /// The callee ran to completion and chose to revert; output may have been returned.
    CalleeReverted,
    /// The key does not exist in storage.
    KeyNotFound,
    /// Retired; no host reports it any more.
    _BelowSubsistenceThreshold,
    /// The transfer failed.
    TransferFailed,
    /// Retired; no host reports it any more.
    _EndowmentTooLow,
    /// No code was found at the given code hash.
    CodeNotFound,
    /// The called account is no contract.
    NotCallable,
    /// The debug message had no effect because recording is disabled.
    LoggingDisabled,
    /// The dispatched runtime call was executed and failed.
    CallRuntimeFailed,
    /// Recovery of the public key failed.
    EcdsaRecoveryFailed,
    /// The host reported a code that this boundary does not know.
    Unknown,
}

/// The value that stands for "nothing" where a result is otherwise a length.
pub const SENTINEL: u32 = 0xFFFF_FFFF;

/// The largest status that has a meaning of its own.
pub const LAST_DEFINED: u32 = 11;

/// The typed outcome that a raw status stands for.
pub open spec fn decode_status(code: u32) -> Result<(), Error> {
    if code == 0 {
        Ok(())
    } else if code == 1 {
        Err(Error::CalleeTrapped)
    } else if code == 2 {
        Err(Error::CalleeReverted)
    } else if code == 3 {
        Err(Error::KeyNotFound)
    } else if code == 4 {
        Err(Error::_BelowSubsistenceThreshold)
    } else if code == 5 {
        Err(Error::TransferFailed)
    } else if code == 6 {
        Err(Error::_EndowmentTooLow)
    } else if code == 7 {
        Err(Error::CodeNotFound)
    } else if code == 8 {
        Err(Error::NotCallable)
    } else if code == 9 {
        Err(Error::LoggingDisabled)
    } else if code == 10 {
        Err(Error::CallRuntimeFailed)
    } else if code == 11 {
        Err(Error::EcdsaRecoveryFailed)
    } else {
        Err(Error::Unknown)
    }
}

/// The length that a raw result stands for, if it stands for one.
pub open spec fn decode_length(code: u32) -> Option<u32> {
    if code < SENTINEL {
        Some(code)
    } else {
        None
    }
}

/// The raw status returned by the host.
pub struct ReturnCode(pub u32);

impl From<ReturnCode> for Result<(), Error> {
    fn from(return_code: ReturnCode) -> (res: Self) {
        match return_code.0 {
            0 => Ok(()),
            1 => Err(Error::CalleeTrapped),
            2 => Err(Error::CalleeReverted),
            3 => Err(Error::KeyNotFound),
            4 => Err(Error::_BelowSubsistenceThreshold),
            5 => Err(Error::TransferFailed),
            6 => Err(Error::_EndowmentTooLow),
            7 => Err(Error::CodeNotFound),
            8 => Err(Error::NotCallable),
            9 => Err(Error::LoggingDisabled),
            10 => Err(Error::CallRuntimeFailed),
            11 => Err(Error::EcdsaRecoveryFailed),
            _ => Err(Error::Unknown),
        }
    }
}

impl FromSpecImpl<ReturnCode> for Result<(), Error> {
    open spec fn obeys_from_spec() -> bool {
        true
    }

    open spec fn from_spec(return_code: ReturnCode) -> Self {
        decode_status(return_code.0)
    }
}

impl From<ReturnCode> for Option<u32> {
    fn from(code: ReturnCode) -> (res: Self) {
        if code.0 < SENTINEL {
            Some(code.0)
        } else {
            None
        }
    }
}

impl FromSpecImpl<ReturnCode> for Option<u32> {
    open spec fn obeys_from_spec() -> bool {
        true
    }

    open spec fn from_spec(code: ReturnCode) -> Self {
        decode_length(code.0)
    }
}

impl ReturnCode {
    /// The raw number.
    pub fn into_u32(self) -> (raw: u32)
        ensures
            raw == self.0,
    {
        self.0
    }

    /// Whether the raw number differs from zero.
    pub fn into_bool(self) -> (set: bool)
        ensures
            set == (self.0 != 0),
    {
        self.0 != 0
    }
}

/// Zero is success, whatever the operation.
pub proof fn zero_is_success()
    ensures
        decode_status(0) == Ok::<(), Error>(()),
{
}

/// Success is zero and nothing else.
pub proof fn success_is_zero(code: u32)
    ensures
        decode_status(code).is_ok() <==> code == 0,
{
}

/// Every code that is defined stands for its own kind of error.
pub proof fn defined_codes()
    ensures
        decode_status(1) == Err::<(), Error>(Error::CalleeTrapped),
        decode_status(2) == Err::<(), Error>(Error::CalleeReverted),
        decode_status(3) == Err::<(), Error>(Error::KeyNotFound),
        decode_status(4) == Err::<(), Error>(Error::_BelowSubsistenceThreshold),
        decode_status(5) == Err::<(), Error>(Error::TransferFailed),
        decode_status(6) == Err::<(), Error>(Error::_EndowmentTooLow),
        decode_status(7) == Err::<(), Error>(Error::CodeNotFound),
        decode_status(8) == Err::<(), Error>(Error::NotCallable),
        decode_status(9) == Err::<(), Error>(Error::LoggingDisabled),
        decode_status(10) == Err::<(), Error>(Error::CallRuntimeFailed),
        decode_status(11) == Err::<(), Error>(Error::EcdsaRecoveryFailed),
{
}

/// Every code that is not defined stands for the unknown kind, and only
/// such codes do.
pub proof fn undefined_codes(code: u32)
    ensures
        decode_status(code) == Err::<(), Error>(Error::Unknown) <==> code > LAST_DEFINED,
{
}

/// No two codes stand for the same outcome, but for the codes that are not
/// defined.
pub proof fn codes_are_distinct(a: u32, b: u32)
    requires
        decode_status(a) == decode_status(b),
        a <= LAST_DEFINED,
    ensures
        a == b,
{
}

/// The sentinel stands for no length.
pub proof fn sentinel_is_absent()
    ensures
        decode_length(SENTINEL) == None::<u32>,
{
}

/// Every value below the sentinel stands for itself, and only such values
/// stand for a length.
pub proof fn below_sentinel_is_present(code: u32)
    ensures
        code < SENTINEL ==> decode_length(code) == Some(code),
        decode_length(code).is_some() ==> code < SENTINEL,
{
}

} // verus!
