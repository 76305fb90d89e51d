//! The latch that keeps guest code from paying for debug messages that the
//! host throws away.

use crate::buffer::Input;
use crate::status::{decode_status, Error, ReturnCode};
use vstd::prelude::*;
use vstd::string::StringSliceAdditionalSpecFns;

verus! {

/// What one execution remembers of its debug messages.
#[derive(Clone, Copy, Debug, PartialEq, Eq, Structural)]
pub struct DebugGate {
    /// The host took a message.
    pub enabled: bool,
    /// No message was tried yet.
    pub first_run: bool,
}

impl DebugGate {
    /// Whether the next message is handed to the host.
    pub open spec fn attempts(self) -> bool {
        self.enabled || self.first_run
    }

    /// The latch after one more message, which the host answers with `code`
    /// if it is asked at all: a message that is held back changes nothing.
    pub open spec fn after(self, code: u32) -> DebugGate {
        if self.attempts() {
            DebugGate { enabled: self.enabled || !says_disabled(code), first_run: false }
        } else {
            self
        }
    }

    /// The latch after `n` messages, each of which the host answers with
    /// `code` if it is asked at all.
    pub open spec fn after_messages(self, code: u32, n: nat) -> DebugGate
        decreases n,
    {
        if n == 0 {
            self
        } else {
            self.after(code).after_messages(code, (n - 1) as nat)
        }
    }

    /// How many of `n` messages reach the host, each of which the host
    /// answers with `code` if it is asked at all.
    pub open spec fn boundary_calls(self, code: u32, n: nat) -> nat
        decreases n,
    {
        if n == 0 {
            0
        } else if self.attempts() {
            1 + self.after(code).boundary_calls(code, (n - 1) as nat)
        } else {
            self.after(code).boundary_calls(code, (n - 1) as nat)
        }
    }

    /// The latch at the start of an execution.
    pub fn new() -> (gate: Self)
        ensures
            !gate.enabled,
            gate.first_run,
    {
        DebugGate { enabled: false, first_run: true }
    }

    /// Whether the next message is handed to the host.
    pub fn should_attempt(&self) -> (go: bool)
        ensures
            go == self.attempts(),
    {
        self.enabled || self.first_run
    }

    /// Takes note of the host's answer to a message. Where the message was
    /// held back there was no answer, and nothing is noted.
    pub fn record(&mut self, ret_code: ReturnCode)
        ensures
            *final(self) == old(self).after(ret_code.0),
    {
        if self.enabled || self.first_run {
            let res: Result<(), Error> = ret_code.into();
            let disabled = match res {
                Err(Error::LoggingDisabled) => true,
                _ => false,
            };
            if !disabled {
                self.enabled = true;
            }
            self.first_run = false;
        }
    }
}

/// The argument for a debug message, if the latch lets it through. A message
/// that is held back costs no call.
pub fn debug_message<'a>(gate: &DebugGate, message: &'a str) -> (attempt: Option<Input<'a>>)
    requires
        message.spec_bytes().len() <= u32::MAX,
    ensures
        attempt.is_some() == gate.attempts(),
        attempt matches Some(input) ==> input.carries(message.spec_bytes()),
{
    if gate.should_attempt() {
        Some(Input::new(message.as_bytes()))
    } else {
        None
    }
}

/// Whether a status says that the host records no debug messages.
pub open spec fn says_disabled(code: u32) -> bool {
    decode_status(code) == Err::<(), Error>(Error::LoggingDisabled)
}

/// Once the host has answered the first message with "logging disabled",
/// the latch is shut.
pub proof fn disabled_shuts_gate(gate: DebugGate, code: u32)
    requires
        !gate.enabled,
        says_disabled(code),
    ensures
        !gate.after(code).attempts(),
{
}

/// Once the host has taken a message, every later message reaches it.
pub proof fn taken_message_opens_gate(gate: DebugGate, code: u32, later: u32, n: nat)
    requires
        gate.attempts(),
        !says_disabled(code),
    ensures
        gate.after(code).boundary_calls(later, n) == n,
{
    open_gate_counts_all(gate.after(code), later, n);
}

/// A latch that the host has opened lets every message through.
proof fn open_gate_counts_all(gate: DebugGate, code: u32, n: nat)
    requires
        gate.enabled,
    ensures
        gate.boundary_calls(code, n) == n,
    decreases n,
{
    if n > 0 {
        open_gate_counts_all(gate.after(code), code, (n - 1) as nat);
    }
}

/// A latch that is shut stays shut, and lets no message through: whatever the
/// host would answer, none of the next `n` messages costs a call.
pub proof fn shut_gate_costs_nothing(gate: DebugGate, code: u32, n: nat)
    requires
        !gate.attempts(),
    ensures
        gate.boundary_calls(code, n) == 0,
        gate.after_messages(code, n) == gate,
    decreases n,
{
    if n > 0 {
        shut_gate_costs_nothing(gate, code, (n - 1) as nat);
    }
}

/// Where the host answers the first message of an execution with "logging
/// disabled", that message is the only one of the execution that costs a
/// call, however many follow.
pub proof fn disabled_logging_costs_one_call(code: u32, n: nat)
    requires
        says_disabled(code),
        n > 0,
    ensures
        (DebugGate { enabled: false, first_run: true }).boundary_calls(code, n) == 1,
{
    let fresh = DebugGate { enabled: false, first_run: true };
    shut_gate_costs_nothing(fresh.after(code), code, (n - 1) as nat);
}

} // verus!
