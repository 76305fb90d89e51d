//! The boundary between a contract, which runs as a guest in a machine with
//! 32-bit addresses, and the host that runs it.
//!
//! Nothing here calls the host. A call is made in three steps: [`marshal`]
//! makes its arguments from what the contract holds, the caller of this
//! library hands them to the host, and [`ext`] says what came back: the
//! output narrowed to what the host reported ([`buffer`]) and the status
//! decoded ([`status`]). Addresses cross the boundary as handles that cannot
//! be forged ([`ptr`]). [`debug`] spares a contract the cost of messages
//! that the host throws away, and [`storage`] states what a host answers to
//! reads and writes, with a store in memory that answers so.
//!
//! [`derive`] writes the code of the storage derives, and [`contracts`]
//! holds two small contracts.

pub mod buffer;
pub mod contracts;
pub mod debug;
pub mod derive;
pub mod ext;
pub mod marshal;
pub mod ptr;
pub mod status;
pub mod storage;
