//! The crate-wide error type for recoverable failures.

use vstd::prelude::*;

verus! {

/// Distinct failure conditions reported by the boot and receive paths.
#[derive(Clone, Copy, PartialEq, Eq, Structural, Debug)]
pub enum Error {
    CannotFindRsdp,
    RsdpCheckSumNotZero,
    RsdtCheckSumNotZero,
    /// Either not implemented or failing to parse a packet from a network
    /// buffer.
    CouldNotParsePacket,
}

} // verus!
