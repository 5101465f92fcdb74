//! The conditions on which the core stops and reports.

use vstd::prelude::*;

verus! {

/// Why construction or a step did not succeed. None of these is retried or
/// skipped by the core: the host decides what to do next.
#[derive(Clone, Copy, Debug, PartialEq, Eq, Structural)]
pub enum CoreError {
    /// A boot overlay that is not exactly its fixed size, or a cartridge
    /// image shorter than the two ROM banks.
    InvalidImageSize,
    /// No instruction is assigned to the fetched byte in the table that the
    /// prefix selects.
    IllegalOpcode { byte: u8, prefixed: bool },
    /// A write to an address that no region of the bus backs yet.
    UnmappedWrite { address: u16 },
}

} // verus!
