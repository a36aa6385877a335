//! Error taxonomy of the driver and the physical-address wrapper.

use vstd::prelude::*;

verus! {

/// Every way a public call of the driver can fail.
///
/// The first four variants are validation errors: they are detected before
/// any hardware-visible mutation and carry no side effects. The last three
/// are hardware faults; `EraseFault` and `WriteFault` carry the raw status
/// register snapshot captured when the fault was detected, kept as an opaque
/// diagnostic payload.
#[derive(Clone, Copy, Debug, PartialEq, Eq, Structural)]
pub enum Error {
    /// The sector index is not in the sector table.
    InvalidSector,
    /// The byte range does not lie inside the addressed region.
    OutOfBounds,
    /// The length is not a multiple of the program word size.
    MisalignedAccess,
    /// The length exceeds the per-operation maximum.
    LengthTooLarge,
    /// The key sequence did not clear the bank's lock bit.
    UnlockFailed,
    /// A fault bit was set after a sector erase; payload is the raw status.
    EraseFault(u16),
    /// A fault bit was set during word programming; payload is the raw status.
    WriteFault(u16),
}

/// A physical byte address inside the flash address space.
#[derive(Clone, Copy, Debug, PartialEq, Eq, Structural)]
pub struct Address(pub u32);

} // verus!
