//! Status decoder: interprets a raw status-register snapshot as a typed
//! fault classification. Pure functions over the 16-bit bitfield.

use vstd::prelude::*;

verus! {

/// Write-protect violation: the operation addressed a protected region.
pub const STATUS_WRPERR: u16 = 0x0001;

/// Program sequence error: a store was issued outside a program sequence.
pub const STATUS_PGSERR: u16 = 0x0002;

/// Operation error: the last operation did not complete correctly.
pub const STATUS_OPERR: u16 = 0x0004;

/// Inconsistency error: the programmed data could not be written as given.
pub const STATUS_INCERR: u16 = 0x0008;

/// Strobe error: a write strobe was seen at an illegal point.
pub const STATUS_STRBERR: u16 = 0x0010;

/// Every status bit that reports a fault of an erase or program operation.
pub const FAULT_MASK: u16 = STATUS_WRPERR | STATUS_PGSERR | STATUS_OPERR | STATUS_INCERR
    | STATUS_STRBERR;

/// The typed classification of a fault bit.
#[derive(Clone, Copy, Debug, PartialEq, Eq, Structural)]
pub enum FaultKind {
    WriteProtect,
    ProgramSequence,
    Operation,
    Inconsistency,
    Strobe,
}

/// Whether any fault bit is set in a raw status snapshot.
pub open spec fn spec_has_fault(raw: u16) -> bool {
    raw & FAULT_MASK != 0
}

/// The decoder's verdict on a raw snapshot: the highest-priority fault bit
/// that is set, write protection first, or `None` for a clean status.
pub open spec fn spec_decode_status(raw: u16) -> Option<FaultKind> {
    if raw & STATUS_WRPERR != 0 {
        Some(FaultKind::WriteProtect)
    } else if raw & STATUS_PGSERR != 0 {
        Some(FaultKind::ProgramSequence)
    } else if raw & STATUS_OPERR != 0 {
        Some(FaultKind::Operation)
    } else if raw & STATUS_INCERR != 0 {
        Some(FaultKind::Inconsistency)
    } else if raw & STATUS_STRBERR != 0 {
        Some(FaultKind::Strobe)
    } else {
        None
    }
}

/// Reports whether a raw status snapshot carries any fault bit.
pub fn has_fault(raw: u16) -> (r: bool)
    ensures
        r == spec_has_fault(raw),
{
    raw & FAULT_MASK != 0
}

/// Decodes a raw status snapshot into its typed fault classification.
/// Yields a fault exactly when some bit of the fault mask is set.
pub fn decode_status(raw: u16) -> (r: Option<FaultKind>)
    ensures
        r == spec_decode_status(raw),
        r is Some <==> spec_has_fault(raw),
{
    proof {
        assert(((raw & (0x0001u16 | 0x0002 | 0x0004 | 0x0008 | 0x0010)) != 0) <==> (raw & 0x0001
            != 0 || raw & 0x0002 != 0 || raw & 0x0004 != 0 || raw & 0x0008 != 0 || raw & 0x0010
            != 0)) by (bit_vector);
    }
    if raw & STATUS_WRPERR != 0 {
        Some(FaultKind::WriteProtect)
    } else if raw & STATUS_PGSERR != 0 {
        Some(FaultKind::ProgramSequence)
    } else if raw & STATUS_OPERR != 0 {
        Some(FaultKind::Operation)
    } else if raw & STATUS_INCERR != 0 {
        Some(FaultKind::Inconsistency)
    } else if raw & STATUS_STRBERR != 0 {
        Some(FaultKind::Strobe)
    } else {
        None
    }
}

/// Arithmetic of fault acknowledgment: raising the write-protect bit always
/// yields a faulted status, clearing the fault mask acknowledges every fault
/// bit, and on a previously clean status the acknowledgment restores it.
pub proof fn lemma_fault_ack(s: u16)
    ensures
        (s | STATUS_WRPERR) & FAULT_MASK != 0,
        ((s | STATUS_WRPERR) & !FAULT_MASK) & FAULT_MASK == 0,
        s & FAULT_MASK == 0 ==> (s | STATUS_WRPERR) & !FAULT_MASK == s,
{
    assert((s | STATUS_WRPERR) & FAULT_MASK != 0) by (bit_vector);
    assert(((s | STATUS_WRPERR) & !FAULT_MASK) & FAULT_MASK == 0) by (bit_vector);
    assert(s & FAULT_MASK == 0 ==> (s | STATUS_WRPERR) & !FAULT_MASK == s) by (bit_vector);
}

} // verus!
