//! Driver-wide laws, stated and proved over the same spec functions the
//! public contracts use.

use vstd::prelude::*;
use crate::bank::stored_bytes;
use crate::engine::Flash;
use crate::facade::FlashHandle;
use crate::map::lemma_sector_bounds;

verus! {

/// Round-trip law: after an erase of the handle's sector and a write of
/// `data` at a validated sector-relative `offset` — any aligned length up
/// to the per-operation maximum — a read of `data.len()` bytes at the same
/// offset returns exactly `data`, byte for byte.
///
/// `f1` is the device after the erase succeeded and `f2` the device after
/// the write succeeded, related exactly as `FlashHandle::write` ensures;
/// `out` is what `FlashHandle::read` ensures the read returns from `f2`.
pub proof fn lemma_round_trip(
    f1: Flash,
    f2: Flash,
    h: FlashHandle,
    offset: u32,
    data: Seq<u8>,
    out: Seq<u8>,
)
    requires
        f1.wf(),
        f1.map.spec_validate_access(h.sector as int, offset as int, data.len() as int) is Ok,
        f2.map == f1.map,
        f2.mem_view() == stored_bytes(
            f1.mem_view(),
            f1.map.sector_base(h.sector as int) + offset - f1.map.sector_base(0),
            data,
        ),
        out == f2.mem_view().subrange(
            f1.map.sector_base(h.sector as int) + offset - f1.map.sector_base(0),
            f1.map.sector_base(h.sector as int) + offset - f1.map.sector_base(0)
                + data.len() as int,
        ),
    ensures
        out == data,
{
    lemma_sector_bounds(f1.map, h.sector as int);
    assert(out =~= data);
}

/// Lock invariant: whenever the device is ready — the state every erase and
/// write call ensures on return, success or failure — both banks' lock bits
/// are engaged: no call ever leaves a bank unlocked.
pub proof fn lemma_ready_banks_locked(f: Flash)
    requires
        f.ready(),
    ensures
        f.bank0.locked,
        f.bank1.locked,
{
}

} // verus!
