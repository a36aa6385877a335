//! Flash facade: the public per-sector entry point. A handle is created
//! once per logical flash user, names one sector of the device, and
//! dispatches erase, write and read against it; writes and reads take
//! sector-relative offsets and are validated through the resolver first.

use vstd::prelude::*;
use crate::bank::{erased_range, stored_bytes};
use crate::engine::{erase_sector, read, same_config, Flash};
use crate::error::{Address, Error};
use crate::map::lemma_sector_bounds;
use crate::status::STATUS_WRPERR;

verus! {

/// The right to drive erase, program and read calls against one sector.
#[derive(Clone, Copy, Debug, PartialEq, Eq, Structural)]
pub struct FlashHandle {
    pub sector: usize,
}

impl FlashHandle {
    /// Creates a handle for one sector of the device; fails with
    /// `InvalidSector` exactly when the index is not in the sector table.
    /// Performs no hardware access by itself.
    pub fn construct(flash: &Flash, sector: usize) -> (r: Result<FlashHandle, Error>)
        requires
            flash.wf(),
        ensures
            r is Ok <==> (sector as int) < flash.map.sector_count(),
            r is Err ==> r == Err::<FlashHandle, Error>(Error::InvalidSector),
            r is Ok ==> r->Ok_0 == (FlashHandle { sector }),
    {
        if sector >= flash.map.bases.len() {
            Err(Error::InvalidSector)
        } else {
            Ok(FlashHandle { sector })
        }
    }

    /// Erases the handle's sector. On success its bytes read as erased and
    /// nothing else changed; on failure the flash contents are untouched.
    /// The sector's bank is locked again on every path out.
    pub fn erase(&self, flash: &mut Flash) -> (r: Result<(), Error>)
        requires
            old(flash).wf(),
            old(flash).ready(),
        ensures
            final(flash).wf(),
            final(flash).ready(),
            same_config(*old(flash), *final(flash)),
            self.sector as int >= old(flash).map.sector_count() ==> (r == Err::<(), Error>(
                Error::InvalidSector,
            ) && *final(flash) == *old(flash)),
            (self.sector as int) < old(flash).map.sector_count() ==> {
                let id = old(flash).map.bank_of(self.sector as int);
                &&& (r is Ok <==> old(flash).sector_erasable(self.sector as int))
                &&& (r is Ok ==> final(flash).mem_view() == erased_range(
                    old(flash).mem_view(),
                    old(flash).map.sector_base(self.sector as int) - old(flash).map.sector_base(0),
                    old(flash).map.sector_end(self.sector as int) - old(flash).map.sector_base(0),
                ))
                &&& (r is Err ==> final(flash).mem_view() == old(flash).mem_view())
                &&& (old(flash).bank(id).key_lockout ==> r == Err::<(), Error>(
                    Error::UnlockFailed,
                ))
                &&& (!old(flash).bank(id).key_lockout && old(flash).bank(id).write_protected ==> r
                    == Err::<(), Error>(
                    Error::EraseFault(old(flash).bank(id).status | STATUS_WRPERR),
                ))
            },
    {
        erase_sector(flash, self.sector)
    }

    /// Validates a sector-relative write through the resolver, then
    /// programs the bytes. On success the addressed range holds exactly
    /// `data` and nothing else changed; on any failure the flash contents
    /// are untouched and validation errors carry no side effects at all.
    /// The sector's bank is locked again on every hardware path out.
    pub fn write(&self, flash: &mut Flash, offset: u32, data: &[u8]) -> (r: Result<(), Error>)
        requires
            old(flash).wf(),
            old(flash).ready(),
        ensures
            final(flash).wf(),
            final(flash).ready(),
            same_config(*old(flash), *final(flash)),
            old(flash).map.spec_validate_access(
                self.sector as int,
                offset as int,
                data@.len() as int,
            ) matches Err(e) ==> (r == Err::<(), Error>(e) && *final(flash) == *old(flash)),
            old(flash).map.spec_validate_access(
                self.sector as int,
                offset as int,
                data@.len() as int,
            ) matches Ok(a) ==> {
                let b = old(flash).bank(old(flash).write_bank_id(a, data@.len() as int));
                &&& (r is Ok <==> (!b.key_lockout && (!b.write_protected || data@.len() == 0)))
                &&& (r is Ok ==> final(flash).mem_view() == stored_bytes(
                    old(flash).mem_view(),
                    a - old(flash).map.sector_base(0),
                    data@,
                ))
                &&& (r is Err ==> final(flash).mem_view() == old(flash).mem_view())
                &&& (b.key_lockout ==> r == Err::<(), Error>(Error::UnlockFailed))
                &&& (!b.key_lockout && b.write_protected && data@.len() > 0 ==> r == Err::<
                    (),
                    Error,
                >(Error::WriteFault(b.status | STATUS_WRPERR)))
            },
    {
        let address = match flash.map.validate_access(self.sector, offset, data.len()) {
            Ok(Address(a)) => a,
            Err(e) => {
                return Err(e);
            },
        };
        proof {
            lemma_sector_bounds(flash.map, self.sector as int);
        }
        crate::engine::write(flash, address, data.len(), data)
    }

    /// Validates a sector-relative read against the sector's bounds, then
    /// loads the bytes directly; reads need no unlock and never change any
    /// state. Fails with `InvalidSector` or `OutOfBounds` exactly as the
    /// resolver rules say.
    pub fn read(&self, flash: &Flash, offset: u32, size: usize) -> (r: Result<Vec<u8>, Error>)
        requires
            flash.wf(),
        ensures
            self.sector as int >= flash.map.sector_count() ==> r == Err::<Vec<u8>, Error>(
                Error::InvalidSector,
            ),
            (self.sector as int) < flash.map.sector_count() && offset as int + size as int
                > flash.map.sector_size(self.sector as int) ==> r == Err::<Vec<u8>, Error>(
                Error::OutOfBounds,
            ),
            (self.sector as int) < flash.map.sector_count() && offset as int + size as int
                <= flash.map.sector_size(self.sector as int) ==> (r is Ok && r->Ok_0@
                == flash.mem_view().subrange(
                flash.map.sector_base(self.sector as int) + offset - flash.map.sector_base(0),
                flash.map.sector_base(self.sector as int) + offset - flash.map.sector_base(0)
                    + size,
            )),
    {
        let info = match flash.map.resolve(self.sector) {
            Ok(info) => info,
            Err(e) => {
                return Err(e);
            },
        };
        if size > info.size as usize || offset > info.size as u32 - size as u32 {
            return Err(Error::OutOfBounds);
        }
        proof {
            lemma_sector_bounds(flash.map, self.sector as int);
        }
        match read(flash, info.base + offset, size) {
            Ok(v) => Ok(v),
            Err(e) => Err(e),
        }
    }
}

} // verus!
