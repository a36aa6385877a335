//! Erase and program engines over the whole flash device: the two banks,
//! the sector map tying addresses to banks, and the public erase, write and
//! read entry points of the driver.

use vstd::prelude::*;
use crate::bank::{
    erased_range, lock, stored_bytes, unlock, word_of_bytes, lemma_word_bytes_roundtrip,
    FlashBank, ERASED_BYTE,
};
use crate::error::Error;
use crate::map::{lemma_bases_increasing, lemma_sector_at, lemma_sector_bounds, BankId, SectorMap};
use crate::status::{has_fault, lemma_fault_ack, FAULT_MASK, STATUS_WRPERR};

verus! {

/// The whole flash device: the part's sector map and its two independently
/// lockable banks, each owning the flash bytes of its partition.
pub struct Flash {
    pub map: SectorMap,
    pub bank0: FlashBank,
    pub bank1: FlashBank,
}

impl Flash {
    /// The banks partition the mapped address space at the split address.
    pub open spec fn wf(self) -> bool {
        &&& self.map.wf()
        &&& self.bank0.wf()
        &&& self.bank1.wf()
        &&& self.bank0.base == self.map.sector_base(0)
        &&& self.bank0.limit() == self.map.split_addr()
        &&& self.bank1.base == self.map.split_addr()
        &&& self.bank1.limit() == self.map.end + 1
    }

    /// Both banks quiescent and locked: the device between public calls.
    pub open spec fn ready(self) -> bool {
        &&& self.bank0.ready()
        &&& self.bank1.ready()
    }

    /// The bank with the given identity.
    pub open spec fn bank(self, id: BankId) -> FlashBank {
        if id is Bank0 {
            self.bank0
        } else {
            self.bank1
        }
    }

    /// The flash contents of the whole mapped address space, bank 0's bytes
    /// followed by bank 1's; byte `j` sits at address `sector_base(0) + j`.
    pub open spec fn mem_view(self) -> Seq<u8> {
        self.bank0.mem@ + self.bank1.mem@
    }

    /// Whether an erase or program of sector `i` would succeed: its bank's
    /// key protocol is not locked out and its bank is not write-protected.
    pub open spec fn sector_erasable(self, i: int) -> bool {
        &&& !self.bank(self.map.bank_of(i)).key_lockout
        &&& !self.bank(self.map.bank_of(i)).write_protected
    }

    /// A fresh device over a sector map: both banks locked, fault-free,
    /// unprotected, and fully erased.
    pub fn new(map: SectorMap) -> (r: Flash)
        requires
            map.wf(),
        ensures
            r.wf(),
            r.ready(),
            r.map == map,
            !r.bank0.key_lockout && !r.bank1.key_lockout,
            !r.bank0.write_protected && !r.bank1.write_protected,
            r.bank0.status == 0 && r.bank1.status == 0,
            forall|j: int| 0 <= j < r.mem_view().len() ==> r.mem_view()[j] == ERASED_BYTE,
    {
        proof {
            lemma_bases_increasing(map, 0, map.bases.len() - 1);
            if map.bank_split < map.bases.len() {
                lemma_bases_increasing(map, 0, map.bank_split as int);
                lemma_bases_increasing(map, map.bank_split as int, map.bases.len() - 1);
            }
        }
        let base0 = map.bases[0];
        let split_base: u32 = if map.bank_split < map.bases.len() {
            map.bases[map.bank_split]
        } else {
            map.end + 1
        };
        let bank0 = FlashBank::new(base0, (split_base - base0) as usize);
        let bank1 = FlashBank::new(split_base, (map.end + 1 - split_base) as usize);
        let f = Flash { map, bank0, bank1 };
        proof {
            let n0 = f.bank0.mem@.len() as int;
            assert forall|j: int| 0 <= j < f.mem_view().len() implies f.mem_view()[j]
                == ERASED_BYTE by {
                if j < n0 {
                    assert(f.mem_view()[j] == f.bank0.mem@[j]);
                } else {
                    assert(f.mem_view()[j] == f.bank1.mem@[j - n0]);
                }
            }
        }
        f
    }
}

/// The device's configuration: everything an erase, program or read cannot
/// change — the map, the banks' geometry, their protection and key-lockout
/// state, and their non-fault status bits.
pub open spec fn same_config(a: Flash, b: Flash) -> bool {
    &&& b.map == a.map
    &&& b.bank0.base == a.bank0.base
    &&& b.bank1.base == a.bank1.base
    &&& b.bank0.mem.len() == a.bank0.mem.len()
    &&& b.bank1.mem.len() == a.bank1.mem.len()
    &&& b.bank0.write_protected == a.bank0.write_protected
    &&& b.bank1.write_protected == a.bank1.write_protected
    &&& b.bank0.key_lockout == a.bank0.key_lockout
    &&& b.bank1.key_lockout == a.bank1.key_lockout
    &&& b.bank0.status == a.bank0.status
    &&& b.bank1.status == a.bank1.status
}

/// Drives one sector erase on a bank to completion: unlock, wait ready,
/// configure erase mode and sector number, trigger, busy-wait, clear the
/// trigger, decode the status, acknowledge any fault, and re-lock. The bank
/// is locked again on every path out.
fn erase_sector_on(bank: &mut FlashBank, snb: u8, lo: u32, hi: u32) -> (r: Result<(), Error>)
    requires
        old(bank).wf(),
        old(bank).ready(),
        old(bank).base <= lo <= hi,
        hi as int <= old(bank).limit(),
    ensures
        final(bank).wf(),
        final(bank).ready(),
        final(bank).base == old(bank).base,
        final(bank).mem.len() == old(bank).mem.len(),
        final(bank).write_protected == old(bank).write_protected,
        final(bank).key_lockout == old(bank).key_lockout,
        final(bank).status == old(bank).status,
        r is Ok <==> (!old(bank).key_lockout && !old(bank).write_protected),
        r is Ok ==> final(bank).mem@ == erased_range(
            old(bank).mem@,
            lo - old(bank).base,
            hi - old(bank).base,
        ),
        r is Err ==> final(bank).mem@ == old(bank).mem@,
        old(bank).key_lockout ==> r == Err::<(), Error>(Error::UnlockFailed),
        !old(bank).key_lockout && old(bank).write_protected ==> r == Err::<(), Error>(
            Error::EraseFault(old(bank).status | STATUS_WRPERR),
        ),
{
    match unlock(bank) {
        Ok(()) => {},
        Err(e) => {
            return Err(e);
        },
    }
    bank.wait_ready();
    bank.set_erase_config(snb);
    bank.start_erase(lo, hi);
    bank.wait_ready();
    bank.clear_start();
    let raw = bank.read_status();
    proof {
        lemma_fault_ack(old(bank).status);
    }
    if has_fault(raw) {
        bank.clear_status(FAULT_MASK);
        lock(bank);
        return Err(Error::EraseFault(raw));
    }
    bank.clear_erase_config();
    lock(bank);
    Ok(())
}

/// Erases one sector of the device, resolving its bank and address range
/// through the sector map. On success the sector's bytes read as erased and
/// nothing else changed; on any failure the flash contents are untouched.
/// The operated bank is locked again on every path out.
pub fn erase_sector(flash: &mut Flash, sector: usize) -> (r: Result<(), Error>)
    requires
        old(flash).wf(),
        old(flash).ready(),
    ensures
        final(flash).wf(),
        final(flash).ready(),
        same_config(*old(flash), *final(flash)),
        sector as int >= old(flash).map.sector_count() ==> (r == Err::<(), Error>(
            Error::InvalidSector,
        ) && *final(flash) == *old(flash)),
        (sector as int) < old(flash).map.sector_count() ==> {
            let id = old(flash).map.bank_of(sector as int);
            &&& (r is Ok <==> old(flash).sector_erasable(sector as int))
            &&& (r is Ok ==> final(flash).mem_view() == erased_range(
                old(flash).mem_view(),
                old(flash).map.sector_base(sector as int) - old(flash).map.sector_base(0),
                old(flash).map.sector_end(sector as int) - old(flash).map.sector_base(0),
            ))
            &&& (r is Err ==> final(flash).mem_view() == old(flash).mem_view())
            &&& (old(flash).bank(id).key_lockout ==> r == Err::<(), Error>(Error::UnlockFailed))
            &&& (!old(flash).bank(id).key_lockout && old(flash).bank(id).write_protected ==> r
                == Err::<(), Error>(Error::EraseFault(old(flash).bank(id).status | STATUS_WRPERR)))
        },
{
    let info = match flash.map.resolve(sector) {
        Ok(info) => info,
        Err(e) => {
            return Err(e);
        },
    };
    proof {
        lemma_sector_bounds(flash.map, sector as int);
    }
    let lo = info.base;
    let hi = info.base + info.size;
    match info.bank {
        BankId::Bank0 => {
            let r = erase_sector_on(&mut flash.bank0, sector as u8, lo, hi);
            proof {
                if r is Ok {
                    assert(flash.mem_view() =~= erased_range(
                        old(flash).mem_view(),
                        old(flash).map.sector_base(sector as int) - old(flash).map.sector_base(0),
                        old(flash).map.sector_end(sector as int) - old(flash).map.sector_base(0),
                    ));
                } else {
                    assert(flash.mem_view() =~= old(flash).mem_view());
                }
            }
            r
        },
        BankId::Bank1 => {
            let snb = (sector - flash.map.bank_split) as u8;
            let r = erase_sector_on(&mut flash.bank1, snb, lo, hi);
            proof {
                if r is Ok {
                    assert(flash.mem_view() =~= erased_range(
                        old(flash).mem_view(),
                        old(flash).map.sector_base(sector as int) - old(flash).map.sector_base(0),
                        old(flash).map.sector_end(sector as int) - old(flash).map.sector_base(0),
                    ));
                } else {
                    assert(flash.mem_view() =~= old(flash).mem_view());
                }
            }
            r
        },
    }
}

/// Drives a multi-word program operation on a bank to completion: unlock,
/// wait ready, then for each word enable programming, store the word
/// directly to the flash array, busy-wait, and decode the status —
/// returning at the first fault, with the words already written left in
/// place. The bank is locked again on every path out.
fn program_on(bank: &mut FlashBank, addr: u32, data: &[u8]) -> (r: Result<(), Error>)
    requires
        old(bank).wf(),
        old(bank).ready(),
        old(bank).base <= addr,
        addr as int + data@.len() <= old(bank).limit(),
        data@.len() % 4 == 0,
    ensures
        final(bank).wf(),
        final(bank).ready(),
        final(bank).base == old(bank).base,
        final(bank).mem.len() == old(bank).mem.len(),
        final(bank).write_protected == old(bank).write_protected,
        final(bank).key_lockout == old(bank).key_lockout,
        final(bank).status == old(bank).status,
        r is Ok <==> (!old(bank).key_lockout && (!old(bank).write_protected || data@.len() == 0)),
        r is Ok ==> final(bank).mem@ == stored_bytes(old(bank).mem@, addr - old(bank).base, data@),
        r is Err ==> final(bank).mem@ == old(bank).mem@,
        old(bank).key_lockout ==> r == Err::<(), Error>(Error::UnlockFailed),
        !old(bank).key_lockout && old(bank).write_protected && data@.len() > 0 ==> r == Err::<
            (),
            Error,
        >(Error::WriteFault(old(bank).status | STATUS_WRPERR)),
{
    match unlock(bank) {
        Ok(()) => {},
        Err(e) => {
            return Err(e);
        },
    }
    bank.wait_ready();
    let n = data.len() / 4;
    let mut i: usize = 0;
    proof {
        assert(stored_bytes(old(bank).mem@, addr - old(bank).base, data@.subrange(0, 0)) =~= old(
            bank,
        ).mem@);
    }
    while i < n
        invariant
            bank.wf(),
            !bank.busy,
            bank.key_stage == 0,
            !bank.locked,
            bank.base == old(bank).base,
            bank.mem.len() == old(bank).mem.len(),
            bank.write_protected == old(bank).write_protected,
            bank.key_lockout == old(bank).key_lockout,
            bank.status == old(bank).status,
            old(bank).status & FAULT_MASK == 0,
            !old(bank).key_lockout,
            i <= n,
            n == data@.len() / 4,
            data@.len() % 4 == 0,
            old(bank).base <= addr,
            addr as int + data@.len() <= old(bank).limit(),
            i > 0 ==> !bank.write_protected,
            bank.mem@ == stored_bytes(
                old(bank).mem@,
                addr - old(bank).base,
                data@.subrange(0, 4 * i as int),
            ),
        decreases n - i,
    {
        bank.set_program_enable();
        let off = i * 4;
        let b0 = data[off];
        let b1 = data[off + 1];
        let b2 = data[off + 2];
        let b3 = data[off + 3];
        let word = (b0 as u32) | ((b1 as u32) << 8) | ((b2 as u32) << 16) | ((b3 as u32) << 24);
        bank.program_word(addr + off as u32, word);
        bank.wait_ready();
        let raw = bank.read_status();
        proof {
            lemma_fault_ack(old(bank).status);
        }
        if has_fault(raw) {
            proof {
                assert(bank.mem@ =~= old(bank).mem@);
            }
            bank.clear_status(FAULT_MASK);
            bank.clear_program_enable();
            lock(bank);
            return Err(Error::WriteFault(raw));
        }
        proof {
            lemma_word_bytes_roundtrip(b0, b1, b2, b3);
            assert(word == word_of_bytes(b0, b1, b2, b3));
            assert(bank.mem@ =~= stored_bytes(
                old(bank).mem@,
                addr - old(bank).base,
                data@.subrange(0, 4 * (i + 1) as int),
            ));
        }
        i = i + 1;
    }
    bank.clear_program_enable();
    lock(bank);
    proof {
        assert(data@.subrange(0, 4 * n as int) =~= data@);
    }
    Ok(())
}

impl Flash {
    /// The bank a single-bank program of `[address, address + length)`
    /// lands in.
    pub open spec fn write_bank_id(self, address: int, length: int) -> BankId {
        if address + length <= self.map.split_addr() {
            BankId::Bank0
        } else {
            BankId::Bank1
        }
    }
}

/// The validation verdict `write` reaches before touching any hardware:
/// the range must lie inside the flash address space, the length must be
/// word-aligned and at most the per-operation maximum and must match the
/// buffer, and the range must not straddle the two banks.
pub open spec fn write_precheck(flash: Flash, address: u32, length: usize, data: Seq<u8>) -> Option<
    Error,
> {
    if !(flash.map.sector_base(0) <= address && address as int + length as int <= flash.map.end
        as int + 1) {
        Some(Error::OutOfBounds)
    } else if length as int % crate::map::WORD_SIZE as int != 0 {
        Some(Error::MisalignedAccess)
    } else if length > crate::map::MAX_PROGRAM_BYTES {
        Some(Error::LengthTooLarge)
    } else if length != data.len() {
        Some(Error::OutOfBounds)
    } else if (address as int) < flash.map.split_addr() && address as int + length as int
        > flash.map.split_addr() {
        Some(Error::OutOfBounds)
    } else {
        None
    }
}

/// Programs `data` at an absolute address: validates the range and length,
/// then drives the word-at-a-time program sequence on the owning bank. On
/// success the range holds exactly `data` and nothing else changed; on any
/// failure before the first word, the flash contents are untouched. The
/// operated bank is locked again on every path out.
pub fn write(flash: &mut Flash, address: u32, length: usize, data: &[u8]) -> (r: Result<(), Error>)
    requires
        old(flash).wf(),
        old(flash).ready(),
    ensures
        final(flash).wf(),
        final(flash).ready(),
        same_config(*old(flash), *final(flash)),
        write_precheck(*old(flash), address, length, data@) matches Some(e) ==> (r == Err::<
            (),
            Error,
        >(e) && *final(flash) == *old(flash)),
        write_precheck(*old(flash), address, length, data@) is None ==> {
            let b = old(flash).bank(old(flash).write_bank_id(address as int, length as int));
            &&& (r is Ok <==> (!b.key_lockout && (!b.write_protected || length == 0)))
            &&& (r is Ok ==> final(flash).mem_view() == stored_bytes(
                old(flash).mem_view(),
                address - old(flash).map.sector_base(0),
                data@,
            ))
            &&& (r is Err ==> final(flash).mem_view() == old(flash).mem_view())
            &&& (b.key_lockout ==> r == Err::<(), Error>(Error::UnlockFailed))
            &&& (!b.key_lockout && b.write_protected && length > 0 ==> r == Err::<(), Error>(
                Error::WriteFault(b.status | STATUS_WRPERR),
            ))
        },
{
    match crate::map::check_address_valid(&flash.map, address, length) {
        Ok(()) => {},
        Err(e) => {
            return Err(e);
        },
    }
    match crate::map::check_length_valid(length) {
        Ok(()) => {},
        Err(e) => {
            return Err(e);
        },
    }
    match crate::map::check_length_correct(length, data) {
        Ok(()) => {},
        Err(e) => {
            return Err(e);
        },
    }
    let split = flash.bank1.base;
    if address as u64 + length as u64 <= split as u64 {
        let r = program_on(&mut flash.bank0, address, data);
        proof {
            if r is Ok {
                assert(flash.mem_view() =~= stored_bytes(
                    old(flash).mem_view(),
                    address - old(flash).map.sector_base(0),
                    data@,
                ));
            } else {
                assert(flash.mem_view() =~= old(flash).mem_view());
            }
        }
        r
    } else if address >= split {
        let r = program_on(&mut flash.bank1, address, data);
        proof {
            if r is Ok {
                assert(flash.mem_view() =~= stored_bytes(
                    old(flash).mem_view(),
                    address - old(flash).map.sector_base(0),
                    data@,
                ));
            } else {
                assert(flash.mem_view() =~= old(flash).mem_view());
            }
        }
        r
    } else {
        Err(Error::OutOfBounds)
    }
}

impl Flash {
    /// The first sector at or above `i`, in ascending index order, that the
    /// range erase would touch but cannot erase; the sector count when every
    /// touched sector from `i` on is erasable.
    pub open spec fn erase_stop_from(self, address: int, length: int, i: int) -> int
        decreases self.map.sector_count() - i,
    {
        if i < 0 || i >= self.map.sector_count() {
            self.map.sector_count()
        } else if self.map.touched(address, length, i) && !self.sector_erasable(i) {
            i
        } else {
            self.erase_stop_from(address, length, i + 1)
        }
    }

    /// Where the range erase stops: the first touched sector it cannot
    /// erase, or the sector count when it can erase them all.
    pub open spec fn erase_stop(self, address: int, length: int) -> int {
        self.erase_stop_from(address, length, 0)
    }
}

/// How a range erase that has processed sectors `[0, s)` relates the
/// current flash contents to the contents before the call: every byte of a
/// touched sector below `s` reads as erased, every other byte is unchanged.
pub open spec fn erased_upto(
    m: SectorMap,
    old_view: Seq<u8>,
    cur_view: Seq<u8>,
    address: int,
    length: int,
    s: int,
) -> bool {
    &&& cur_view.len() == old_view.len()
    &&& forall|j: int|
        0 <= j < old_view.len() ==> #[trigger] cur_view[j] == ({
            let sec = m.sector_at(m.sector_base(0) + j);
            if m.touched(address, length, sec) && 0 <= sec < s {
                ERASED_BYTE
            } else {
                old_view[j]
            }
        })
}

proof fn lemma_erased_upto_skip(
    m: SectorMap,
    old_view: Seq<u8>,
    cur_view: Seq<u8>,
    address: int,
    length: int,
    s: int,
)
    requires
        m.wf(),
        0 <= s < m.sector_count(),
        old_view.len() == m.end + 1 - m.sector_base(0),
        erased_upto(m, old_view, cur_view, address, length, s),
        !m.touched(address, length, s),
    ensures
        erased_upto(m, old_view, cur_view, address, length, s + 1),
{
    assert forall|j: int| 0 <= j < old_view.len() implies #[trigger] cur_view[j] == ({
        let sec = m.sector_at(m.sector_base(0) + j);
        if m.touched(address, length, sec) && 0 <= sec < s + 1 {
            ERASED_BYTE
        } else {
            old_view[j]
        }
    }) by {
        lemma_sector_at(m, m.sector_base(0) + j);
    }
}

proof fn lemma_erased_upto_erase(
    m: SectorMap,
    old_view: Seq<u8>,
    pre_view: Seq<u8>,
    post_view: Seq<u8>,
    address: int,
    length: int,
    s: int,
)
    requires
        m.wf(),
        0 <= s < m.sector_count(),
        old_view.len() == m.end + 1 - m.sector_base(0),
        erased_upto(m, old_view, pre_view, address, length, s),
        m.touched(address, length, s),
        post_view == erased_range(
            pre_view,
            m.sector_base(s) - m.sector_base(0),
            m.sector_end(s) - m.sector_base(0),
        ),
    ensures
        erased_upto(m, old_view, post_view, address, length, s + 1),
{
    lemma_sector_bounds(m, s);
    assert forall|j: int| 0 <= j < old_view.len() implies #[trigger] post_view[j] == ({
        let sec = m.sector_at(m.sector_base(0) + j);
        if m.touched(address, length, sec) && 0 <= sec < s + 1 {
            ERASED_BYTE
        } else {
            old_view[j]
        }
    }) by {
        let a = m.sector_base(0) + j;
        let gl = m.sector_base(s) - m.sector_base(0);
        let gh = m.sector_end(s) - m.sector_base(0);
        lemma_sector_at(m, a);
        let sec = m.sector_at(a);
        assert(post_view[j] == (if gl <= j < gh {
            ERASED_BYTE
        } else {
            pre_view[j]
        }));
        if gl <= j < gh {
            assert(m.addr_in_sector(a, s));
            assert(sec == s);
        } else if sec == s {
            assert(m.addr_in_sector(a, s));
        }
    }
}

proof fn lemma_erase_stop_from(flash: Flash, address: int, length: int, i: int, s: int)
    requires
        0 <= i <= s <= flash.map.sector_count(),
        forall|k: int|
            i <= k < s ==> !(#[trigger] flash.map.touched(address, length, k)
                && !flash.sector_erasable(k)),
        s == flash.map.sector_count() || (flash.map.touched(address, length, s)
            && !flash.sector_erasable(s)),
    ensures
        flash.erase_stop_from(address, length, i) == s,
    decreases s - i,
{
    if i < s {
        lemma_erase_stop_from(flash, address, length, i + 1, s);
    }
}

/// Erases every sector whose address range intersects `[address, address +
/// length)` — by the exact intersection test, so a single byte of overlap
/// at a boundary touches that sector too — in ascending index order,
/// stopping at the first sector that faults. Sectors erased before a fault
/// stay erased; sectors the range does not touch are never changed.
#[verifier::rlimit(100)]
pub fn erase(flash: &mut Flash, address: u32, length: usize) -> (r: Result<(), Error>)
    requires
        old(flash).wf(),
        old(flash).ready(),
    ensures
        final(flash).wf(),
        final(flash).ready(),
        same_config(*old(flash), *final(flash)),
        !(old(flash).map.sector_base(0) <= address && address as int + length as int <= old(
            flash,
        ).map.end as int + 1) ==> (r == Err::<(), Error>(Error::OutOfBounds) && *final(flash)
            == *old(flash)),
        (old(flash).map.sector_base(0) <= address && address as int + length as int <= old(
            flash,
        ).map.end as int + 1) ==> {
            let stop = old(flash).erase_stop(address as int, length as int);
            &&& (r is Ok <==> stop == old(flash).map.sector_count())
            &&& erased_upto(
                old(flash).map,
                old(flash).mem_view(),
                final(flash).mem_view(),
                address as int,
                length as int,
                stop,
            )
            &&& (stop < old(flash).map.sector_count() ==> (if old(flash).bank(
                old(flash).map.bank_of(stop),
            ).key_lockout {
                r == Err::<(), Error>(Error::UnlockFailed)
            } else {
                r == Err::<(), Error>(
                    Error::EraseFault(
                        old(flash).bank(old(flash).map.bank_of(stop)).status | STATUS_WRPERR,
                    ),
                )
            }))
        },
{
    match crate::map::check_address_valid(&flash.map, address, length) {
        Ok(()) => {},
        Err(e) => {
            return Err(e);
        },
    }
    let count = flash.map.bases.len();
    let mut s: usize = 0;
    while s < count
        invariant
            flash.wf(),
            flash.ready(),
            same_config(*old(flash), *flash),
            count == flash.map.sector_count(),
            s <= count,
            old(flash).map.sector_base(0) <= address,
            address as int + length as int <= old(flash).map.end as int + 1,
            forall|k: int|
                0 <= k < s ==> !(#[trigger] old(flash).map.touched(address as int, length as int, k)
                    && !old(flash).sector_erasable(k)),
            erased_upto(
                old(flash).map,
                old(flash).mem_view(),
                flash.mem_view(),
                address as int,
                length as int,
                s as int,
            ),
        decreases count - s,
    {
        let sec_base = flash.map.bases[s];
        let sec_end: u64 = if s + 1 < count {
            flash.map.bases[s + 1] as u64
        } else {
            flash.map.end as u64 + 1
        };
        let is_touched = length > 0 && (address as u64) < sec_end && (sec_base as u64) < address
            as u64 + length as u64;
        if is_touched {
            let ghost pre = *flash;
            match erase_sector(flash, s) {
                Ok(()) => {
                    proof {
                        lemma_erased_upto_erase(
                            old(flash).map,
                            old(flash).mem_view(),
                            pre.mem_view(),
                            flash.mem_view(),
                            address as int,
                            length as int,
                            s as int,
                        );
                    }
                },
                Err(e) => {
                    proof {
                        lemma_erase_stop_from(
                            *old(flash),
                            address as int,
                            length as int,
                            0,
                            s as int,
                        );
                    }
                    return Err(e);
                },
            }
        } else {
            proof {
                lemma_erased_upto_skip(
                    old(flash).map,
                    old(flash).mem_view(),
                    flash.mem_view(),
                    address as int,
                    length as int,
                    s as int,
                );
            }
        }
        s = s + 1;
    }
    proof {
        lemma_erase_stop_from(*old(flash), address as int, length as int, 0, count as int);
    }
    Ok(())
}

/// One byte of the device, read from whichever bank's partition holds the
/// address. Reads bypass the lock protocol entirely.
fn read_byte_at(flash: &Flash, addr: u32) -> (r: u8)
    requires
        flash.wf(),
        flash.map.sector_base(0) <= addr,
        addr - flash.map.sector_base(0) < flash.mem_view().len(),
    ensures
        r == flash.mem_view()[addr - flash.map.sector_base(0)],
{
    if addr < flash.bank1.base {
        flash.bank0.read_byte(addr)
    } else {
        flash.bank1.read_byte(addr)
    }
}

/// Reads `length` bytes starting at an absolute address: a direct memory
/// load needing no unlock. Fails with `OutOfBounds` — reading nothing —
/// exactly when the range does not lie inside the flash address space.
pub fn read(flash: &Flash, address: u32, length: usize) -> (r: Result<Vec<u8>, Error>)
    requires
        flash.wf(),
    ensures
        r is Ok <==> (flash.map.sector_base(0) <= address && address as int + length as int
            <= flash.map.end as int + 1),
        r is Err ==> r == Err::<Vec<u8>, Error>(Error::OutOfBounds),
        r is Ok ==> r->Ok_0@ == flash.mem_view().subrange(
            address - flash.map.sector_base(0),
            address - flash.map.sector_base(0) + length,
        ),
{
    match crate::map::check_address_valid(&flash.map, address, length) {
        Ok(()) => {},
        Err(e) => {
            return Err(e);
        },
    }
    let mut out: Vec<u8> = Vec::new();
    let mut k: usize = 0;
    while k < length
        invariant
            flash.wf(),
            flash.map.sector_base(0) <= address,
            address as int + length as int <= flash.map.end as int + 1,
            k <= length,
            out@.len() == k,
            forall|j: int|
                0 <= j < k ==> out@[j] == flash.mem_view()[address - flash.map.sector_base(0) + j],
        decreases length - k,
    {
        let b = read_byte_at(flash, address + k as u32);
        out.push(b);
        k = k + 1;
    }
    proof {
        assert(out@ =~= flash.mem_view().subrange(
            address - flash.map.sector_base(0),
            address - flash.map.sector_base(0) + length,
        ));
    }
    Ok(out)
}

} // verus!
