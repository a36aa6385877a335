//! Sector map and bank/sector resolver: a fixed table mapping each sector
//! index to a base address and size, pure lookups over it, and the pure
//! validation of caller-supplied access ranges.

use vstd::prelude::*;
use crate::error::{Address, Error};

verus! {

/// Bytes programmed per hardware word.
pub const WORD_SIZE: usize = 4;

/// Hardware per-operation maximum for one program call, in bytes.
pub const MAX_PROGRAM_BYTES: usize = 2048;

/// Identity of an independently lockable hardware bank.
#[derive(Clone, Copy, Debug, PartialEq, Eq, Structural)]
pub enum BankId {
    Bank0,
    Bank1,
}

/// What `resolve` reports for one sector: the bank owning it, its base
/// address and its size in bytes.
#[derive(Clone, Copy, Debug, PartialEq, Eq, Structural)]
pub struct SectorInfo {
    pub bank: BankId,
    pub base: u32,
    pub size: u32,
}

/// The static sector table of one flash part.
///
/// `bases` holds each sector's base address in ascending order; a sector
/// extends to the next entry's base, the last one to `end` (the last valid
/// byte address, inclusive). Sectors below `bank_split` belong to bank 0,
/// the rest to bank 1.
pub struct SectorMap {
    pub bases: Vec<u32>,
    pub end: u32,
    pub bank_split: usize,
}

impl SectorMap {
    /// The table is non-empty, strictly ascending, and lies below `end`;
    /// `end + 1` still fits in an address word.
    pub open spec fn wf(self) -> bool {
        &&& self.bases.len() >= 1
        &&& self.bases.len() <= 256
        &&& forall|i: int|
            0 <= i < self.bases.len() - 1 ==> (#[trigger] self.bases[i]) < self.bases[i + 1]
        &&& self.bases[self.bases.len() - 1] <= self.end
        &&& self.end < u32::MAX
        &&& self.bank_split <= self.bases.len()
    }

    pub open spec fn sector_count(self) -> int {
        self.bases.len() as int
    }

    pub open spec fn sector_base(self, i: int) -> u32 {
        self.bases[i]
    }

    /// One past the last address of sector `i`.
    pub open spec fn sector_end(self, i: int) -> int {
        if i + 1 < self.bases.len() {
            self.bases[i + 1] as int
        } else {
            self.end as int + 1
        }
    }

    pub open spec fn sector_size(self, i: int) -> int {
        self.sector_end(i) - self.sector_base(i)
    }

    pub open spec fn bank_of(self, i: int) -> BankId {
        if i < self.bank_split {
            BankId::Bank0
        } else {
            BankId::Bank1
        }
    }

    /// Whether address `a` lies inside sector `i`.
    pub open spec fn addr_in_sector(self, a: int, i: int) -> bool {
        self.sector_base(i) <= a < self.sector_end(i)
    }

    /// Whether the byte range `[address, address + length)` intersects
    /// sector `i`'s address range. An empty range touches nothing.
    pub open spec fn touched(self, address: int, length: int, i: int) -> bool {
        &&& length > 0
        &&& address < self.sector_end(i)
        &&& self.sector_base(i) < address + length
    }

    /// The address where bank 1's partition starts; bank 0 owns addresses
    /// below it. A map whose sectors all sit in bank 0 puts it one past the
    /// address space.
    pub open spec fn split_addr(self) -> int {
        if self.bank_split < self.bases.len() {
            self.bases[self.bank_split as int] as int
        } else {
            self.end as int + 1
        }
    }

    /// The sector holding address `a`, scanning the table upward from `i`.
    pub open spec fn sector_at_from(self, a: int, i: int) -> int
        decreases self.bases.len() - i,
    {
        if i >= self.sector_count() - 1 {
            self.sector_count() - 1
        } else if a < self.bases[i + 1] {
            i
        } else {
            self.sector_at_from(a, i + 1)
        }
    }

    /// The index of the sector holding address `a` (for `a` inside the
    /// flash address space).
    pub open spec fn sector_at(self, a: int) -> int {
        self.sector_at_from(a, 0)
    }

    /// Builds a map after checking the table invariant; `Ok` exactly when
    /// the inputs form a well-formed map.
    pub fn new(bases: Vec<u32>, end: u32, bank_split: usize) -> (r: Result<SectorMap, Error>)
        ensures
            r is Ok <==> (SectorMap { bases: bases, end: end, bank_split: bank_split }).wf(),
            r is Ok ==> r->Ok_0 == (SectorMap { bases: bases, end: end, bank_split: bank_split }),
            r is Err ==> r == Err::<SectorMap, Error>(Error::InvalidSector),
    {
        if bases.len() < 1 || bases.len() > 256 || bank_split > bases.len() || end == u32::MAX {
            return Err(Error::InvalidSector);
        }
        if bases[bases.len() - 1] > end {
            return Err(Error::InvalidSector);
        }
        let mut i: usize = 0;
        while i + 1 < bases.len()
            invariant
                i < bases.len(),
                forall|j: int| 0 <= j < i ==> (#[trigger] bases[j]) < bases[j + 1],
            decreases bases.len() - i,
        {
            if bases[i] >= bases[i + 1] {
                return Err(Error::InvalidSector);
            }
            i = i + 1;
        }
        Ok(SectorMap { bases, end, bank_split })
    }

    /// Looks a sector index up in the table. Returns the owning bank, the
    /// table's base address, and the size implied by the next entry (or by
    /// the address-space upper bound for the last sector). Pure lookup.
    pub fn resolve(&self, sector: usize) -> (r: Result<SectorInfo, Error>)
        requires
            self.wf(),
        ensures
            r is Ok <==> sector < self.bases.len(),
            sector >= self.bases.len() ==> r == Err::<SectorInfo, Error>(Error::InvalidSector),
            r is Ok ==> r->Ok_0 == (SectorInfo {
                bank: self.bank_of(sector as int),
                base: self.sector_base(sector as int),
                size: self.sector_size(sector as int) as u32,
            }),
    {
        if sector >= self.bases.len() {
            return Err(Error::InvalidSector);
        }
        let base = self.bases[sector];
        let end_excl: u32 = if sector + 1 < self.bases.len() {
            self.bases[sector + 1]
        } else {
            self.end + 1
        };
        let bank = if sector < self.bank_split {
            BankId::Bank0
        } else {
            BankId::Bank1
        };
        Ok(SectorInfo { bank, base, size: end_excl - base })
    }

    /// The verdict of `validate_access`: which error a `(sector, offset,
    /// length)` access triple is rejected with — checked in a fixed order:
    /// unknown sector, then word misalignment, then the per-operation
    /// maximum, then sector bounds — or the physical start address it
    /// resolves to.
    pub open spec fn spec_validate_access(self, sector: int, offset: int, length: int) -> Result<
        int,
        Error,
    > {
        if sector >= self.bases.len() {
            Err(Error::InvalidSector)
        } else if length % (WORD_SIZE as int) != 0 {
            Err(Error::MisalignedAccess)
        } else if length > MAX_PROGRAM_BYTES {
            Err(Error::LengthTooLarge)
        } else if offset + length > self.sector_size(sector) {
            Err(Error::OutOfBounds)
        } else {
            Ok(self.sector_base(sector) + offset)
        }
    }

    /// Validates a `(sector, offset, length)` access triple against the
    /// table and yields the physical start address. Pure; mutates nothing.
    pub fn validate_access(&self, sector: usize, offset: u32, length: usize) -> (r: Result<
        Address,
        Error,
    >)
        requires
            self.wf(),
        ensures
            self.spec_validate_access(sector as int, offset as int, length as int) matches Err(e)
                ==> r == Err::<Address, Error>(e),
            self.spec_validate_access(sector as int, offset as int, length as int) matches Ok(a)
                ==> r == Ok::<Address, Error>(Address(a as u32)),
    {
        let info = match self.resolve(sector) {
            Ok(info) => info,
            Err(e) => {
                return Err(e);
            },
        };
        if length % WORD_SIZE != 0 {
            return Err(Error::MisalignedAccess);
        }
        if length > MAX_PROGRAM_BYTES {
            return Err(Error::LengthTooLarge);
        }
        if length > info.size as usize || offset > info.size as u32 - length as u32 {
            return Err(Error::OutOfBounds);
        }
        Ok(Address(info.base + offset))
    }
}

/// Checks that `[address, address + length)` lies inside the flash address
/// space of `map`; `Ok` exactly then. Pure; mutates nothing.
pub fn check_address_valid(map: &SectorMap, address: u32, length: usize) -> (r: Result<(), Error>)
    requires
        map.wf(),
    ensures
        r is Ok <==> (map.sector_base(0) <= address && address as int + length as int
            <= map.end as int + 1),
        r is Err ==> r == Err::<(), Error>(Error::OutOfBounds),
{
    if address < map.bases[0] {
        return Err(Error::OutOfBounds);
    }
    if address as u64 > map.end as u64 + 1 {
        return Err(Error::OutOfBounds);
    }
    if length as u64 > map.end as u64 + 1 - address as u64 {
        return Err(Error::OutOfBounds);
    }
    Ok(())
}

/// Checks the hardware constraints on one program call's length: a multiple
/// of the word size, at most the per-operation maximum. Pure.
pub fn check_length_valid(length: usize) -> (r: Result<(), Error>)
    ensures
        r == (if length as int % WORD_SIZE as int != 0 {
            Err::<(), Error>(Error::MisalignedAccess)
        } else if length > MAX_PROGRAM_BYTES {
            Err::<(), Error>(Error::LengthTooLarge)
        } else {
            Ok::<(), Error>(())
        }),
{
    if length % WORD_SIZE != 0 {
        Err(Error::MisalignedAccess)
    } else if length > MAX_PROGRAM_BYTES {
        Err(Error::LengthTooLarge)
    } else {
        Ok(())
    }
}

/// Last valid byte address of the target part's flash address space.
pub const FLASH_END: u32 = 0x081F_FFFF;

/// First address of the user area: the start of the second bank.
pub const FLASH_USER: u32 = 0x0810_0000;

/// First sector index of the target part belonging to the second bank.
pub const FLASH_BANK_SPLIT: usize = 8;

/// The target part's sector base-address table: two banks of eight 128 KiB
/// sectors. Fixed part-specific data, reproduced exactly.
pub open spec fn flash_sector_bases() -> Seq<u32> {
    seq![
        0x0800_0000u32,
        0x0802_0000,
        0x0804_8000,
        0x0806_0000,
        0x0808_0000,
        0x080A_0000,
        0x080C_0000,
        0x080E_0000,
        0x0810_0000,
        0x0812_0000,
        0x0814_8000,
        0x0816_0000,
        0x0818_0000,
        0x081A_0000,
        0x081C_0000,
        0x081E_0000,
    ]
}

/// The sector map of the target part, built from the fixed table.
pub fn flash_sector_map() -> (m: SectorMap)
    ensures
        m.wf(),
        m.bases@ == flash_sector_bases(),
        m.end == FLASH_END,
        m.bank_split == FLASH_BANK_SPLIT,
{
    let mut bases: Vec<u32> = Vec::new();
    bases.push(0x0800_0000);
    bases.push(0x0802_0000);
    bases.push(0x0804_8000);
    bases.push(0x0806_0000);
    bases.push(0x0808_0000);
    bases.push(0x080A_0000);
    bases.push(0x080C_0000);
    bases.push(0x080E_0000);
    bases.push(0x0810_0000);
    bases.push(0x0812_0000);
    bases.push(0x0814_8000);
    bases.push(0x0816_0000);
    bases.push(0x0818_0000);
    bases.push(0x081A_0000);
    bases.push(0x081C_0000);
    bases.push(0x081E_0000);
    proof {
        assert(bases@ =~= flash_sector_bases());
        assert forall|i: int|
            0 <= i < bases@.len() - 1 implies (#[trigger] bases@[i]) < bases@[i + 1] by {
            if i == 0 {
            } else if i == 1 {
            } else if i == 2 {
            } else if i == 3 {
            } else if i == 4 {
            } else if i == 5 {
            } else if i == 6 {
            } else if i == 7 {
            } else if i == 8 {
            } else if i == 9 {
            } else if i == 10 {
            } else if i == 11 {
            } else if i == 12 {
            } else if i == 13 {
            } else {
            }
        }
    }
    SectorMap { bases, end: FLASH_END, bank_split: FLASH_BANK_SPLIT }
}

/// The table's base addresses never decrease across any index distance.
pub proof fn lemma_bases_increasing(m: SectorMap, i: int, j: int)
    requires
        m.wf(),
        0 <= i <= j < m.bases.len(),
    ensures
        m.bases[i] <= m.bases[j],
    decreases j - i,
{
    if i < j {
        lemma_bases_increasing(m, i, j - 1);
    }
}

/// Every sector's address range lies inside the flash address space and
/// inside its own bank's partition, and the ranges of distinct sectors
/// follow one another disjointly in index order.
pub proof fn lemma_sector_bounds(m: SectorMap, i: int)
    requires
        m.wf(),
        0 <= i < m.sector_count(),
    ensures
        m.sector_base(0) <= m.sector_base(i),
        m.sector_base(i) < m.sector_end(i),
        m.sector_end(i) <= m.end + 1,
        i < m.bank_split ==> m.sector_end(i) <= m.split_addr(),
        i >= m.bank_split ==> m.split_addr() <= m.sector_base(i),
        i + 1 < m.sector_count() ==> m.sector_end(i) == m.sector_base(i + 1),
{
    lemma_bases_increasing(m, 0, i);
    if i + 1 < m.bases.len() {
        lemma_bases_increasing(m, i + 1, m.bases.len() - 1);
    }
    if i < m.bank_split {
        if m.bank_split < m.bases.len() {
            lemma_bases_increasing(m, i + 1, m.bank_split as int);
        }
    } else {
        if m.bank_split < m.bases.len() {
            lemma_bases_increasing(m, m.bank_split as int, i);
        }
    }
}

/// `sector_at` finds the sector an in-range address lies in, and no other
/// sector holds that address.
pub proof fn lemma_sector_at(m: SectorMap, a: int)
    requires
        m.wf(),
        m.sector_base(0) <= a <= m.end,
    ensures
        0 <= m.sector_at(a) < m.sector_count(),
        m.addr_in_sector(a, m.sector_at(a)),
        forall|i: int| 0 <= i < m.sector_count() && i != m.sector_at(a) ==> !m.addr_in_sector(a, i),
{
    lemma_sector_at_from(m, a, 0);
    let s = m.sector_at(a);
    assert forall|i: int|
        0 <= i < m.sector_count() && i != s implies !m.addr_in_sector(a, i) by {
        lemma_sector_bounds(m, i);
        lemma_sector_bounds(m, s);
        if i < s {
            lemma_bases_increasing(m, i + 1, s);
        } else {
            lemma_bases_increasing(m, s + 1, i);
        }
    }
}

proof fn lemma_sector_at_from(m: SectorMap, a: int, i: int)
    requires
        m.wf(),
        0 <= i < m.sector_count(),
        m.bases[i] <= a <= m.end,
    ensures
        i <= m.sector_at_from(a, i) < m.sector_count(),
        m.addr_in_sector(a, m.sector_at_from(a, i)),
    decreases m.sector_count() - i,
{
    if i >= m.sector_count() - 1 {
    } else if a < m.bases[i + 1] {
    } else {
        lemma_sector_at_from(m, a, i + 1);
    }
}

/// Checks that a caller-declared length matches the data buffer it came
/// with; `Ok` exactly when they agree. Pure.
pub fn check_length_correct(length: usize, data: &[u8]) -> (r: Result<(), Error>)
    ensures
        r is Ok <==> length == data@.len(),
        r is Err ==> r == Err::<(), Error>(Error::OutOfBounds),
{
    if length != data.len() {
        Err(Error::OutOfBounds)
    } else {
        Ok(())
    }
}

} // verus!
