//! Register-level model of one flash bank: the lock bit and its two-word key
//! protocol, the control-register mode fields, the busy flag with the command
//! it gates, the status register, and the bank's flash array bytes.
//!
//! Every register access of the driver is a method here with an exact
//! contract, so the erase and program engines are verified against the same
//! sequencing rules the hardware imposes: commands may only be issued while
//! the bank is unlocked and not busy, and a latched command takes effect when
//! the busy flag is next polled to completion.

use vstd::prelude::*;
use crate::error::Error;
use crate::status::{FAULT_MASK, STATUS_WRPERR};

verus! {

/// First word of the hardware-fixed key sequence.
pub const FLASH_KEY1: u32 = 0x4567_0123;

/// Second word of the hardware-fixed key sequence.
pub const FLASH_KEY2: u32 = 0xCDEF_89AB;

/// Value of an erased flash byte.
pub const ERASED_BYTE: u8 = 0xFF;

/// The command latched by a start trigger or a program store; it takes
/// effect when the busy flag is polled to completion.
#[derive(Clone, Copy, Debug, PartialEq, Eq, Structural)]
pub enum PendingOp {
    /// No operation in flight.
    Idle,
    /// Erase of the absolute address range `[lo, hi)`.
    Erase { lo: u32, hi: u32 },
    /// Program of one word at an absolute address.
    Program { addr: u32, word: u32 },
}

/// One independently lockable flash bank: its registers and its bytes.
pub struct FlashBank {
    /// Control register: write protection engaged.
    pub locked: bool,
    /// Key protocol progress: 1 after the first key word was accepted.
    pub key_stage: u8,
    /// A wrong key word was written; unlocking is refused until reset.
    pub key_lockout: bool,
    /// Control register: sector-erase mode selected.
    pub ser: bool,
    /// Control register: sector number for the next erase.
    pub snb: u8,
    /// Control register: start trigger of the configured erase.
    pub start: bool,
    /// Control register: program mode enabled.
    pub pg: bool,
    /// Status register: an operation is in flight.
    pub busy: bool,
    /// Status register: the fault bits.
    pub status: u16,
    /// The command the busy flag gates.
    pub pending: PendingOp,
    /// Absolute address of the bank's first byte.
    pub base: u32,
    /// The bank's flash array contents.
    pub mem: Vec<u8>,
    /// The bank refuses erase and program commands with a write-protect
    /// fault. Models the part's region protection, at bank granularity.
    pub write_protected: bool,
}

/// `mem` after erasing indices `[lo, hi)`.
pub open spec fn erased_range(mem: Seq<u8>, lo: int, hi: int) -> Seq<u8> {
    Seq::new(mem.len(), |j: int| if lo <= j < hi { ERASED_BYTE } else { mem[j] })
}

/// Byte `k` of the little-endian encoding of `w`.
pub open spec fn word_byte(w: u32, k: int) -> u8 {
    if k == 0 {
        (w & 0xFF) as u8
    } else if k == 1 {
        ((w >> 8) & 0xFF) as u8
    } else if k == 2 {
        ((w >> 16) & 0xFF) as u8
    } else {
        ((w >> 24) & 0xFF) as u8
    }
}

/// The word programmed for four data bytes, assembled little-endian.
pub open spec fn word_of_bytes(b0: u8, b1: u8, b2: u8, b3: u8) -> u32 {
    b0 as u32 | (b1 as u32) << 8 | (b2 as u32) << 16 | (b3 as u32) << 24
}

/// `mem` after storing the little-endian bytes of `w` at index `off`.
pub open spec fn stored_word(mem: Seq<u8>, off: int, w: u32) -> Seq<u8> {
    Seq::new(mem.len(), |j: int| if off <= j < off + 4 { word_byte(w, j - off) } else { mem[j] })
}

/// `mem` after storing `data` at index `off`.
pub open spec fn stored_bytes(mem: Seq<u8>, off: int, data: Seq<u8>) -> Seq<u8> {
    Seq::new(
        mem.len(),
        |j: int| if off <= j < off + data.len() { data[j - off] } else { mem[j] },
    )
}

/// Word assembly and byte extraction are inverses: storing the word built
/// from four bytes puts exactly those bytes back.
pub proof fn lemma_word_bytes_roundtrip(b0: u8, b1: u8, b2: u8, b3: u8)
    ensures
        word_byte(word_of_bytes(b0, b1, b2, b3), 0) == b0,
        word_byte(word_of_bytes(b0, b1, b2, b3), 1) == b1,
        word_byte(word_of_bytes(b0, b1, b2, b3), 2) == b2,
        word_byte(word_of_bytes(b0, b1, b2, b3), 3) == b3,
{
    let w = word_of_bytes(b0, b1, b2, b3);
    assert((b0 as u32 | (b1 as u32) << 8 | (b2 as u32) << 16 | (b3 as u32) << 24) & 0xFF == b0
        as u32) by (bit_vector);
    assert(((b0 as u32 | (b1 as u32) << 8 | (b2 as u32) << 16 | (b3 as u32) << 24) >> 8) & 0xFF
        == b1 as u32) by (bit_vector);
    assert(((b0 as u32 | (b1 as u32) << 8 | (b2 as u32) << 16 | (b3 as u32) << 24) >> 16) & 0xFF
        == b2 as u32) by (bit_vector);
    assert(((b0 as u32 | (b1 as u32) << 8 | (b2 as u32) << 16 | (b3 as u32) << 24) >> 24) & 0xFF
        == b3 as u32) by (bit_vector);
}

impl FlashBank {
    /// Structural invariant: the address range fits the address word, the
    /// busy flag is set exactly while a command is latched, and a latched
    /// command targets the bank's own range.
    pub open spec fn wf(self) -> bool {
        &&& self.base as int + self.mem.len() <= u32::MAX as int + 1
        &&& self.busy <==> !(self.pending is Idle)
        &&& match self.pending {
            PendingOp::Idle => true,
            PendingOp::Erase { lo, hi } => self.base <= lo <= hi && hi as int <= self.base as int
                + self.mem.len(),
            PendingOp::Program { addr, word } => self.base <= addr && addr as int + 4 <= self.base
                as int + self.mem.len(),
        }
        &&& self.key_stage <= 1
    }

    /// The bank between public driver calls: no operation in flight, no key
    /// write half-done, no unacknowledged fault bit.
    pub open spec fn quiescent(self) -> bool {
        &&& !self.busy
        &&& self.key_stage == 0
        &&& self.status & FAULT_MASK == 0
    }

    /// One past the bank's last absolute address.
    pub open spec fn limit(self) -> int {
        self.base as int + self.mem.len()
    }

    /// The bank as the driver leaves it between public calls: quiescent and
    /// with write protection engaged — the standing invariant that every
    /// erase or program path re-establishes, success or failure.
    pub open spec fn ready(self) -> bool {
        &&& self.quiescent()
        &&& self.locked
    }

    /// A fresh bank: locked, ready, fault-free, fully erased.
    pub fn new(base: u32, size: usize) -> (r: FlashBank)
        requires
            base as int + size as int <= u32::MAX as int + 1,
        ensures
            r.wf(),
            r.quiescent(),
            r == (FlashBank {
                locked: true,
                key_stage: 0,
                key_lockout: false,
                ser: false,
                snb: 0,
                start: false,
                pg: false,
                busy: false,
                status: 0,
                pending: PendingOp::Idle,
                base: base,
                mem: r.mem,
                write_protected: false,
            }),
            r.mem.len() == size,
            forall|j: int| 0 <= j < size ==> r.mem[j] == ERASED_BYTE,
    {
        let mut mem: Vec<u8> = Vec::new();
        let mut i: usize = 0;
        while i < size
            invariant
                i <= size,
                mem.len() == i,
                forall|j: int| 0 <= j < i ==> mem[j] == ERASED_BYTE,
            decreases size - i,
        {
            mem.push(ERASED_BYTE);
            i = i + 1;
        }
        proof {
            assert(0u16 & FAULT_MASK == 0) by (bit_vector);
        }
        FlashBank {
            locked: true,
            key_stage: 0,
            key_lockout: false,
            ser: false,
            snb: 0,
            start: false,
            pg: false,
            busy: false,
            status: 0,
            pending: PendingOp::Idle,
            base,
            mem,
            write_protected: false,
        }
    }

    /// Engages or releases the modeled region write protection. A protected
    /// bank answers every erase or program command with a write-protect
    /// fault; this is how tests drive the fault paths deterministically.
    pub fn set_write_protect(&mut self, on: bool)
        ensures
            *final(self) == (FlashBank { write_protected: on, ..*old(self) }),
    {
        self.write_protected = on;
    }

    /// One write to the bank's key register. The lock clears only after the
    /// two key words arrive in their fixed order; any wrong word locks the
    /// key protocol out until reset, as the part's reference manual warns.
    pub fn write_key(&mut self, key: u32)
        requires
            old(self).wf(),
            !old(self).busy,
        ensures
            final(self).wf(),
            !old(self).locked || old(self).key_lockout ==> *final(self) == *old(self),
            old(self).locked && !old(self).key_lockout && old(self).key_stage == 0 ==> (if key
                == FLASH_KEY1 {
                *final(self) == (FlashBank { key_stage: 1u8, ..*old(self) })
            } else {
                *final(self) == (FlashBank { key_lockout: true, ..*old(self) })
            }),
            old(self).locked && !old(self).key_lockout && old(self).key_stage == 1 ==> (if key
                == FLASH_KEY2 {
                *final(self) == (FlashBank { locked: false, key_stage: 0u8, ..*old(self) })
            } else {
                *final(self) == (FlashBank { key_lockout: true, key_stage: 0u8, ..*old(self) })
            }),
    {
        if !self.locked || self.key_lockout {
            return ;
        }
        if self.key_stage == 0 {
            if key == FLASH_KEY1 {
                self.key_stage = 1;
            } else {
                self.key_lockout = true;
            }
        } else {
            if key == FLASH_KEY2 {
                self.locked = false;
                self.key_stage = 0;
            } else {
                self.key_lockout = true;
                self.key_stage = 0;
            }
        }
    }

    /// Whether an operation is in flight.
    pub fn is_busy(&self) -> (r: bool)
        ensures
            r == self.busy,
    {
        self.busy
    }

    /// The raw status snapshot.
    pub fn read_status(&self) -> (r: u16)
        ensures
            r == self.status,
    {
        self.status
    }

    /// Acknowledges status bits: clears every bit of `mask`.
    pub fn clear_status(&mut self, mask: u16)
        requires
            old(self).wf(),
        ensures
            final(self).wf(),
            *final(self) == (FlashBank { status: old(self).status & !mask, ..*old(self) }),
    {
        self.status = self.status & !mask;
    }

    /// Writes the sector-erase configuration: erase mode selected and the
    /// sector number set together, both stable before any start trigger.
    pub fn set_erase_config(&mut self, snb: u8)
        requires
            old(self).wf(),
            !old(self).locked,
            !old(self).busy,
        ensures
            final(self).wf(),
            *final(self) == (FlashBank { ser: true, snb: snb, ..*old(self) }),
    {
        self.ser = true;
        self.snb = snb;
    }

    /// Clears the erase-mode bit after a completed erase.
    pub fn clear_erase_config(&mut self)
        requires
            old(self).wf(),
            !old(self).locked,
            !old(self).busy,
        ensures
            final(self).wf(),
            *final(self) == (FlashBank { ser: false, ..*old(self) }),
    {
        self.ser = false;
    }

    /// Asserts the start bit: latches the erase of `[lo, hi)` and raises the
    /// busy flag. The model takes the sector's address range from the
    /// resolver, where the part derives it from the sector number.
    pub fn start_erase(&mut self, lo: u32, hi: u32)
        requires
            old(self).wf(),
            !old(self).locked,
            !old(self).busy,
            old(self).ser,
            old(self).base <= lo <= hi,
            hi as int <= old(self).limit(),
        ensures
            final(self).wf(),
            *final(self) == (FlashBank {
                start: true,
                busy: true,
                pending: PendingOp::Erase { lo: lo, hi: hi },
                ..*old(self)
            }),
    {
        self.start = true;
        self.busy = true;
        self.pending = PendingOp::Erase { lo, hi };
    }

    /// De-asserts the start bit once the operation has completed.
    pub fn clear_start(&mut self)
        requires
            old(self).wf(),
            !old(self).busy,
        ensures
            final(self).wf(),
            *final(self) == (FlashBank { start: false, ..*old(self) }),
    {
        self.start = false;
    }

    /// Enables program mode.
    pub fn set_program_enable(&mut self)
        requires
            old(self).wf(),
            !old(self).locked,
            !old(self).busy,
        ensures
            final(self).wf(),
            *final(self) == (FlashBank { pg: true, ..*old(self) }),
    {
        self.pg = true;
    }

    /// Disables program mode.
    pub fn clear_program_enable(&mut self)
        requires
            old(self).wf(),
            !old(self).locked,
            !old(self).busy,
        ensures
            final(self).wf(),
            *final(self) == (FlashBank { pg: false, ..*old(self) }),
    {
        self.pg = false;
    }

    /// The direct store of one word to the flash array: latches the program
    /// command and raises the busy flag. The critical sequencing rule of the
    /// whole engine — never issue a store while the busy flag is set — is
    /// the `!busy` precondition here.
    pub fn program_word(&mut self, addr: u32, word: u32)
        requires
            old(self).wf(),
            !old(self).locked,
            old(self).pg,
            !old(self).busy,
            old(self).base <= addr,
            addr as int + 4 <= old(self).limit(),
        ensures
            final(self).wf(),
            *final(self) == (FlashBank {
                busy: true,
                pending: PendingOp::Program { addr: addr, word: word },
                ..*old(self)
            }),
    {
        self.busy = true;
        self.pending = PendingOp::Program { addr, word };
    }

    /// Polls the busy flag until it clears: the latched command takes
    /// effect. An erase fills its range with the erased byte value and a
    /// program stores its word's bytes — unless the bank is write-protected,
    /// in which case the contents stay and the write-protect fault bit is
    /// raised instead. This is a blocking wait with no timeout.
    pub fn wait_ready(&mut self)
        requires
            old(self).wf(),
        ensures
            final(self).wf(),
            !final(self).busy,
            final(self).pending is Idle,
            match old(self).pending {
                PendingOp::Idle => *final(self) == *old(self),
                PendingOp::Erase { lo, hi } => if old(self).write_protected {
                    *final(self) == (FlashBank {
                        busy: false,
                        pending: PendingOp::Idle,
                        status: old(self).status | STATUS_WRPERR,
                        ..*old(self)
                    })
                } else {
                    &&& *final(self) == (FlashBank {
                        busy: false,
                        pending: PendingOp::Idle,
                        mem: final(self).mem,
                        ..*old(self)
                    })
                    &&& final(self).mem@ == erased_range(
                        old(self).mem@,
                        lo - old(self).base,
                        hi - old(self).base,
                    )
                },
                PendingOp::Program { addr, word } => if old(self).write_protected {
                    *final(self) == (FlashBank {
                        busy: false,
                        pending: PendingOp::Idle,
                        status: old(self).status | STATUS_WRPERR,
                        ..*old(self)
                    })
                } else {
                    &&& *final(self) == (FlashBank {
                        busy: false,
                        pending: PendingOp::Idle,
                        mem: final(self).mem,
                        ..*old(self)
                    })
                    &&& final(self).mem@ == stored_word(
                        old(self).mem@,
                        addr - old(self).base,
                        word,
                    )
                },
            },
    {
        match self.pending {
            PendingOp::Idle => {},
            PendingOp::Erase { lo, hi } => {
                if self.write_protected {
                    self.status = self.status | STATUS_WRPERR;
                } else {
                    let mut idx: usize = (lo - self.base) as usize;
                    let stop: usize = (hi - self.base) as usize;
                    while idx < stop
                        invariant
                            stop <= self.mem.len(),
                            (lo - self.base) as int <= idx as int <= stop as int,
                            stop == hi - self.base,
                            self.mem@.len() == old(self).mem@.len(),
                            forall|j: int|
                                0 <= j < self.mem@.len() ==> self.mem@[j] == (if (lo - self.base)
                                    as int <= j < idx as int {
                                    ERASED_BYTE
                                } else {
                                    old(self).mem@[j]
                                }),
                            self.locked == old(self).locked,
                            self.key_stage == old(self).key_stage,
                            self.key_lockout == old(self).key_lockout,
                            self.ser == old(self).ser,
                            self.snb == old(self).snb,
                            self.start == old(self).start,
                            self.pg == old(self).pg,
                            self.busy == old(self).busy,
                            self.status == old(self).status,
                            self.pending == old(self).pending,
                            self.base == old(self).base,
                            self.write_protected == old(self).write_protected,
                        decreases stop - idx,
                    {
                        self.mem[idx] = ERASED_BYTE;
                        idx = idx + 1;
                    }
                    proof {
                        assert(self.mem@ =~= erased_range(
                            old(self).mem@,
                            lo - old(self).base,
                            hi - old(self).base,
                        ));
                    }
                }
                self.pending = PendingOp::Idle;
                self.busy = false;
            },
            PendingOp::Program { addr, word } => {
                if self.write_protected {
                    self.status = self.status | STATUS_WRPERR;
                } else {
                    let off: usize = (addr - self.base) as usize;
                    self.mem[off] = (word & 0xFF) as u8;
                    self.mem[off + 1] = ((word >> 8) & 0xFF) as u8;
                    self.mem[off + 2] = ((word >> 16) & 0xFF) as u8;
                    self.mem[off + 3] = ((word >> 24) & 0xFF) as u8;
                    proof {
                        assert(self.mem@ =~= stored_word(
                            old(self).mem@,
                            addr - old(self).base,
                            word,
                        ));
                    }
                }
                self.pending = PendingOp::Idle;
                self.busy = false;
            },
        }
    }

    /// One byte of the flash array, read directly; reads need no unlock.
    pub fn read_byte(&self, addr: u32) -> (r: u8)
        requires
            self.base <= addr,
            addr - self.base < self.mem.len(),
        ensures
            r == self.mem[addr - self.base],
    {
        self.mem[(addr - self.base) as usize]
    }
}

/// Reports whether the bank's lock bit is engaged.
pub fn locked(bank: &FlashBank) -> (r: bool)
    ensures
        r == bank.locked,
{
    bank.locked
}

/// Re-engages the bank's write protection: one control-register write that
/// sets the lock bit and clears every mode field. Idempotent and always safe
/// to call, locked or not.
pub fn lock(bank: &mut FlashBank)
    requires
        old(bank).wf(),
    ensures
        final(bank).wf(),
        *final(bank) == (FlashBank {
            locked: true,
            key_stage: 0u8,
            ser: false,
            snb: 0u8,
            start: false,
            pg: false,
            ..*old(bank)
        }),
{
    bank.locked = true;
    bank.key_stage = 0;
    bank.ser = false;
    bank.snb = 0;
    bank.start = false;
    bank.pg = false;
}

/// Clears the bank's write protection through the key protocol, on a quiet
/// bank (no operation in flight, no key write half-done). Succeeds
/// immediately on an already unlocked bank; otherwise waits for the busy
/// flag, writes the two key words in their fixed order, and reads the lock
/// bit back. Fails with `UnlockFailed` — leaving the bank locked — exactly
/// when the key protocol is locked out.
pub fn unlock(bank: &mut FlashBank) -> (r: Result<(), Error>)
    requires
        old(bank).wf(),
        !old(bank).busy,
        old(bank).key_stage == 0,
    ensures
        final(bank).wf(),
        !final(bank).busy,
        r is Ok <==> !final(bank).locked,
        r is Ok <==> (!old(bank).locked || !old(bank).key_lockout),
        r is Err ==> r == Err::<(), Error>(Error::UnlockFailed) && *final(bank) == *old(bank),
        !old(bank).locked ==> *final(bank) == *old(bank),
        old(bank).locked && !old(bank).key_lockout ==> *final(bank) == (FlashBank {
            locked: false,
            ..*old(bank)
        }),
{
    if !locked(bank) {
        return Ok(());
    }
    bank.wait_ready();
    bank.write_key(FLASH_KEY1);
    bank.write_key(FLASH_KEY2);
    if locked(bank) {
        Err(Error::UnlockFailed)
    } else {
        Ok(())
    }
}

} // verus!
