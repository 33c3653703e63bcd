//! The state of the main processor that its load and store instructions
//! work on, and the steps they are made of.
//!
//! Memory is a flat run of bytes from address zero; an address beyond it
//! reads as zero and swallows what is written to it. The protection unit and
//! the access timings are tables with one entry per page of 4 KiB; a page
//! beyond a table allows no access and takes one cycle for each.
//!
//! Time is kept by three counters: the cycles that instructions spend, the
//! cycles for which they hold the bus ahead of their accesses, and the
//! instruction fetches. A register that was loaded becomes available only
//! some cycles later: until then it is interlocked, and an instruction that
//! needs it waits.

pub mod mem;

use crate::cpu::regs::Regs;
use crate::bytes::{byte_at, le_32_at, read_8, read_le_32};
use vstd::prelude::*;

verus! {

/// Binary logarithm of the size of a page.
pub const PAGE_SHIFT: u32 = 12;

/// May be read in user mode.
pub const PERM_USER_READ: u8 = 1;

/// May be written in user mode.
pub const PERM_USER_WRITE: u8 = 2;

/// May be read in a privileged mode.
pub const PERM_PRIV_READ: u8 = 4;

/// May be written in a privileged mode.
pub const PERM_PRIV_WRITE: u8 = 8;

/// The cycles that data accesses to a page take: reads (`r`) and writes (`w`),
/// of 32 or of 16 and fewer bits, the first of a run (`n`) or one that
/// follows another (`s`).
#[derive(Clone, Copy, Debug, PartialEq, Eq)]
pub struct Timings {
    pub r_n32_data: u8,
    pub r_s32_data: u8,
    pub w_n32_data: u8,
    pub w_s32_data: u8,
    pub r_n16_data: u8,
    pub w_n16_data: u8,
}

/// The control register of the system coprocessor.
#[derive(Clone, Copy, Debug, PartialEq, Eq)]
pub struct Cp15Control(pub u32);

impl Cp15Control {
    pub open spec fn spec_t_bit_load_disabled(self) -> bool {
        self.0 & 1u32 << 15 != 0
    }

    /// Whether a load of the program counter leaves the instruction set as
    /// it is (bit 15), rather than taking it from the loaded value's bit 0.
    #[verifier::when_used_as_spec(spec_t_bit_load_disabled)]
    pub fn t_bit_load_disabled(self) -> (r: bool)
        ensures
            r == self.spec_t_bit_load_disabled(),
    {
        self.0 & 1u32 << 15 != 0
    }
}

/// The system coprocessor.
pub struct Cp15 {
    pub control: Cp15Control,
    /// The permissions of each page.
    pub perm_map: Vec<u8>,
    /// The access timings of each page.
    pub timings: Vec<Timings>,
}

/// The times from which a register's value is available: to the ports that
/// read addresses and operands, and to the port that reads the data of a
/// store.
#[derive(Clone, Copy, Debug, PartialEq, Eq)]
pub struct Interlock {
    pub port_ab: u64,
    pub port_c: u64,
}

/// The main processor.
pub struct Arm9 {
    pub regs: Regs,
    /// The cycles that the last data access still takes.
    pub data_cycles: u8,
    pub interlocks: [Interlock; 16],
    /// The cycles spent so far.
    pub cur_time: u64,
    /// The cycles for which the bus was held ahead of accesses.
    pub bus_cycles: u64,
    /// The instructions fetched so far.
    pub fetches: u64,
    pub cp15: Cp15,
}

/// The emulated machine.
pub struct Emu {
    pub arm9: Arm9,
    pub memory: Vec<u8>,
}

/// Where the instruction set comes from when the pipeline is filled anew.
#[derive(Clone, Copy, Debug, PartialEq, Eq, Structural)]
pub enum StateSource {
    /// The 32-bit instruction set, whatever the state was.
    Arm,
    /// Bit 0 of the new program counter.
    R15Bit0,
    /// The status register.
    Cpsr,
}

/// How an instruction ended: what is left for the processor's control to do.
#[derive(Clone, Copy, Debug, PartialEq, Eq, Structural)]
pub enum Outcome {
    /// Nothing is left to do.
    Done,
    /// The pipeline is to be filled from the new program counter.
    ReloadPipeline(StateSource),
    /// The access to `addr` was refused: a data abort is to be taken.
    DataAbort { addr: u32 },
    /// The instruction is undefined: the undefined-instruction exception is
    /// to be taken.
    Undefined,
}

/// The permissions of the page of `addr`.
pub open spec fn spec_perms(perm_map: Seq<u8>, addr: u32) -> u8 {
    byte_at(perm_map, (addr >> PAGE_SHIFT) as int)
}

/// Whether `addr` may be read.
pub open spec fn spec_can_read(perm_map: Seq<u8>, addr: u32, privileged: bool) -> bool {
    spec_perms(perm_map, addr) & (if privileged {
        PERM_PRIV_READ
    } else {
        PERM_USER_READ
    }) != 0
}

/// Whether `addr` may be written.
pub open spec fn spec_can_write(perm_map: Seq<u8>, addr: u32, privileged: bool) -> bool {
    spec_perms(perm_map, addr) & (if privileged {
        PERM_PRIV_WRITE
    } else {
        PERM_USER_WRITE
    }) != 0
}

/// The timings of a page that no table holds.
pub open spec fn unit_timings() -> Timings {
    Timings {
        r_n32_data: 1,
        r_s32_data: 1,
        w_n32_data: 1,
        w_s32_data: 1,
        r_n16_data: 1,
        w_n16_data: 1,
    }
}

/// The access timings of the page of `addr`.
pub open spec fn spec_timings(timings: Seq<Timings>, addr: u32) -> Timings {
    if (addr >> PAGE_SHIFT) < timings.len() {
        timings[(addr >> PAGE_SHIFT) as int]
    } else {
        unit_timings()
    }
}

/// The word at `addr` rounded down to a multiple of four.
pub open spec fn spec_read_32(memory: Seq<u8>, addr: u32) -> u32 {
    le_32_at(memory, (addr & !3u32) as int)
}

/// Byte `k` of a word, counted from the lowest.
pub open spec fn word_byte(value: u32, k: int) -> u8 {
    (value >> (8 * k) as u32) as u8
}

/// Memory after the bytes of `value` were written from `base` on, as far as
/// memory reaches.
pub open spec fn spec_write_bytes(memory: Seq<u8>, base: int, value: u32, count: int) -> Seq<u8> {
    Seq::new(
        memory.len(),
        |a: int|
            if base <= a < base + count {
                word_byte(value, a - base)
            } else {
                memory[a]
            },
    )
}

/// Memory after a word was written to `addr` rounded down to a multiple of
/// four.
pub open spec fn spec_write_32(memory: Seq<u8>, addr: u32, value: u32) -> Seq<u8> {
    spec_write_bytes(memory, (addr & !3u32) as int, value, 4)
}

/// The halfword at `addr` rounded down to a multiple of two.
pub open spec fn spec_read_16(memory: Seq<u8>, addr: u32) -> u16 {
    crate::bytes::le_16_at(memory, (addr & !1u32) as int)
}

/// Memory after a halfword was written to `addr` rounded down to a multiple
/// of two.
pub open spec fn spec_write_16(memory: Seq<u8>, addr: u32, value: u16) -> Seq<u8> {
    spec_write_bytes(memory, (addr & !1u32) as int, value as u32, 2)
}

/// Memory after a byte was written to `addr`.
pub open spec fn spec_write_8(memory: Seq<u8>, addr: u32, value: u8) -> Seq<u8> {
    spec_write_bytes(memory, addr as int, value as u32, 1)
}

/// A word rotated right by `shift` bits.
pub open spec fn spec_rotate_right(value: u32, shift: u32) -> u32 {
    if shift & 31 == 0 {
        value
    } else {
        value >> (shift & 31) | value << ((32 - (shift & 31)) as u32)
    }
}

/// Rotates a word right.
pub fn rotate_right(value: u32, shift: u32) -> (r: u32)
    ensures
        r == spec_rotate_right(value, shift),
{
    let by: u32 = shift & 31;
    proof {
        assert(by < 32) by (bit_vector)
            requires
                by == shift & 31,
        ;
    }
    if by == 0 {
        value
    } else {
        value >> by | value << (32 - by)
    }
}

/// The time after a wait until `ready`.
pub open spec fn spec_wait_until(now: u64, ready: u64) -> u64 {
    if ready > now {
        ready
    } else {
        now
    }
}

impl Interlock {
    /// The interlock of a register written now that is available after
    /// `cycles` cycles, and to the store port `port_c_gain` cycles before
    /// that.
    pub open spec fn spec_starting(now: u64, cycles: u64, port_c_gain: u64) -> Interlock {
        Interlock {
            port_ab: now.wrapping_add(cycles),
            port_c: now.wrapping_add(cycles.wrapping_sub(port_c_gain)),
        }
    }
}

impl Emu {
    /// Whether the processor may read `addr`.
    pub fn can_read(&self, addr: u32, privileged: bool) -> (r: bool)
        ensures
            r == spec_can_read(self.arm9.cp15.perm_map@, addr, privileged),
    {
        read_8(&self.arm9.cp15.perm_map, (addr >> PAGE_SHIFT) as usize) & (if privileged {
            PERM_PRIV_READ
        } else {
            PERM_USER_READ
        }) != 0
    }

    /// Whether the processor may write `addr`.
    pub fn can_write(&self, addr: u32, privileged: bool) -> (r: bool)
        ensures
            r == spec_can_write(self.arm9.cp15.perm_map@, addr, privileged),
    {
        read_8(&self.arm9.cp15.perm_map, (addr >> PAGE_SHIFT) as usize) & (if privileged {
            PERM_PRIV_WRITE
        } else {
            PERM_USER_WRITE
        }) != 0
    }

    /// The access timings of the page of `addr`.
    pub fn timings(&self, addr: u32) -> (r: Timings)
        ensures
            r == spec_timings(self.arm9.cp15.timings@, addr),
    {
        let page: usize = (addr >> PAGE_SHIFT) as usize;
        if page < self.arm9.cp15.timings.len() {
            self.arm9.cp15.timings[page]
        } else {
            Timings {
                r_n32_data: 1,
                r_s32_data: 1,
                w_n32_data: 1,
                w_s32_data: 1,
                r_n16_data: 1,
                w_n16_data: 1,
            }
        }
    }

    /// Reads the word at `addr` rounded down to a multiple of four.
    pub fn read_32(&self, addr: u32) -> (r: u32)
        ensures
            r == spec_read_32(self.memory@, addr),
    {
        let base: u32 = addr & !3u32;
        proof {
            assert(base <= 0xFFFF_FFFC) by (bit_vector)
                requires
                    base == addr & !3u32,
            ;
        }
        read_le_32(&self.memory, base as usize)
    }

    /// Reads the halfword at `addr` rounded down to a multiple of two.
    pub fn read_16(&self, addr: u32) -> (r: u16)
        ensures
            r == spec_read_16(self.memory@, addr),
    {
        let base: u32 = addr & !1u32;
        proof {
            assert(base <= 0xFFFF_FFFE) by (bit_vector)
                requires
                    base == addr & !1u32,
            ;
        }
        crate::bytes::read_le_16(&self.memory, base as usize)
    }

    /// Reads the byte at `addr`.
    pub fn read_8(&self, addr: u32) -> (r: u8)
        ensures
            r == byte_at(self.memory@, addr as int),
    {
        read_8(&self.memory, addr as usize)
    }

    /// Writes `count` bytes of `value` from `base` on.
    fn write_bytes(&mut self, base: u32, value: u32, count: u32)
        requires
            count <= 4,
        ensures
            final(self).memory@ == spec_write_bytes(
                old(self).memory@,
                base as int,
                value,
                count as int,
            ),
            final(self).arm9 == old(self).arm9,
    {
        let mut k: u32 = 0;
        while k < count
            invariant
                k <= count <= 4,
                self.memory@ == spec_write_bytes(old(self).memory@, base as int, value, k as int),
                self.arm9 == old(self).arm9,
            decreases count - k,
        {
            let at: u64 = base as u64 + k as u64;
            if at < self.memory.len() as u64 {
                self.memory[at as usize] = #[verifier::truncate]
                ((value >> (8 * k)) as u8);
            }
            k += 1;
            assert(self.memory@ =~= spec_write_bytes(
                old(self).memory@,
                base as int,
                value,
                k as int,
            ));
        }
    }

    /// Writes a word to `addr` rounded down to a multiple of four.
    pub fn write_32(&mut self, addr: u32, value: u32)
        ensures
            final(self).memory@ == spec_write_32(old(self).memory@, addr, value),
            final(self).arm9 == old(self).arm9,
    {
        self.write_bytes(addr & !3u32, value, 4);
    }

    /// Writes a halfword to `addr` rounded down to a multiple of two.
    pub fn write_16(&mut self, addr: u32, value: u16)
        ensures
            final(self).memory@ == spec_write_16(old(self).memory@, addr, value),
            final(self).arm9 == old(self).arm9,
    {
        self.write_bytes(addr & !1u32, value as u32, 2);
    }

    /// Writes a byte to `addr`.
    pub fn write_8(&mut self, addr: u32, value: u8)
        ensures
            final(self).memory@ == spec_write_8(old(self).memory@, addr, value),
            final(self).arm9 == old(self).arm9,
    {
        self.write_bytes(addr, value as u32, 1);
    }

    /// Lets `cycles` cycles pass.
    pub fn add_cycles(&mut self, cycles: u64)
        ensures
            final(self).arm9 == (Arm9 {
                cur_time: old(self).arm9.cur_time.wrapping_add(cycles),
                ..old(self).arm9
            }),
            final(self).memory == old(self).memory,
    {
        self.arm9.cur_time = self.arm9.cur_time.wrapping_add(cycles);
    }

    /// Holds the bus for `cycles` cycles ahead of an access.
    pub fn add_bus_cycles(&mut self, cycles: u64)
        ensures
            final(self).arm9 == (Arm9 {
                bus_cycles: old(self).arm9.bus_cycles.wrapping_add(cycles),
                ..old(self).arm9
            }),
            final(self).memory == old(self).memory,
    {
        self.arm9.bus_cycles = self.arm9.bus_cycles.wrapping_add(cycles);
    }

    /// Fetches the next instruction while the current one goes on: the
    /// program counter moves on by one instruction.
    pub fn prefetch_arm(&mut self)
        ensures
            final(self).arm9.regs.cur@ == old(self).arm9.regs.cur@.update(
                15,
                old(self).arm9.regs.cur[15].wrapping_add(4),
            ),
            final(self).arm9.regs == (Regs {
                cur: final(self).arm9.regs.cur,
                ..old(self).arm9.regs
            }),
            final(self).arm9 == (Arm9 {
                regs: final(self).arm9.regs,
                fetches: old(self).arm9.fetches.wrapping_add(1),
                ..old(self).arm9
            }),
            final(self).memory == old(self).memory,
    {
        self.arm9.regs.cur[15] = self.arm9.regs.cur[15].wrapping_add(4);
        self.arm9.fetches = self.arm9.fetches.wrapping_add(1);
    }

    /// Waits until register `reg` is available: to the store port with
    /// `PORT_C`, to the other ports without.
    pub fn apply_reg_interlock_1<const PORT_C: bool>(&mut self, reg: u8)
        requires
            reg < 16,
        ensures
            final(self).arm9 == (Arm9 {
                cur_time: spec_wait_until(
                    old(self).arm9.cur_time,
                    if PORT_C {
                        old(self).arm9.interlocks[reg as int].port_c
                    } else {
                        old(self).arm9.interlocks[reg as int].port_ab
                    },
                ),
                ..old(self).arm9
            }),
            final(self).memory == old(self).memory,
    {
        let interlock = self.arm9.interlocks[reg as usize];
        let ready: u64 = if PORT_C {
            interlock.port_c
        } else {
            interlock.port_ab
        };
        if ready > self.arm9.cur_time {
            self.arm9.cur_time = ready;
        }
    }

    /// Waits until both registers are available to the address and operand
    /// ports.
    pub fn apply_reg_interlocks_2(&mut self, reg_a: u8, reg_b: u8)
        requires
            reg_a < 16,
            reg_b < 16,
        ensures
            final(self).arm9 == (Arm9 {
                cur_time: spec_wait_until(
                    spec_wait_until(
                        old(self).arm9.cur_time,
                        old(self).arm9.interlocks[reg_a as int].port_ab,
                    ),
                    old(self).arm9.interlocks[reg_b as int].port_ab,
                ),
                ..old(self).arm9
            }),
            final(self).memory == old(self).memory,
    {
        self.apply_reg_interlock_1::<false>(reg_a);
        self.apply_reg_interlock_1::<false>(reg_b);
    }

    /// Interlocks register `reg` from now on for `cycles` cycles, and
    /// `port_c_gain` cycles less for the store port.
    pub fn add_interlock(&mut self, reg: u8, cycles: u64, port_c_gain: u64)
        requires
            reg < 16,
        ensures
            final(self).arm9.interlocks@ == old(self).arm9.interlocks@.update(
                reg as int,
                Interlock::spec_starting(old(self).arm9.cur_time, cycles, port_c_gain),
            ),
            final(self).arm9 == (Arm9 {
                interlocks: final(self).arm9.interlocks,
                ..old(self).arm9
            }),
            final(self).memory == old(self).memory,
    {
        let now: u64 = self.arm9.cur_time;
        self.arm9.interlocks[reg as usize] =
        Interlock {
            port_ab: now.wrapping_add(cycles),
            port_c: now.wrapping_add(cycles.wrapping_sub(port_c_gain)),
        };
    }

    /// Writes a loaded value to register `reg` and interlocks the register.
    pub fn write_reg_interlock(&mut self, reg: u8, value: u32, cycles: u64, port_c_gain: u64)
        requires
            reg < 16,
        ensures
            final(self).arm9.regs.cur@ == old(self).arm9.regs.cur@.update(reg as int, value),
            final(self).arm9.regs == (Regs {
                cur: final(self).arm9.regs.cur,
                ..old(self).arm9.regs
            }),
            final(self).arm9.interlocks@ == old(self).arm9.interlocks@.update(
                reg as int,
                Interlock::spec_starting(old(self).arm9.cur_time, cycles, port_c_gain),
            ),
            final(self).arm9 == (Arm9 {
                regs: final(self).arm9.regs,
                interlocks: final(self).arm9.interlocks,
                ..old(self).arm9
            }),
            final(self).memory == old(self).memory,
    {
        self.arm9.regs.cur[reg as usize] = value;
        self.add_interlock(reg, cycles, port_c_gain);
    }

    /// Writes a computed value to register `reg`, which is available to the
    /// address and operand ports at once.
    pub fn write_reg_clear_interlock_ab(&mut self, reg: u8, value: u32)
        requires
            reg < 16,
        ensures
            final(self).arm9.regs.cur@ == old(self).arm9.regs.cur@.update(reg as int, value),
            final(self).arm9.regs == (Regs {
                cur: final(self).arm9.regs.cur,
                ..old(self).arm9.regs
            }),
            final(self).arm9.interlocks@ == old(self).arm9.interlocks@.update(
                reg as int,
                (Interlock { port_ab: 0, port_c: old(self).arm9.interlocks[reg as int].port_c }),
            ),
            final(self).arm9 == (Arm9 {
                regs: final(self).arm9.regs,
                interlocks: final(self).arm9.interlocks,
                ..old(self).arm9
            }),
            final(self).memory == old(self).memory,
    {
        self.arm9.regs.cur[reg as usize] = value;
        let port_c: u64 = self.arm9.interlocks[reg as usize].port_c;
        self.arm9.interlocks[reg as usize] = Interlock { port_ab: 0, port_c };
    }
}

} // verus!
