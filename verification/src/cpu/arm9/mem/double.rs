//! The instructions that transfer a pair of registers to or from memory.
//!
//! Bits 12 to 15 of the instruction name the first register of the pair,
//! which has to be even; the second is the one after it. Bits 16 to 19 name
//! the base register. The offset is either the eight bits of the instruction
//! at bits 0 to 3 and 8 to 11, or the register that bits 0 to 3 name.

use crate::cpu::arm9::mem::swap::{reg_field, spec_prefetched, spec_reg_field};
use crate::cpu::arm9::{
    spec_can_read, spec_can_write, spec_read_32, spec_timings, spec_wait_until, spec_write_32, Emu,
    Interlock, Outcome, StateSource, Timings,
};
use crate::cpu::regs::Regs;
use vstd::prelude::*;

verus! {

/// How an instruction applies its offset to the base register.
#[derive(Clone, Copy, Debug, PartialEq, Eq, Structural)]
pub enum MiscAddressing {
    /// The access goes to the base, and the base register moves by the
    /// offset afterwards.
    Post,
    /// The access goes to the base plus the offset, and the base register
    /// stays.
    PreNoWb,
    /// The access goes to the base plus the offset, and the base register
    /// moves there.
    Pre,
}

impl MiscAddressing {
    pub open spec fn spec_preincrement(self) -> bool {
        self != MiscAddressing::Post
    }

    /// Whether the offset is applied before the access.
    #[verifier::when_used_as_spec(spec_preincrement)]
    pub fn preincrement(self) -> (r: bool)
        ensures
            r == self.spec_preincrement(),
    {
        match self {
            MiscAddressing::Post => false,
            _ => true,
        }
    }

    pub open spec fn spec_writeback(self) -> bool {
        self != MiscAddressing::PreNoWb
    }

    /// Whether the base register is moved.
    #[verifier::when_used_as_spec(spec_writeback)]
    pub fn writeback(self) -> (r: bool)
        ensures
            r == self.spec_writeback(),
    {
        match self {
            MiscAddressing::PreNoWb => false,
            _ => true,
        }
    }
}

/// The offset that the instruction itself holds.
pub open spec fn spec_imm_offset(instr: u32) -> u32 {
    (instr & 0xF) | (instr >> 4 & 0xF0)
}

/// The unsigned offset of an instruction.
pub open spec fn spec_abs_offset(cur: Seq<u32>, instr: u32, off_imm: bool) -> u32 {
    if off_imm {
        spec_imm_offset(instr)
    } else {
        cur[spec_reg_field(instr, 0) as int]
    }
}

/// An address moved by an offset, up or down.
pub open spec fn spec_apply_offset(addr: u32, abs_offset: u32, upwards: bool) -> u32 {
    if upwards {
        addr.wrapping_add(abs_offset)
    } else {
        addr.wrapping_sub(abs_offset)
    }
}

/// The address of the first access.
pub open spec fn spec_pair_addr(
    base: u32,
    abs_offset: u32,
    upwards: bool,
    addressing: MiscAddressing,
) -> u32 {
    if addressing.preincrement() {
        spec_apply_offset(base, abs_offset, upwards)
    } else {
        base
    }
}

/// The time at which the instruction starts: once the base register, and the
/// offset register where there is one, are available.
pub open spec fn spec_pair_started(
    cur_time: u64,
    interlocks: Seq<Interlock>,
    instr: u32,
    off_imm: bool,
) -> u64 {
    let base_ready = spec_wait_until(
        cur_time,
        interlocks[spec_reg_field(instr, 16) as int].port_ab,
    );
    if off_imm {
        base_ready
    } else {
        spec_wait_until(base_ready, interlocks[spec_reg_field(instr, 0) as int].port_ab)
    }
}

/// The cycles of the second access of a pair.
pub open spec fn spec_second_cycles(timings: Timings, addr: u32, write: bool) -> u8 {
    if write {
        if addr & 0x3FC == 0 {
            timings.w_n32_data
        } else {
            timings.w_s32_data
        }
    } else {
        if addr & 0x3FC == 0 {
            timings.r_n32_data
        } else {
            timings.r_s32_data
        }
    }
}

/// The visible registers and the interlocks once the base register was
/// moved, where it is.
pub open spec fn spec_base_moved(
    cur: Seq<u32>,
    interlocks: Seq<Interlock>,
    base_reg: u8,
    moves: bool,
    to: u32,
) -> (Seq<u32>, Seq<Interlock>) {
    if moves {
        (
            cur.update(base_reg as int, to),
            interlocks.update(
                base_reg as int,
                (Interlock { port_ab: 0, port_c: interlocks[base_reg as int].port_c }),
            ),
        )
    } else {
        (cur, interlocks)
    }
}

/// Reads the offset of an instruction and waits for the registers that the
/// address is made of.
fn read_offset<const OFF_IMM: bool>(emu: &mut Emu, instr: u32, base_reg: u8) -> (abs_offset: u32)
    requires
        base_reg == spec_reg_field(instr, 16),
        base_reg < 16,
    ensures
        abs_offset == spec_abs_offset(old(emu).arm9.regs.cur@, instr, OFF_IMM),
        final(emu).arm9 == (crate::cpu::arm9::Arm9 {
            cur_time: spec_pair_started(
                old(emu).arm9.cur_time,
                old(emu).arm9.interlocks@,
                instr,
                OFF_IMM,
            ),
            ..old(emu).arm9
        }),
        final(emu).memory == old(emu).memory,
{
    if OFF_IMM {
        emu.apply_reg_interlock_1::<false>(base_reg);
        (instr & 0xF) | (instr >> 4 & 0xF0)
    } else {
        let off_reg: u8 = reg_field(instr, 0);
        emu.apply_reg_interlocks_2(base_reg, off_reg);
        emu.arm9.regs.cur[off_reg as usize]
    }
}

/// Loads a pair of registers.
///
/// With an odd first register the instruction is undefined, and nothing
/// happens. Otherwise two words are loaded from the address and the word
/// after it. An access that the protection unit refuses ends the
/// instruction in a data abort, with what was loaded before still loaded and
/// the base register where it was. A load of the program counter, as the
/// second register of the pair, has the pipeline filled anew. The base
/// register is moved unless it was loaded as the second register.
pub fn ldrd<const OFF_IMM: bool, const UPWARDS: bool>(
    emu: &mut Emu,
    instr: u32,
    addressing: MiscAddressing,
) -> (outcome: Outcome)
    ensures
        ({
            let before = old(emu).arm9;
            let after = final(emu).arm9;
            let dst_reg = spec_reg_field(instr, 12);
            let base_reg = spec_reg_field(instr, 16);
            let abs_offset = spec_abs_offset(before.regs.cur@, instr, OFF_IMM);
            let base = before.regs.cur[base_reg as int];
            let addr = spec_pair_addr(base, abs_offset, UPWARDS, addressing);
            let next_addr = addr.wrapping_add(4);
            let started = spec_pair_started(before.cur_time, before.interlocks@, instr, OFF_IMM);
            let fetched = spec_prefetched(before.regs.cur@);
            let privileged = before.regs.is_in_priv_mode();
            let first_word = spec_read_32(old(emu).memory@, addr);
            let first_cycles = spec_timings(before.cp15.timings@, addr).r_n32_data;
            let second_cycles = spec_second_cycles(
                spec_timings(before.cp15.timings@, next_addr),
                next_addr,
                false,
            );
            &&& final(emu).memory@ == old(emu).memory@
            &&& after.cp15 == before.cp15
            &&& after.regs == (Regs { cur: after.regs.cur, ..before.regs })
            &&& if dst_reg % 2 != 0 {
                &&& outcome == Outcome::Undefined
                &&& after == before
            } else {
                &&& after.bus_cycles == before.bus_cycles.wrapping_add(2)
                &&& after.fetches == before.fetches.wrapping_add(1)
                &&& if !spec_can_read(before.cp15.perm_map@, addr, privileged) {
                    &&& outcome == Outcome::DataAbort { addr }
                    &&& after.regs.cur@ == fetched
                    &&& after.interlocks == before.interlocks
                    &&& after.cur_time == started.wrapping_add(2)
                    &&& after.data_cycles == 1
                } else if !spec_can_read(before.cp15.perm_map@, next_addr, privileged) {
                    &&& outcome == Outcome::DataAbort { addr: next_addr }
                    &&& after.regs.cur@ == fetched.update(dst_reg as int, first_word)
                    &&& after.interlocks == before.interlocks
                    &&& after.cur_time == started.wrapping_add(first_cycles as u64).wrapping_add(1)
                    &&& after.data_cycles == 1
                } else {
                    let loaded = fetched.update(dst_reg as int, first_word).update(
                        dst_reg + 1,
                        spec_read_32(old(emu).memory@, next_addr),
                    );
                    let moved = spec_base_moved(
                        loaded,
                        before.interlocks@,
                        base_reg,
                        addressing.writeback() && dst_reg + 1 != base_reg,
                        spec_apply_offset(base, abs_offset, UPWARDS),
                    );
                    &&& after.regs.cur@ == moved.0
                    &&& after.interlocks@ == moved.1
                    &&& if dst_reg == 14 {
                        &&& outcome == Outcome::ReloadPipeline(
                            if before.cp15.control.t_bit_load_disabled() {
                                StateSource::Arm
                            } else {
                                StateSource::R15Bit0
                            },
                        )
                        &&& after.cur_time == started.wrapping_add(
                            first_cycles as u64,
                        ).wrapping_add((second_cycles + 1) as u64)
                        &&& after.data_cycles == before.data_cycles
                    } else {
                        &&& outcome == Outcome::Done
                        &&& after.cur_time == started.wrapping_add(first_cycles as u64)
                        &&& after.data_cycles == second_cycles
                    }
                }
            }
        }),
{
    let dst_base_reg: u8 = reg_field(instr, 12);
    if dst_base_reg % 2 != 0 {
        return Outcome::Undefined;
    }
    let base_reg: u8 = reg_field(instr, 16);
    let abs_offset: u32 = read_offset::<OFF_IMM>(emu, instr, base_reg);
    emu.add_bus_cycles(2);
    let base: u32 = emu.arm9.regs.cur[base_reg as usize];
    let moved_base: u32 = if UPWARDS {
        base.wrapping_add(abs_offset)
    } else {
        base.wrapping_sub(abs_offset)
    };
    let start_addr: u32 = if addressing.preincrement() {
        moved_base
    } else {
        base
    };
    emu.prefetch_arm();
    let privileged: bool = emu.arm9.regs.is_in_priv_mode();
    if !emu.can_read(start_addr, privileged) {
        // As in a block load: the instruction runs to its end before the
        // abort is taken.
        emu.arm9.data_cycles = 1;
        emu.add_cycles(2);
        return Outcome::DataAbort { addr: start_addr };
    }
    let first_word: u32 = emu.read_32(start_addr);
    emu.arm9.regs.cur[dst_base_reg as usize] = first_word;
    let first_data_cycles: u8 = emu.timings(start_addr).r_n32_data;
    let next_addr: u32 = start_addr.wrapping_add(4);
    emu.add_cycles(first_data_cycles as u64);
    if !emu.can_read(next_addr, privileged) {
        emu.arm9.data_cycles = 1;
        emu.add_cycles(1);
        return Outcome::DataAbort { addr: next_addr };
    }
    let second_word: u32 = emu.read_32(next_addr);
    emu.arm9.regs.cur[dst_base_reg as usize + 1] = second_word;
    let timings = emu.timings(next_addr);
    let cycles: u8 = if next_addr & 0x3FC == 0 {
        timings.r_n32_data
    } else {
        timings.r_s32_data
    };
    let outcome: Outcome;
    if dst_base_reg == 14 {
        emu.add_cycles(cycles as u64 + 1);
        outcome =
        if emu.arm9.cp15.control.t_bit_load_disabled() {
            Outcome::ReloadPipeline(StateSource::Arm)
        } else {
            Outcome::ReloadPipeline(StateSource::R15Bit0)
        };
    } else {
        emu.arm9.data_cycles = cycles;
        outcome = Outcome::Done;
    }
    if addressing.writeback() && dst_base_reg + 1 != base_reg {
        emu.write_reg_clear_interlock_ab(base_reg, moved_base);
    }
    outcome
}

/// Stores a pair of registers.
///
/// With an odd first register the instruction is undefined, and nothing
/// happens. Otherwise the two registers are stored to the address and the
/// word after it, once the data of the first are available. An access that
/// the protection unit refuses ends the instruction in a data abort, with
/// what was stored before still stored and the base register where it was.
pub fn strd<const OFF_IMM: bool, const UPWARDS: bool>(
    emu: &mut Emu,
    instr: u32,
    addressing: MiscAddressing,
) -> (outcome: Outcome)
    ensures
        ({
            let before = old(emu).arm9;
            let after = final(emu).arm9;
            let src_reg = spec_reg_field(instr, 12);
            let base_reg = spec_reg_field(instr, 16);
            let abs_offset = spec_abs_offset(before.regs.cur@, instr, OFF_IMM);
            let base = before.regs.cur[base_reg as int];
            let addr = spec_pair_addr(base, abs_offset, UPWARDS, addressing);
            let next_addr = addr.wrapping_add(4);
            let started = spec_wait_until(
                spec_pair_started(before.cur_time, before.interlocks@, instr, OFF_IMM),
                before.interlocks[src_reg as int].port_c,
            );
            let fetched = spec_prefetched(before.regs.cur@);
            let privileged = before.regs.is_in_priv_mode();
            let first_cycles = spec_timings(before.cp15.timings@, addr).w_n32_data;
            let first_stored = spec_write_32(old(emu).memory@, addr, fetched[src_reg as int]);
            &&& after.cp15 == before.cp15
            &&& after.regs == (Regs { cur: after.regs.cur, ..before.regs })
            &&& if src_reg % 2 != 0 {
                &&& outcome == Outcome::Undefined
                &&& after == before
                &&& final(emu).memory@ == old(emu).memory@
            } else {
                &&& after.bus_cycles == before.bus_cycles.wrapping_add(2)
                &&& after.fetches == before.fetches.wrapping_add(1)
                &&& if !spec_can_write(before.cp15.perm_map@, addr, privileged) {
                    &&& outcome == Outcome::DataAbort { addr }
                    &&& final(emu).memory@ == old(emu).memory@
                    &&& after.regs.cur@ == fetched
                    &&& after.interlocks == before.interlocks
                    &&& after.cur_time == started.wrapping_add(2)
                    &&& after.data_cycles == 1
                } else if !spec_can_write(before.cp15.perm_map@, next_addr, privileged) {
                    &&& outcome == Outcome::DataAbort { addr: next_addr }
                    &&& final(emu).memory@ == first_stored
                    &&& after.regs.cur@ == fetched
                    &&& after.interlocks == before.interlocks
                    &&& after.cur_time == started.wrapping_add(first_cycles as u64).wrapping_add(1)
                    &&& after.data_cycles == 1
                } else {
                    let moved = spec_base_moved(
                        fetched,
                        before.interlocks@,
                        base_reg,
                        addressing.writeback(),
                        spec_apply_offset(base, abs_offset, UPWARDS),
                    );
                    &&& outcome == Outcome::Done
                    &&& final(emu).memory@ == spec_write_32(
                        first_stored,
                        next_addr,
                        fetched[src_reg + 1],
                    )
                    &&& after.regs.cur@ == moved.0
                    &&& after.interlocks@ == moved.1
                    &&& after.cur_time == started.wrapping_add(first_cycles as u64)
                    &&& after.data_cycles == spec_second_cycles(
                        spec_timings(before.cp15.timings@, next_addr),
                        next_addr,
                        true,
                    )
                }
            }
        }),
{
    let src_base_reg: u8 = reg_field(instr, 12);
    if src_base_reg % 2 != 0 {
        return Outcome::Undefined;
    }
    let base_reg: u8 = reg_field(instr, 16);
    let abs_offset: u32 = read_offset::<OFF_IMM>(emu, instr, base_reg);
    let base: u32 = emu.arm9.regs.cur[base_reg as usize];
    let moved_base: u32 = if UPWARDS {
        base.wrapping_add(abs_offset)
    } else {
        base.wrapping_sub(abs_offset)
    };
    let start_addr: u32 = if addressing.preincrement() {
        moved_base
    } else {
        base
    };
    emu.prefetch_arm();
    let privileged: bool = emu.arm9.regs.is_in_priv_mode();
    emu.apply_reg_interlock_1::<true>(src_base_reg);
    if !emu.can_write(start_addr, privileged) {
        // As in a block store: the instruction runs to its end before the
        // abort is taken.
        emu.arm9.data_cycles = 1;
        emu.add_bus_cycles(2);
        emu.add_cycles(2);
        return Outcome::DataAbort { addr: start_addr };
    }
    let first_value: u32 = emu.arm9.regs.cur[src_base_reg as usize];
    emu.write_32(start_addr, first_value);
    let first_data_cycles: u8 = emu.timings(start_addr).w_n32_data;
    let next_addr: u32 = start_addr.wrapping_add(4);
    emu.add_cycles(first_data_cycles as u64);
    if !emu.can_write(next_addr, privileged) {
        emu.arm9.data_cycles = 1;
        emu.add_bus_cycles(2);
        emu.add_cycles(1);
        return Outcome::DataAbort { addr: next_addr };
    }
    let second_value: u32 = emu.arm9.regs.cur[src_base_reg as usize + 1];
    emu.write_32(next_addr, second_value);
    let timings = emu.timings(next_addr);
    emu.arm9.data_cycles =
    if next_addr & 0x3FC == 0 {
        timings.w_n32_data
    } else {
        timings.w_s32_data
    };
    emu.add_bus_cycles(2);
    if addressing.writeback() {
        emu.write_reg_clear_interlock_ab(base_reg, moved_base);
    }
    Outcome::Done
}

} // verus!
