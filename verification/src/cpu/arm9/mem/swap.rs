//! The instructions that swap a register with memory.

use crate::cpu::arm9::{
    rotate_right, spec_can_write, spec_read_32, spec_rotate_right, spec_timings, spec_wait_until,
    spec_write_32, spec_write_8, Emu, Interlock, Outcome,
};
use crate::cpu::regs::Regs;
use crate::bytes::byte_at;
use vstd::prelude::*;

verus! {

/// The number of a register, from the four bits of an instruction at `shift`.
pub open spec fn spec_reg_field(instr: u32, shift: u32) -> u8 {
    (instr >> shift & 0xF) as u8
}

/// The number of a register, from the four bits of an instruction at `shift`.
pub fn reg_field(instr: u32, shift: u32) -> (reg: u8)
    requires
        shift < 32,
    ensures
        reg == spec_reg_field(instr, shift),
        reg < 16,
{
    let reg: u8 = (instr >> shift & 0xF) as u8;
    assert(((instr >> shift & 0xF) as u8) < 16) by (bit_vector);
    reg
}

/// The visible registers once the next instruction was fetched.
pub open spec fn spec_prefetched(cur: Seq<u32>) -> Seq<u32> {
    cur.update(15, cur[15].wrapping_add(4))
}

/// The cycles for which a loaded word keeps its register interlocked: one
/// more for a word that had to be rotated into place.
pub open spec fn spec_load_interlock(addr: u32) -> u64 {
    if addr & 3 != 0 {
        2
    } else {
        1
    }
}

/// Swaps a word between a register and memory.
///
/// Bits 16 to 19 of the instruction name the register that holds the
/// address, bits 0 to 3 the register to store and bits 12 to 15 the register
/// to load. The word is loaded from the address rounded down to a multiple of
/// four and rotated so that the addressed byte comes lowest, and the stored
/// register is written over it. Memory that may not be written is not read
/// either.
pub fn swp(emu: &mut Emu, instr: u32) -> (outcome: Outcome)
    ensures
        ({
            let before = old(emu).arm9;
            let after = final(emu).arm9;
            let addr_reg = spec_reg_field(instr, 16);
            let src_reg = spec_reg_field(instr, 0);
            let dst_reg = spec_reg_field(instr, 12);
            let addr = before.regs.cur[addr_reg as int];
            let fetched = spec_prefetched(before.regs.cur@);
            let started = spec_wait_until(
                before.cur_time,
                before.interlocks[addr_reg as int].port_ab,
            );
            let timings = spec_timings(before.cp15.timings@, addr);
            &&& after.bus_cycles == before.bus_cycles.wrapping_add(2)
            &&& after.fetches == before.fetches.wrapping_add(1)
            &&& after.cp15 == before.cp15
            &&& after.regs == (Regs { cur: after.regs.cur, ..before.regs })
            &&& if spec_can_write(before.cp15.perm_map@, addr, before.regs.is_in_priv_mode()) {
                let loaded = spec_rotate_right(
                    spec_read_32(old(emu).memory@, addr),
                    (addr & 3) << 3,
                );
                let loaded_at = started.wrapping_add(timings.r_n32_data as u64);
                &&& outcome == Outcome::Done
                &&& final(emu).memory@ == spec_write_32(
                    old(emu).memory@,
                    addr,
                    fetched[src_reg as int],
                )
                &&& after.regs.cur@ == fetched.update(dst_reg as int, loaded)
                &&& after.cur_time == loaded_at
                &&& after.data_cycles == timings.w_n32_data
                &&& after.interlocks@ == before.interlocks@.update(
                    dst_reg as int,
                    Interlock::spec_starting(loaded_at, spec_load_interlock(addr), 1),
                )
            } else {
                &&& outcome == Outcome::DataAbort { addr }
                &&& final(emu).memory@ == old(emu).memory@
                &&& after.regs.cur@ == fetched
                &&& after.cur_time == started.wrapping_add(1)
                &&& after.data_cycles == 1
                &&& after.interlocks == before.interlocks
            }
        }),
{
    let addr_reg: u8 = reg_field(instr, 16);
    emu.apply_reg_interlock_1::<false>(addr_reg);
    emu.add_bus_cycles(2);
    let addr: u32 = emu.arm9.regs.cur[addr_reg as usize];
    emu.prefetch_arm();
    // What may be written may be read.
    if !emu.can_write(addr, emu.arm9.regs.is_in_priv_mode()) {
        emu.arm9.data_cycles = 1;
        emu.add_cycles(1);
        return Outcome::DataAbort { addr };
    }
    let loaded_value: u32 = rotate_right(emu.read_32(addr), (addr & 3) << 3);
    let load_cycles: u8 = emu.timings(addr).r_n32_data;
    emu.add_cycles(load_cycles as u64);
    let src_reg: u8 = reg_field(instr, 0);
    let stored_value: u32 = emu.arm9.regs.cur[src_reg as usize];
    emu.write_32(addr, stored_value);
    emu.arm9.data_cycles = emu.timings(addr).w_n32_data;
    let dst_reg: u8 = reg_field(instr, 12);
    emu.write_reg_interlock(
        dst_reg,
        loaded_value,
        if addr & 3 != 0 {
            2
        } else {
            1
        },
        1,
    );
    Outcome::Done
}

/// Swaps a byte between a register and memory.
///
/// The registers are named as for a word. The byte at the address is loaded
/// into the whole of the loaded register, and the lowest byte of the stored
/// register is written over it.
pub fn swpb(emu: &mut Emu, instr: u32) -> (outcome: Outcome)
    ensures
        ({
            let before = old(emu).arm9;
            let after = final(emu).arm9;
            let addr_reg = spec_reg_field(instr, 16);
            let src_reg = spec_reg_field(instr, 0);
            let dst_reg = spec_reg_field(instr, 12);
            let addr = before.regs.cur[addr_reg as int];
            let fetched = spec_prefetched(before.regs.cur@);
            let started = spec_wait_until(
                before.cur_time,
                before.interlocks[addr_reg as int].port_ab,
            );
            let timings = spec_timings(before.cp15.timings@, addr);
            &&& after.bus_cycles == before.bus_cycles.wrapping_add(2)
            &&& after.fetches == before.fetches.wrapping_add(1)
            &&& after.cp15 == before.cp15
            &&& after.regs == (Regs { cur: after.regs.cur, ..before.regs })
            &&& if spec_can_write(before.cp15.perm_map@, addr, before.regs.is_in_priv_mode()) {
                let loaded_at = started.wrapping_add(timings.r_n16_data as u64);
                &&& outcome == Outcome::Done
                &&& final(emu).memory@ == spec_write_8(
                    old(emu).memory@,
                    addr,
                    fetched[src_reg as int] as u8,
                )
                &&& after.regs.cur@ == fetched.update(
                    dst_reg as int,
                    byte_at(old(emu).memory@, addr as int) as u32,
                )
                &&& after.cur_time == loaded_at
                &&& after.data_cycles == timings.w_n16_data
                &&& after.interlocks@ == before.interlocks@.update(
                    dst_reg as int,
                    Interlock::spec_starting(loaded_at, 2, 1),
                )
            } else {
                &&& outcome == Outcome::DataAbort { addr }
                &&& final(emu).memory@ == old(emu).memory@
                &&& after.regs.cur@ == fetched
                &&& after.cur_time == started.wrapping_add(1)
                &&& after.data_cycles == 1
                &&& after.interlocks == before.interlocks
            }
        }),
{
    let addr_reg: u8 = reg_field(instr, 16);
    emu.apply_reg_interlock_1::<false>(addr_reg);
    emu.add_bus_cycles(2);
    let addr: u32 = emu.arm9.regs.cur[addr_reg as usize];
    emu.prefetch_arm();
    // What may be written may be read.
    if !emu.can_write(addr, emu.arm9.regs.is_in_priv_mode()) {
        emu.arm9.data_cycles = 1;
        emu.add_cycles(1);
        return Outcome::DataAbort { addr };
    }
    let loaded_value: u32 = emu.read_8(addr) as u32;
    let load_cycles: u8 = emu.timings(addr).r_n16_data;
    emu.add_cycles(load_cycles as u64);
    let src_reg: u8 = reg_field(instr, 0);
    let stored_value: u8 = #[verifier::truncate]
    (emu.arm9.regs.cur[src_reg as usize] as u8);
    emu.write_8(addr, stored_value);
    emu.arm9.data_cycles = emu.timings(addr).w_n16_data;
    let dst_reg: u8 = reg_field(instr, 12);
    emu.write_reg_interlock(dst_reg, loaded_value, 2, 1);
    Outcome::Done
}

} // verus!
