//! The instructions that transfer a single register to or from memory: a
//! word, a halfword or a byte.
//!
//! Bits 12 to 15 of the instruction name the register that is transferred,
//! bits 16 to 19 the base register. Transfers of words and unsigned bytes take
//! as their offset either the low twelve bits of the instruction or a
//! register, named by bits 0 to 3, that is shifted by the amount in bits 7 to
//! 11. Transfers of halfwords and signed bytes take either the eight bits of
//! the instruction at bits 0 to 3 and 8 to 11, or a register as it is.

use crate::cpu::arm9::mem::double::{spec_apply_offset, spec_base_moved, spec_imm_offset};
use crate::cpu::arm9::mem::swap::{
    reg_field, spec_load_interlock, spec_prefetched, spec_reg_field,
};
use crate::cpu::arm9::{
    rotate_right, spec_can_read, spec_can_write, spec_read_16, spec_read_32, spec_rotate_right,
    spec_timings, spec_wait_until, spec_write_16, spec_write_32, spec_write_8, Arm9, Emu,
    Interlock, Outcome, StateSource, Timings,
};
use crate::cpu::psr::Cpsr;
use crate::cpu::regs::Regs;
use crate::bytes::byte_at;
use vstd::prelude::*;

verus! {

/// A way to shift the offset register.
#[derive(Clone, Copy, Debug, PartialEq, Eq, Structural)]
pub enum ShiftTy {
    /// To the left.
    Lsl,
    /// To the right, filling with zeros.
    Lsr,
    /// To the right, filling with the sign.
    Asr,
    /// Around to the right.
    Ror,
}

/// Where the offset of a transfer of a word or an unsigned byte comes from.
#[derive(Clone, Copy, Debug, PartialEq, Eq, Structural)]
pub enum WbOffTy {
    /// From the instruction.
    Imm,
    /// From a register, shifted.
    Reg(ShiftTy),
}

/// How a transfer of a word or an unsigned byte applies its offset.
#[derive(Clone, Copy, Debug, PartialEq, Eq, Structural)]
pub enum WbAddressing {
    /// The access goes to the base, and the base register moves by the
    /// offset afterwards.
    Post,
    /// As `Post`, with the access made as in user mode.
    PostUser,
    /// The access goes to the base plus the offset, and the base register
    /// stays.
    PreNoWb,
    /// The access goes to the base plus the offset, and the base register
    /// moves there.
    Pre,
}

impl WbAddressing {
    pub open spec fn spec_preincrement(self) -> bool {
        self == WbAddressing::PreNoWb || self == WbAddressing::Pre
    }

    /// Whether the offset is applied before the access.
    #[verifier::when_used_as_spec(spec_preincrement)]
    pub fn preincrement(self) -> (r: bool)
        ensures
            r == self.spec_preincrement(),
    {
        match self {
            WbAddressing::PreNoWb => true,
            WbAddressing::Pre => true,
            _ => false,
        }
    }

    pub open spec fn spec_writeback(self) -> bool {
        self != WbAddressing::PreNoWb
    }

    /// Whether the base register is moved.
    #[verifier::when_used_as_spec(spec_writeback)]
    pub fn writeback(self) -> (r: bool)
        ensures
            r == self.spec_writeback(),
    {
        match self {
            WbAddressing::PreNoWb => false,
            _ => true,
        }
    }
}

/// A value shifted by an amount from 0 to 31 that an instruction holds. An
/// amount of 0 stands for 32 in a shift to the right, and in a rotation for a
/// rotation by one bit through the carry flag `carry`.
pub open spec fn spec_shift_imm(ty: ShiftTy, value: u32, shift: u32, carry: bool) -> u32 {
    match ty {
        ShiftTy::Lsl => value << shift,
        ShiftTy::Lsr => if shift == 0 {
            0
        } else {
            value >> shift
        },
        ShiftTy::Asr => if shift == 0 {
            if value & 0x8000_0000 != 0 {
                0xFFFF_FFFF
            } else {
                0
            }
        } else {
            (value as i32 >> shift) as u32
        },
        ShiftTy::Ror => if shift == 0 {
            (if carry {
                0x8000_0000u32
            } else {
                0u32
            }) | value >> 1
        } else {
            spec_rotate_right(value, shift)
        },
    }
}

/// Shifts a value by an amount that an instruction holds.
pub fn shift_imm(ty: ShiftTy, value: u32, shift: u32, carry: bool) -> (r: u32)
    requires
        shift < 32,
    ensures
        r == spec_shift_imm(ty, value, shift, carry),
{
    match ty {
        ShiftTy::Lsl => value << shift,
        ShiftTy::Lsr => if shift == 0 {
            0
        } else {
            value >> shift
        },
        ShiftTy::Asr => if shift == 0 {
            if value & 0x8000_0000 != 0 {
                0xFFFF_FFFF
            } else {
                0
            }
        } else {
            #[verifier::truncate]
            ((#[verifier::truncate] (value as i32) >> shift) as u32)
        },
        ShiftTy::Ror => if shift == 0 {
            (if carry {
                0x8000_0000u32
            } else {
                0u32
            }) | value >> 1
        } else {
            rotate_right(value, shift)
        },
    }
}

impl Cpsr {
    pub open spec fn spec_carry(self) -> bool {
        self.0 & 1u32 << 29 != 0
    }

    /// The carry flag (bit 29).
    #[verifier::when_used_as_spec(spec_carry)]
    pub fn carry(self) -> (r: bool)
        ensures
            r == self.spec_carry(),
    {
        self.0 & 1u32 << 29 != 0
    }
}

/// What is transferred.
#[derive(Clone, Copy, Debug, PartialEq, Eq, Structural)]
pub enum Width {
    Byte,
    Half,
    Word,
}

/// Where an offset comes from.
#[derive(Clone, Copy, Debug, PartialEq, Eq, Structural)]
pub enum Offset {
    /// From the low twelve bits of the instruction.
    Imm12,
    /// From the eight bits of the instruction at bits 0 to 3 and 8 to 11.
    Imm8,
    /// From a register, shifted.
    Shifted(ShiftTy),
    /// From a register as it is.
    Plain,
}

/// A transfer of a single register.
#[derive(Clone, Copy, Debug, PartialEq, Eq, Structural)]
pub struct Transfer {
    /// Whether the register is loaded rather than stored.
    pub load: bool,
    pub width: Width,
    /// Whether a loaded value is extended by its sign.
    pub signed: bool,
    pub offset: Offset,
    /// Whether the offset is added rather than subtracted.
    pub upwards: bool,
    /// Whether the offset is applied before the access.
    pub preincrement: bool,
    /// Whether the base register is moved.
    pub writeback: bool,
    /// Whether the access is made as in user mode.
    pub as_user: bool,
}

impl Offset {
    pub open spec fn spec_is_imm(self) -> bool {
        self == Offset::Imm12 || self == Offset::Imm8
    }

    /// Whether the offset comes from the instruction.
    #[verifier::when_used_as_spec(spec_is_imm)]
    pub fn is_imm(self) -> (r: bool)
        ensures
            r == self.spec_is_imm(),
    {
        match self {
            Offset::Imm12 => true,
            Offset::Imm8 => true,
            _ => false,
        }
    }
}

impl Transfer {
    /// Whether the transfer is one of a word or an unsigned byte.
    pub open spec fn spec_is_wide(self) -> bool {
        self.offset == Offset::Imm12 || self.offset is Shifted
    }

    /// Whether the transfer is one of a word or an unsigned byte.
    #[verifier::when_used_as_spec(spec_is_wide)]
    pub fn is_wide(self) -> (r: bool)
        ensures
            r == self.spec_is_wide(),
    {
        match self.offset {
            Offset::Imm12 => true,
            Offset::Shifted(_) => true,
            _ => false,
        }
    }
}

/// The amount by which an offset register is shifted.
pub open spec fn spec_shift_field(instr: u32) -> u32 {
    instr >> 7 & 0x1F
}

/// The amount by which an offset register is shifted.
pub fn shift_field(instr: u32) -> (shift: u32)
    ensures
        shift == spec_shift_field(instr),
        shift < 32,
{
    let shift: u32 = instr >> 7 & 0x1F;
    assert(instr >> 7 & 0x1F < 32) by (bit_vector);
    shift
}

/// The unsigned offset of a transfer.
pub open spec fn spec_offset(regs: Regs, instr: u32, offset: Offset) -> u32 {
    match offset {
        Offset::Imm12 => instr & 0xFFF,
        Offset::Imm8 => spec_imm_offset(instr),
        Offset::Shifted(ty) => spec_shift_imm(
            ty,
            regs.cur[spec_reg_field(instr, 0) as int],
            spec_shift_field(instr),
            regs.cpsr.carry(),
        ),
        Offset::Plain => regs.cur[spec_reg_field(instr, 0) as int],
    }
}

/// The time at which a transfer starts: once the base register, the offset
/// register where there is one, and for a store the data of the stored
/// register are available.
pub open spec fn spec_transfer_started(
    cur_time: u64,
    interlocks: Seq<Interlock>,
    instr: u32,
    transfer: Transfer,
) -> u64 {
    let base_ready = spec_wait_until(
        cur_time,
        interlocks[spec_reg_field(instr, 16) as int].port_ab,
    );
    let offset_ready = if transfer.offset.is_imm() {
        base_ready
    } else {
        spec_wait_until(base_ready, interlocks[spec_reg_field(instr, 0) as int].port_ab)
    };
    if transfer.load {
        offset_ready
    } else {
        spec_wait_until(offset_ready, interlocks[spec_reg_field(instr, 12) as int].port_c)
    }
}

/// The cycles for which a transfer holds the bus ahead of its access.
pub open spec fn spec_transfer_bus_cycles(transfer: Transfer) -> u64 {
    if transfer.offset is Shifted {
        2
    } else {
        1
    }
}

/// The cycles that a transfer spends before its access: one to shift the
/// offset register.
pub open spec fn spec_transfer_lead(transfer: Transfer) -> u64 {
    if transfer.offset is Shifted {
        1
    } else {
        0
    }
}

/// The cycles for which a transfer that does not end as most do holds the
/// bus once more: none for a transfer with a shifted offset register, three
/// for a refused store of a halfword, and one for the rest.
pub open spec fn spec_transfer_extra_bus_cycles(transfer: Transfer, aborted: bool) -> u64 {
    if transfer.offset is Shifted {
        0
    } else if aborted && !transfer.load && !transfer.is_wide() {
        3
    } else {
        1
    }
}

/// The address of the access.
pub open spec fn spec_transfer_addr(regs: Regs, instr: u32, transfer: Transfer) -> u32 {
    let base = regs.cur[spec_reg_field(instr, 16) as int];
    if transfer.preincrement {
        spec_apply_offset(base, spec_offset(regs, instr, transfer.offset), transfer.upwards)
    } else {
        base
    }
}

/// Whether the access is allowed.
pub open spec fn spec_transfer_allowed(
    perm_map: Seq<u8>,
    regs: Regs,
    addr: u32,
    transfer: Transfer,
) -> bool {
    let privileged = !transfer.as_user && regs.is_in_priv_mode();
    if transfer.load {
        spec_can_read(perm_map, addr, privileged)
    } else {
        spec_can_write(perm_map, addr, privileged)
    }
}

/// The value that a load puts into its register: a word is rotated so that
/// the addressed byte comes lowest, a halfword is read from the address
/// rounded down to a multiple of two, and a halfword or a byte is extended
/// by zeros or by its sign.
pub open spec fn spec_loaded_value(memory: Seq<u8>, addr: u32, transfer: Transfer) -> u32 {
    match transfer.width {
        Width::Word => spec_rotate_right(spec_read_32(memory, addr), (addr & 3) << 3),
        Width::Half => if transfer.signed {
            (spec_read_16(memory, addr) as i16) as u32
        } else {
            spec_read_16(memory, addr) as u32
        },
        Width::Byte => if transfer.signed {
            (byte_at(memory, addr as int) as i8) as u32
        } else {
            byte_at(memory, addr as int) as u32
        },
    }
}

/// Memory after a store of `value`, of which a halfword or a byte is the
/// low part.
pub open spec fn spec_stored(memory: Seq<u8>, addr: u32, value: u32, width: Width) -> Seq<u8> {
    match width {
        Width::Word => spec_write_32(memory, addr, value),
        Width::Half => spec_write_16(memory, addr, value as u16),
        Width::Byte => spec_write_8(memory, addr, value as u8),
    }
}

/// The cycles that the access takes.
pub open spec fn spec_transfer_cycles(timings: Timings, transfer: Transfer) -> u8 {
    if transfer.width == Width::Word {
        if transfer.load {
            timings.r_n32_data
        } else {
            timings.w_n32_data
        }
    } else {
        if transfer.load {
            timings.r_n16_data
        } else {
            timings.w_n16_data
        }
    }
}

/// The cycles for which a loaded value keeps its register interlocked.
pub open spec fn spec_transfer_interlock(addr: u32, width: Width) -> u64 {
    if width == Width::Word {
        spec_load_interlock(addr)
    } else {
        2
    }
}

/// What a transfer of a single register does.
///
/// The instruction waits for its registers, holds the bus, reads its address
/// and lets the next instruction be fetched. A refused access ends it in a
/// data abort with nothing else changed. A load puts its value into its
/// register, which stays interlocked for a while, unless the register is the
/// program counter, for which the pipeline is filled anew. A store writes
/// its register, read after the fetch, to memory. In the end the base
/// register is moved, unless it is the register that was loaded.
pub open spec fn spec_transferred(
    before: Arm9,
    memory: Seq<u8>,
    after: Arm9,
    stored: Seq<u8>,
    outcome: Outcome,
    instr: u32,
    transfer: Transfer,
) -> bool {
    let reg = spec_reg_field(instr, 12);
    let base_reg = spec_reg_field(instr, 16);
    let abs_offset = spec_offset(before.regs, instr, transfer.offset);
    let addr = spec_transfer_addr(before.regs, instr, transfer);
    let fetched = spec_prefetched(before.regs.cur@);
    let started = spec_transfer_started(
        before.cur_time,
        before.interlocks@,
        instr,
        transfer,
    ).wrapping_add(spec_transfer_lead(transfer));
    let cycles = spec_transfer_cycles(spec_timings(before.cp15.timings@, addr), transfer);
    let moved_to = spec_apply_offset(
        before.regs.cur[base_reg as int],
        abs_offset,
        transfer.upwards,
    );
    &&& after.cp15 == before.cp15
    &&& after.regs == (Regs { cur: after.regs.cur, ..before.regs })
    &&& after.fetches == before.fetches.wrapping_add(1)
    &&& if !spec_transfer_allowed(before.cp15.perm_map@, before.regs, addr, transfer) {
        &&& outcome == Outcome::DataAbort { addr }
        &&& stored == memory
        &&& after.regs.cur@ == fetched
        &&& after.interlocks == before.interlocks
        &&& after.cur_time == started.wrapping_add(1)
        &&& after.data_cycles == 1
        &&& after.bus_cycles == before.bus_cycles.wrapping_add(
            spec_transfer_bus_cycles(transfer),
        ).wrapping_add(spec_transfer_extra_bus_cycles(transfer, true))
    } else if !transfer.load {
        let moved = spec_base_moved(
            fetched,
            before.interlocks@,
            base_reg,
            transfer.writeback,
            moved_to,
        );
        &&& outcome == Outcome::Done
        &&& stored == spec_stored(memory, addr, fetched[reg as int], transfer.width)
        &&& after.regs.cur@ == moved.0
        &&& after.interlocks@ == moved.1
        &&& after.cur_time == started
        &&& after.data_cycles == cycles
        &&& after.bus_cycles == before.bus_cycles.wrapping_add(spec_transfer_bus_cycles(transfer))
    } else if reg == 15 {
        let moved = spec_base_moved(
            fetched.update(15, spec_loaded_value(memory, addr, transfer)),
            before.interlocks@,
            base_reg,
            transfer.writeback && base_reg != 15,
            moved_to,
        );
        &&& outcome == Outcome::ReloadPipeline(
            if before.cp15.control.t_bit_load_disabled() {
                StateSource::Arm
            } else {
                StateSource::R15Bit0
            },
        )
        &&& stored == memory
        &&& after.regs.cur@ == moved.0
        &&& after.interlocks@ == moved.1
        &&& after.cur_time == started.wrapping_add((cycles + 1) as u64)
        &&& after.data_cycles == 1
        &&& after.bus_cycles == before.bus_cycles.wrapping_add(
            spec_transfer_bus_cycles(transfer),
        ).wrapping_add(spec_transfer_extra_bus_cycles(transfer, false))
    } else {
        let loaded = before.interlocks@.update(
            reg as int,
            Interlock::spec_starting(started, spec_transfer_interlock(addr, transfer.width), 1),
        );
        let moved = spec_base_moved(
            fetched.update(reg as int, spec_loaded_value(memory, addr, transfer)),
            loaded,
            base_reg,
            transfer.writeback && base_reg != reg,
            moved_to,
        );
        &&& outcome == Outcome::Done
        &&& stored == memory
        &&& after.regs.cur@ == moved.0
        &&& after.interlocks@ == moved.1
        &&& after.cur_time == started
        &&& after.data_cycles == cycles
        &&& after.bus_cycles == before.bus_cycles.wrapping_add(spec_transfer_bus_cycles(transfer))
    }
}

/// Begins a transfer: waits for its registers, holds the bus, works out the
/// address and lets the next instruction be fetched. Returns the address of
/// the access and the base moved by the offset.
fn begin_transfer(emu: &mut Emu, instr: u32, transfer: Transfer) -> (addrs: (u32, u32))
    ensures
        addrs.0 == spec_transfer_addr(old(emu).arm9.regs, instr, transfer),
        addrs.1 == spec_apply_offset(
            old(emu).arm9.regs.cur[spec_reg_field(instr, 16) as int],
            spec_offset(old(emu).arm9.regs, instr, transfer.offset),
            transfer.upwards,
        ),
        final(emu).arm9.regs.cur@ == spec_prefetched(old(emu).arm9.regs.cur@),
        final(emu).arm9.regs == (Regs { cur: final(emu).arm9.regs.cur, ..old(emu).arm9.regs }),
        final(emu).arm9 == (Arm9 {
            regs: final(emu).arm9.regs,
            cur_time: spec_transfer_started(
                old(emu).arm9.cur_time,
                old(emu).arm9.interlocks@,
                instr,
                transfer,
            ).wrapping_add(spec_transfer_lead(transfer)),
            bus_cycles: old(emu).arm9.bus_cycles.wrapping_add(spec_transfer_bus_cycles(transfer)),
            fetches: old(emu).arm9.fetches.wrapping_add(1),
            ..old(emu).arm9
        }),
        final(emu).memory == old(emu).memory,
{
    let reg: u8 = reg_field(instr, 12);
    let base_reg: u8 = reg_field(instr, 16);
    let off_reg: u8 = reg_field(instr, 0);
    emu.apply_reg_interlock_1::<false>(base_reg);
    if !transfer.offset.is_imm() {
        emu.apply_reg_interlock_1::<false>(off_reg);
    }
    if !transfer.load {
        emu.apply_reg_interlock_1::<true>(reg);
    }
    let shifted: bool = match transfer.offset {
        Offset::Shifted(_) => true,
        _ => false,
    };
    emu.add_bus_cycles(
        if shifted {
            2
        } else {
            1
        },
    );
    let abs_offset: u32 = match transfer.offset {
        Offset::Imm12 => instr & 0xFFF,
        Offset::Imm8 => (instr & 0xF) | (instr >> 4 & 0xF0),
        Offset::Shifted(ty) => shift_imm(
            ty,
            emu.arm9.regs.cur[off_reg as usize],
            shift_field(instr),
            emu.arm9.regs.cpsr.carry(),
        ),
        Offset::Plain => emu.arm9.regs.cur[off_reg as usize],
    };
    let base: u32 = emu.arm9.regs.cur[base_reg as usize];
    let moved_base: u32 = if transfer.upwards {
        base.wrapping_add(abs_offset)
    } else {
        base.wrapping_sub(abs_offset)
    };
    let addr: u32 = if transfer.preincrement {
        moved_base
    } else {
        base
    };
    emu.prefetch_arm();
    if shifted {
        emu.add_cycles(1);
    }
    (addr, moved_base)
}

/// Ends a transfer whose access was refused.
fn abort_transfer(emu: &mut Emu, transfer: Transfer)
    ensures
        final(emu).arm9 == (Arm9 {
            cur_time: old(emu).arm9.cur_time.wrapping_add(1),
            data_cycles: 1,
            bus_cycles: old(emu).arm9.bus_cycles.wrapping_add(
                spec_transfer_extra_bus_cycles(transfer, true),
            ),
            ..old(emu).arm9
        }),
        final(emu).memory == old(emu).memory,
{
    emu.arm9.data_cycles = 1;
    let shifted: bool = match transfer.offset {
        Offset::Shifted(_) => true,
        _ => false,
    };
    if !shifted {
        emu.add_bus_cycles(
            if !transfer.load && !transfer.is_wide() {
                3
            } else {
                1
            },
        );
    }
    emu.add_cycles(1);
}

/// Makes the access of a store and moves the base register.
fn store_single(
    emu: &mut Emu,
    reg: u8,
    base_reg: u8,
    addr: u32,
    moved_base: u32,
    transfer: Transfer,
)
    requires
        reg < 16,
        base_reg < 16,
        !transfer.load,
    ensures
        final(emu).memory@ == spec_stored(
            old(emu).memory@,
            addr,
            old(emu).arm9.regs.cur[reg as int],
            transfer.width,
        ),
        final(emu).arm9.regs.cur@ == spec_base_moved(
            old(emu).arm9.regs.cur@,
            old(emu).arm9.interlocks@,
            base_reg,
            transfer.writeback,
            moved_base,
        ).0,
        final(emu).arm9.interlocks@ == spec_base_moved(
            old(emu).arm9.regs.cur@,
            old(emu).arm9.interlocks@,
            base_reg,
            transfer.writeback,
            moved_base,
        ).1,
        final(emu).arm9.regs == (Regs { cur: final(emu).arm9.regs.cur, ..old(emu).arm9.regs }),
        final(emu).arm9 == (Arm9 {
            regs: final(emu).arm9.regs,
            interlocks: final(emu).arm9.interlocks,
            data_cycles: spec_transfer_cycles(
                spec_timings(old(emu).arm9.cp15.timings@, addr),
                transfer,
            ),
            ..old(emu).arm9
        }),
{
    let timings = emu.timings(addr);
    let value: u32 = emu.arm9.regs.cur[reg as usize];
    match transfer.width {
        Width::Word => {
            emu.write_32(addr, value);
            emu.arm9.data_cycles = timings.w_n32_data;
        },
        Width::Half => {
            emu.write_16(addr, #[verifier::truncate] (value as u16));
            emu.arm9.data_cycles = timings.w_n16_data;
        },
        Width::Byte => {
            emu.write_8(addr, #[verifier::truncate] (value as u8));
            emu.arm9.data_cycles = timings.w_n16_data;
        },
    }
    if transfer.writeback {
        emu.write_reg_clear_interlock_ab(base_reg, moved_base);
    }
}

/// Reads the value of a load.
fn read_single(emu: &Emu, addr: u32, transfer: Transfer) -> (value: u32)
    ensures
        value == spec_loaded_value(emu.memory@, addr, transfer),
{
    match transfer.width {
        Width::Word => rotate_right(emu.read_32(addr), (addr & 3) << 3),
        Width::Half => if transfer.signed {
            #[verifier::truncate]
            ((#[verifier::truncate] (emu.read_16(addr) as i16)) as u32)
        } else {
            emu.read_16(addr) as u32
        },
        Width::Byte => if transfer.signed {
            #[verifier::truncate]
            ((#[verifier::truncate] (emu.read_8(addr) as i8)) as u32)
        } else {
            emu.read_8(addr) as u32
        },
    }
}

/// Puts the value of a load into its register and moves the base register.
fn load_single(
    emu: &mut Emu,
    reg: u8,
    base_reg: u8,
    addr: u32,
    moved_base: u32,
    transfer: Transfer,
) -> (outcome: Outcome)
    requires
        reg < 16,
        base_reg < 16,
        transfer.load,
    ensures
        final(emu).memory == old(emu).memory,
        final(emu).arm9.regs == (Regs { cur: final(emu).arm9.regs.cur, ..old(emu).arm9.regs }),
        final(emu).arm9.cp15 == old(emu).arm9.cp15,
        final(emu).arm9.fetches == old(emu).arm9.fetches,
        ({
            let before = old(emu).arm9;
            let after = final(emu).arm9;
            let value = spec_loaded_value(old(emu).memory@, addr, transfer);
            let cycles = spec_transfer_cycles(spec_timings(before.cp15.timings@, addr), transfer);
            if reg == 15 {
                let moved = spec_base_moved(
                    before.regs.cur@.update(15, value),
                    before.interlocks@,
                    base_reg,
                    transfer.writeback && base_reg != 15,
                    moved_base,
                );
                &&& outcome == Outcome::ReloadPipeline(
                    if before.cp15.control.t_bit_load_disabled() {
                        StateSource::Arm
                    } else {
                        StateSource::R15Bit0
                    },
                )
                &&& after.regs.cur@ == moved.0
                &&& after.interlocks@ == moved.1
                &&& after.cur_time == before.cur_time.wrapping_add((cycles + 1) as u64)
                &&& after.data_cycles == 1
                &&& after.bus_cycles == before.bus_cycles.wrapping_add(
                    spec_transfer_extra_bus_cycles(transfer, false),
                )
            } else {
                let moved = spec_base_moved(
                    before.regs.cur@.update(reg as int, value),
                    before.interlocks@.update(
                        reg as int,
                        Interlock::spec_starting(
                            before.cur_time,
                            spec_transfer_interlock(addr, transfer.width),
                            1,
                        ),
                    ),
                    base_reg,
                    transfer.writeback && base_reg != reg,
                    moved_base,
                );
                &&& outcome == Outcome::Done
                &&& after.regs.cur@ == moved.0
                &&& after.interlocks@ == moved.1
                &&& after.cur_time == before.cur_time
                &&& after.data_cycles == cycles
                &&& after.bus_cycles == before.bus_cycles
            }
        }),
{
    let timings = emu.timings(addr);
    let result: u32 = read_single(emu, addr, transfer);
    let word: bool = match transfer.width {
        Width::Word => true,
        _ => false,
    };
    let cycles: u8 = if word {
        timings.r_n32_data
    } else {
        timings.r_n16_data
    };
    let outcome: Outcome;
    if reg == 15 {
        emu.arm9.data_cycles = 1;
        let shifted: bool = match transfer.offset {
            Offset::Shifted(_) => true,
            _ => false,
        };
        if !shifted {
            emu.add_bus_cycles(1);
        }
        emu.add_cycles(cycles as u64 + 1);
        emu.arm9.regs.cur[15] = result;
        outcome =
        if emu.arm9.cp15.control.t_bit_load_disabled() {
            Outcome::ReloadPipeline(StateSource::Arm)
        } else {
            Outcome::ReloadPipeline(StateSource::R15Bit0)
        };
    } else {
        emu.arm9.data_cycles = cycles;
        emu.write_reg_interlock(
            reg,
            result,
            if word {
                if addr & 3 != 0 {
                    2
                } else {
                    1
                }
            } else {
                2
            },
            1,
        );
        outcome = Outcome::Done;
    }
    if transfer.writeback && reg != base_reg {
        emu.write_reg_clear_interlock_ab(base_reg, moved_base);
    }
    outcome
}

/// Transfers a single register as `transfer` says.
pub fn transfer_single(emu: &mut Emu, instr: u32, transfer: Transfer) -> (outcome: Outcome)
    ensures
        spec_transferred(
            old(emu).arm9,
            old(emu).memory@,
            final(emu).arm9,
            final(emu).memory@,
            outcome,
            instr,
            transfer,
        ),
{
    let reg: u8 = reg_field(instr, 12);
    let base_reg: u8 = reg_field(instr, 16);
    let privileged: bool = !transfer.as_user && emu.arm9.regs.is_in_priv_mode();
    let (addr, moved_base) = begin_transfer(emu, instr, transfer);
    let allowed: bool = if transfer.load {
        emu.can_read(addr, privileged)
    } else {
        emu.can_write(addr, privileged)
    };
    if !allowed {
        abort_transfer(emu, transfer);
        Outcome::DataAbort { addr }
    } else if transfer.load {
        load_single(emu, reg, base_reg, addr, moved_base, transfer)
    } else {
        store_single(emu, reg, base_reg, addr, moved_base, transfer);
        Outcome::Done
    }
}

/// The transfer of a word or an unsigned byte that an instruction of the
/// given kind makes.
pub open spec fn spec_wb_transfer(
    load: bool,
    width: Width,
    off_ty: WbOffTy,
    upwards: bool,
    addressing: WbAddressing,
) -> Transfer {
    Transfer {
        load,
        width,
        signed: false,
        offset: match off_ty {
            WbOffTy::Imm => Offset::Imm12,
            WbOffTy::Reg(ty) => Offset::Shifted(ty),
        },
        upwards,
        preincrement: addressing.preincrement(),
        writeback: addressing.writeback(),
        as_user: addressing == WbAddressing::PostUser,
    }
}

/// The transfer of a halfword or a signed byte that an instruction of the
/// given kind makes.
pub open spec fn spec_misc_transfer(
    load: bool,
    width: Width,
    signed: bool,
    off_imm: bool,
    upwards: bool,
    addressing: crate::cpu::arm9::mem::double::MiscAddressing,
) -> Transfer {
    Transfer {
        load,
        width,
        signed,
        offset: if off_imm {
            Offset::Imm8
        } else {
            Offset::Plain
        },
        upwards,
        preincrement: addressing.preincrement(),
        writeback: addressing.writeback(),
        as_user: false,
    }
}

/// The transfer of a word or an unsigned byte that an instruction of the
/// given kind makes.
fn wb_transfer(
    load: bool,
    width: Width,
    off_ty: WbOffTy,
    upwards: bool,
    addressing: WbAddressing,
) -> (transfer: Transfer)
    ensures
        transfer == spec_wb_transfer(load, width, off_ty, upwards, addressing),
{
    Transfer {
        load,
        width,
        signed: false,
        offset: match off_ty {
            WbOffTy::Imm => Offset::Imm12,
            WbOffTy::Reg(ty) => Offset::Shifted(ty),
        },
        upwards,
        preincrement: addressing.preincrement(),
        writeback: addressing.writeback(),
        as_user: match addressing {
            WbAddressing::PostUser => true,
            _ => false,
        },
    }
}

/// The transfer of a halfword or a signed byte that an instruction of the
/// given kind makes.
fn misc_transfer(
    load: bool,
    width: Width,
    signed: bool,
    off_imm: bool,
    upwards: bool,
    addressing: crate::cpu::arm9::mem::double::MiscAddressing,
) -> (transfer: Transfer)
    ensures
        transfer == spec_misc_transfer(load, width, signed, off_imm, upwards, addressing),
{
    Transfer {
        load,
        width,
        signed,
        offset: if off_imm {
            Offset::Imm8
        } else {
            Offset::Plain
        },
        upwards,
        preincrement: addressing.preincrement(),
        writeback: addressing.writeback(),
        as_user: false,
    }
}

/// Loads a word.
pub fn ldr<const UPWARDS: bool>(
    emu: &mut Emu,
    instr: u32,
    off_ty: WbOffTy,
    addressing: WbAddressing,
) -> (outcome: Outcome)
    ensures
        spec_transferred(
            old(emu).arm9,
            old(emu).memory@,
            final(emu).arm9,
            final(emu).memory@,
            outcome,
            instr,
            spec_wb_transfer(true, Width::Word, off_ty, UPWARDS, addressing),
        ),
{
    transfer_single(emu, instr, wb_transfer(true, Width::Word, off_ty, UPWARDS, addressing))
}

/// Stores a word.
pub fn str<const UPWARDS: bool>(
    emu: &mut Emu,
    instr: u32,
    off_ty: WbOffTy,
    addressing: WbAddressing,
) -> (outcome: Outcome)
    ensures
        spec_transferred(
            old(emu).arm9,
            old(emu).memory@,
            final(emu).arm9,
            final(emu).memory@,
            outcome,
            instr,
            spec_wb_transfer(false, Width::Word, off_ty, UPWARDS, addressing),
        ),
{
    transfer_single(emu, instr, wb_transfer(false, Width::Word, off_ty, UPWARDS, addressing))
}

/// Loads a byte and extends it by zeros.
pub fn ldrb<const UPWARDS: bool>(
    emu: &mut Emu,
    instr: u32,
    off_ty: WbOffTy,
    addressing: WbAddressing,
) -> (outcome: Outcome)
    ensures
        spec_transferred(
            old(emu).arm9,
            old(emu).memory@,
            final(emu).arm9,
            final(emu).memory@,
            outcome,
            instr,
            spec_wb_transfer(true, Width::Byte, off_ty, UPWARDS, addressing),
        ),
{
    transfer_single(emu, instr, wb_transfer(true, Width::Byte, off_ty, UPWARDS, addressing))
}

/// Stores a byte.
pub fn strb<const UPWARDS: bool>(
    emu: &mut Emu,
    instr: u32,
    off_ty: WbOffTy,
    addressing: WbAddressing,
) -> (outcome: Outcome)
    ensures
        spec_transferred(
            old(emu).arm9,
            old(emu).memory@,
            final(emu).arm9,
            final(emu).memory@,
            outcome,
            instr,
            spec_wb_transfer(false, Width::Byte, off_ty, UPWARDS, addressing),
        ),
{
    transfer_single(emu, instr, wb_transfer(false, Width::Byte, off_ty, UPWARDS, addressing))
}

/// Loads a halfword and extends it by zeros.
pub fn ldrh<const OFF_IMM: bool, const UPWARDS: bool>(
    emu: &mut Emu,
    instr: u32,
    addressing: crate::cpu::arm9::mem::double::MiscAddressing,
) -> (outcome: Outcome)
    ensures
        spec_transferred(
            old(emu).arm9,
            old(emu).memory@,
            final(emu).arm9,
            final(emu).memory@,
            outcome,
            instr,
            spec_misc_transfer(true, Width::Half, false, OFF_IMM, UPWARDS, addressing),
        ),
{
    transfer_single(
        emu,
        instr,
        misc_transfer(true, Width::Half, false, OFF_IMM, UPWARDS, addressing),
    )
}

/// Stores a halfword.
pub fn strh<const OFF_IMM: bool, const UPWARDS: bool>(
    emu: &mut Emu,
    instr: u32,
    addressing: crate::cpu::arm9::mem::double::MiscAddressing,
) -> (outcome: Outcome)
    ensures
        spec_transferred(
            old(emu).arm9,
            old(emu).memory@,
            final(emu).arm9,
            final(emu).memory@,
            outcome,
            instr,
            spec_misc_transfer(false, Width::Half, false, OFF_IMM, UPWARDS, addressing),
        ),
{
    transfer_single(
        emu,
        instr,
        misc_transfer(false, Width::Half, false, OFF_IMM, UPWARDS, addressing),
    )
}

/// Loads a byte and extends it by its sign.
pub fn ldrsb<const OFF_IMM: bool, const UPWARDS: bool>(
    emu: &mut Emu,
    instr: u32,
    addressing: crate::cpu::arm9::mem::double::MiscAddressing,
) -> (outcome: Outcome)
    ensures
        spec_transferred(
            old(emu).arm9,
            old(emu).memory@,
            final(emu).arm9,
            final(emu).memory@,
            outcome,
            instr,
            spec_misc_transfer(true, Width::Byte, true, OFF_IMM, UPWARDS, addressing),
        ),
{
    transfer_single(
        emu,
        instr,
        misc_transfer(true, Width::Byte, true, OFF_IMM, UPWARDS, addressing),
    )
}

/// Loads a halfword and extends it by its sign.
pub fn ldrsh<const OFF_IMM: bool, const UPWARDS: bool>(
    emu: &mut Emu,
    instr: u32,
    addressing: crate::cpu::arm9::mem::double::MiscAddressing,
) -> (outcome: Outcome)
    ensures
        spec_transferred(
            old(emu).arm9,
            old(emu).memory@,
            final(emu).arm9,
            final(emu).memory@,
            outcome,
            instr,
            spec_misc_transfer(true, Width::Half, true, OFF_IMM, UPWARDS, addressing),
        ),
{
    transfer_single(
        emu,
        instr,
        misc_transfer(true, Width::Half, true, OFF_IMM, UPWARDS, addressing),
    )
}

} // verus!
