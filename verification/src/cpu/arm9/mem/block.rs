//! The instructions that transfer a block of registers to or from memory.
//!
//! The low sixteen bits of the instruction list the registers. They are
//! transferred in ascending order to or from consecutive words, the lowest
//! register at the lowest address, wherever the base register points and
//! whichever way it moves.

use crate::cpu::arm9::mem::swap::{reg_field, spec_prefetched, spec_reg_field};
use crate::cpu::arm9::{
    spec_can_read, spec_can_write, spec_read_32, spec_timings, spec_wait_until, spec_write_32,
    Arm9, Emu, Interlock, Outcome, StateSource, Timings,
};
use crate::cpu::psr::Mode;
use crate::cpu::regs::Regs;
use vstd::prelude::*;

verus! {

/// Whether register `reg` is in the register list of a block transfer: the
/// low sixteen bits of the instruction, one per register.
pub open spec fn spec_listed(instr: u32, reg: u32) -> bool {
    instr & 1u32 << reg != 0
}

/// The number of listed registers below `reg`.
pub open spec fn spec_listed_below(instr: u32, reg: u32) -> u32
    decreases reg,
{
    if reg == 0 {
        0
    } else {
        (spec_listed_below(instr, (reg - 1) as u32) + (if spec_listed(instr, (reg - 1) as u32) {
            1u32
        } else {
            0u32
        })) as u32
    }
}

/// There are no more listed registers below a register than registers.
pub proof fn lemma_listed_below_bound(instr: u32, reg: u32)
    ensures
        spec_listed_below(instr, reg) <= reg,
    decreases reg,
{
    if reg > 0 {
        lemma_listed_below_bound(instr, (reg - 1) as u32);
    }
}

/// Counts the listed registers.
pub fn count_listed(instr: u32) -> (count: u32)
    ensures
        count == spec_listed_below(instr, 16),
        count <= 16,
{
    let mut count: u32 = 0;
    let mut reg: u32 = 0;
    while reg < 16
        invariant
            reg <= 16,
            count == spec_listed_below(instr, reg),
            count <= reg,
        decreases 16 - reg,
    {
        if instr & 1u32 << reg != 0 {
            count += 1;
        }
        reg += 1;
    }
    count
}

/// The address of the first transfer of a block transfer from `base`: the
/// lowest of the block, which lies above `base` for a transfer upwards and
/// below it for one downwards, and begins one word later where the base is
/// moved before each transfer rather than after.
pub open spec fn spec_first_addr(instr: u32, base: u32, upwards: bool, preinc: bool) -> u32 {
    spec_start_addr(instr, base, upwards).wrapping_add(
        if preinc {
            4u32
        } else {
            0u32
        },
    )
}

/// The lowest address of a block, but for the word by which a base that is
/// moved before each transfer shifts it.
pub open spec fn spec_start_addr(instr: u32, base: u32, upwards: bool) -> u32 {
    if upwards {
        base
    } else {
        base.wrapping_sub((spec_listed_below(instr, 16) * 4) as u32)
    }
}

/// The address of the transfer of register `reg`: the listed registers are
/// transferred in ascending order to or from consecutive words.
pub open spec fn spec_transfer_addr(instr: u32, first: u32, reg: u32) -> u32 {
    first.wrapping_add((spec_listed_below(instr, reg) * 4) as u32)
}

/// The lowest listed register below `limit` whose transfer the protection
/// unit refuses, or `limit` where it refuses none.
pub open spec fn spec_refused_below(
    perm_map: Seq<u8>,
    privileged: bool,
    write: bool,
    instr: u32,
    first: u32,
    limit: u32,
) -> u32
    decreases limit,
{
    if limit == 0 {
        0
    } else {
        let below = spec_refused_below(
            perm_map,
            privileged,
            write,
            instr,
            first,
            (limit - 1) as u32,
        );
        let addr = spec_transfer_addr(instr, first, (limit - 1) as u32);
        if below < limit - 1 {
            below
        } else if spec_listed(instr, (limit - 1) as u32) && !(if write {
            spec_can_write(perm_map, addr, privileged)
        } else {
            spec_can_read(perm_map, addr, privileged)
        }) {
            (limit - 1) as u32
        } else {
            limit
        }
    }
}

/// The timing of a block transfer as it goes from register to register.
pub struct BlockTiming {
    /// The time.
    pub cur_time: u64,
    /// The cycles that the last transfer still takes.
    pub data_cycles: u8,
    /// The cycles that the next transfer will take.
    pub access_cycles: u8,
    /// The timings of the page of the next transfer.
    pub timings: Timings,
    /// Whether a transfer has been made.
    pub not_first: bool,
}

/// The cycles that a transfer to or from `addr` takes: those of the first of
/// a run for the first transfer of a block and for one that begins a block of
/// 1 KiB, those of one that follows another otherwise.
pub open spec fn spec_access_cycles(
    timings: Timings,
    write: bool,
    sequential: bool,
) -> u8 {
    if write {
        if sequential {
            timings.w_s32_data
        } else {
            timings.w_n32_data
        }
    } else {
        if sequential {
            timings.r_s32_data
        } else {
            timings.r_n32_data
        }
    }
}

/// The timing at the start of a block transfer whose first transfer goes to
/// or comes from `first`.
pub open spec fn spec_block_start(
    table: Seq<Timings>,
    write: bool,
    cur_time: u64,
    data_cycles: u8,
    first: u32,
) -> BlockTiming {
    BlockTiming {
        cur_time,
        data_cycles,
        access_cycles: spec_access_cycles(spec_timings(table, first), write, false),
        timings: spec_timings(table, first),
        not_first: false,
    }
}

/// The timing as the transfer of a register begins: the last transfer has
/// come to its end; the first store of a block waits until `ready`, when the
/// data of its register are available.
pub open spec fn spec_block_arrive(timing: BlockTiming, ready: Option<u64>) -> BlockTiming {
    BlockTiming {
        cur_time: if timing.not_first {
            timing.cur_time.wrapping_add(timing.data_cycles as u64)
        } else {
            match ready {
                Some(at) => spec_wait_until(timing.cur_time, at),
                None => timing.cur_time,
            }
        },
        ..timing
    }
}

/// The timing once a transfer was made and the next will go to `next_addr`.
pub open spec fn spec_block_leave(
    table: Seq<Timings>,
    write: bool,
    timing: BlockTiming,
    next_addr: u32,
) -> BlockTiming {
    let timings = if next_addr & 0x3FC == 0 {
        spec_timings(table, next_addr)
    } else {
        timing.timings
    };
    BlockTiming {
        cur_time: timing.cur_time,
        data_cycles: timing.access_cycles,
        access_cycles: spec_access_cycles(timings, write, next_addr & 0x3FC != 0),
        timings,
        not_first: true,
    }
}

/// The time from which the data of the first transferred register are
/// awaited: that from which they are available to the store port for a store
/// of the visible registers; none for a load, and none for a store of the
/// user registers, which are not interlocked.
pub open spec fn spec_transfer_ready(
    interlocks: Seq<Interlock>,
    write: bool,
    bank_switch: bool,
    reg: u32,
) -> Option<u64> {
    if write && !bank_switch {
        Some(interlocks[reg as int].port_c)
    } else {
        None
    }
}

/// The timing of a block transfer after the transfers of the listed
/// registers below `reg`.
pub open spec fn spec_block_timing(
    table: Seq<Timings>,
    interlocks: Seq<Interlock>,
    write: bool,
    bank_switch: bool,
    instr: u32,
    first: u32,
    start: BlockTiming,
    reg: u32,
) -> BlockTiming
    decreases reg,
{
    if reg == 0 {
        start
    } else {
        let before = spec_block_timing(
            table,
            interlocks,
            write,
            bank_switch,
            instr,
            first,
            start,
            (reg - 1) as u32,
        );
        if spec_listed(instr, (reg - 1) as u32) {
            spec_block_leave(
                table,
                write,
                spec_block_arrive(
                    before,
                    spec_transfer_ready(interlocks, write, bank_switch, (reg - 1) as u32),
                ),
                spec_transfer_addr(instr, first, reg),
            )
        } else {
            before
        }
    }
}

/// Memory after the listed registers below `reg` were stored.
pub open spec fn spec_stm_memory(
    memory: Seq<u8>,
    values: Seq<u32>,
    instr: u32,
    first: u32,
    reg: u32,
) -> Seq<u8>
    decreases reg,
{
    if reg == 0 {
        memory
    } else {
        let before = spec_stm_memory(memory, values, instr, first, (reg - 1) as u32);
        if spec_listed(instr, (reg - 1) as u32) {
            spec_write_32(
                before,
                spec_transfer_addr(instr, first, (reg - 1) as u32),
                values[reg - 1],
            )
        } else {
            before
        }
    }
}

/// The registers that a block transfer works on: those of user mode for a
/// transfer of the user registers, the visible ones otherwise. `cur` holds the
/// visible registers.
pub open spec fn spec_transfer_regs(regs: Regs, cur: Seq<u32>, user_bank: bool) -> Seq<u32> {
    Seq::new(
        16,
        |reg: int|
            if user_bank && Regs::banked_apart(reg, regs.cpsr.mode(), Mode::User) {
                regs.reg_in_mode(regs.cpsr.mode(), Mode::User, reg)
            } else {
                cur[reg]
            },
    )
}

/// Whether the registers `after` hold in every mode what `before` held,
/// but for the visible registers, which hold `cur`.
pub open spec fn spec_regs_hold(after: Regs, before: Regs, cur: Seq<u32>) -> bool {
    &&& after.cpsr == before.cpsr
    &&& after.spsr == before.spsr
    &&& forall|mode: Mode, reg: int|
        0 <= reg < 16 ==> #[trigger] after.reg_in_mode(before.cpsr.mode(), mode, reg) == (
        if Regs::banked_apart(reg, before.cpsr.mode(), mode) {
            before.reg_in_mode(before.cpsr.mode(), mode, reg)
        } else {
            cur[reg]
        })
}

/// The base register after a block transfer: moved past the whole block.
pub open spec fn spec_block_end(instr: u32, base: u32, upwards: bool) -> u32 {
    if upwards {
        base.wrapping_add((spec_listed_below(instr, 16) * 4) as u32)
    } else {
        base.wrapping_sub((spec_listed_below(instr, 16) * 4) as u32)
    }
}

/// The base register after a block transfer with an empty list.
pub open spec fn spec_empty_block_end(base: u32, upwards: bool) -> u32 {
    if upwards {
        base.wrapping_add(0x40)
    } else {
        base.wrapping_sub(0x40)
    }
}

/// A refusal stays the first refusal however far the search goes on.
proof fn lemma_refused_stays(
    perm_map: Seq<u8>,
    privileged: bool,
    write: bool,
    instr: u32,
    first: u32,
    found: u32,
    limit: u32,
)
    requires
        found < limit,
        spec_refused_below(perm_map, privileged, write, instr, first, (found + 1) as u32) == found,
    ensures
        spec_refused_below(perm_map, privileged, write, instr, first, limit) == found,
    decreases limit,
{
    if limit > found + 1 {
        lemma_refused_stays(perm_map, privileged, write, instr, first, found, (limit - 1) as u32);
    }
}

/// Consecutive transfers go to consecutive words.
proof fn lemma_next_transfer_addr(instr: u32, first: u32, reg: u32)
    requires
        reg < 16,
    ensures
        spec_transfer_addr(instr, first, (reg + 1) as u32) == (if spec_listed(instr, reg) {
            spec_transfer_addr(instr, first, reg).wrapping_add(4)
        } else {
            spec_transfer_addr(instr, first, reg)
        }),
{
    lemma_listed_below_bound(instr, reg);
    reveal_with_fuel(spec_listed_below, 2);
}

/// The time and the cycles left of the last access at the end of a block
/// store that was not refused: a store of a single register lets its access
/// come to an end.
pub open spec fn spec_block_finish(timing: BlockTiming, single: bool) -> (u64, u8) {
    if single {
        (timing.cur_time.wrapping_add(timing.data_cycles as u64), 1u8)
    } else {
        (timing.cur_time, timing.data_cycles)
    }
}

/// Stores a block of registers.
///
/// Bits 16 to 19 of the instruction name the base register. `UPWARDS` says
/// whether the block lies above the base or below it, `PREINC` whether it
/// begins one word further from the base, `WRITEBACK` whether the base
/// register is moved past the block, and `BANK_SWITCH` whether the registers
/// of user mode are stored in place of the visible ones.
///
/// The first transfer that the protection unit refuses ends the instruction
/// in a data abort: what was stored before stays stored, and the base
/// register is not moved. With an empty list nothing is stored, and the base
/// register moves by sixteen words.
pub fn stm<
    const UPWARDS: bool,
    const PREINC: bool,
    const WRITEBACK: bool,
    const BANK_SWITCH: bool,
>(emu: &mut Emu, instr: u32) -> (outcome: Outcome)
    ensures
        ({
            let before = old(emu).arm9;
            let after = final(emu).arm9;
            let base_reg = spec_reg_field(instr, 16);
            let base = before.regs.cur[base_reg as int];
            let fetched = spec_prefetched(before.regs.cur@);
            let started = spec_wait_until(
                before.cur_time,
                before.interlocks[base_reg as int].port_ab,
            );
            let privileged = before.regs.is_in_priv_mode();
            let count = spec_listed_below(instr, 16);
            let first = spec_first_addr(instr, base, UPWARDS, PREINC);
            let values = spec_transfer_regs(before.regs, fetched, BANK_SWITCH);
            let refused = spec_refused_below(
                before.cp15.perm_map@,
                privileged,
                true,
                instr,
                first,
                16,
            );
            let start = spec_block_start(
                before.cp15.timings@,
                true,
                started,
                before.data_cycles,
                first,
            );
            &&& after.bus_cycles == before.bus_cycles.wrapping_add(2)
            &&& after.fetches == before.fetches.wrapping_add(1)
            &&& after.cp15 == before.cp15
            &&& after.interlocks == before.interlocks
            &&& if count == 0 {
                &&& outcome == Outcome::Done
                &&& final(emu).memory@ == old(emu).memory@
                &&& spec_regs_hold(
                    after.regs,
                    before.regs,
                    if WRITEBACK {
                        fetched.update(base_reg as int, spec_empty_block_end(base, UPWARDS))
                    } else {
                        fetched
                    },
                )
                &&& after.cur_time == started.wrapping_add(1)
                &&& after.data_cycles == 1
            } else if refused < 16 {
                let timing = spec_block_arrive(
                    spec_block_timing(
                        before.cp15.timings@,
                        before.interlocks@,
                        true,
                        BANK_SWITCH,
                        instr,
                        first,
                        start,
                        refused,
                    ),
                    spec_transfer_ready(before.interlocks@, true, BANK_SWITCH, refused),
                );
                &&& outcome == Outcome::DataAbort {
                    addr: spec_transfer_addr(instr, first, refused),
                }
                &&& final(emu).memory@ == spec_stm_memory(
                    old(emu).memory@,
                    values,
                    instr,
                    first,
                    refused,
                )
                &&& spec_regs_hold(after.regs, before.regs, fetched)
                &&& after.cur_time == timing.cur_time.wrapping_add(
                    (count - spec_listed_below(instr, refused)) as u64,
                )
                &&& after.data_cycles == 1
            } else {
                let finish = spec_block_finish(
                    spec_block_timing(
                        before.cp15.timings@,
                        before.interlocks@,
                        true,
                        BANK_SWITCH,
                        instr,
                        first,
                        start,
                        16,
                    ),
                    count == 1,
                );
                &&& outcome == Outcome::Done
                &&& final(emu).memory@ == spec_stm_memory(
                    old(emu).memory@,
                    values,
                    instr,
                    first,
                    16,
                )
                &&& spec_regs_hold(
                    after.regs,
                    before.regs,
                    if WRITEBACK {
                        fetched.update(base_reg as int, spec_block_end(instr, base, UPWARDS))
                    } else {
                        fetched
                    },
                )
                &&& after.cur_time == finish.0
                &&& after.data_cycles == finish.1
            }
        }),
{
    let base_reg: u8 = reg_field(instr, 16);
    emu.apply_reg_interlock_1::<false>(base_reg);
    if BANK_SWITCH {
        emu.add_bus_cycles(2);
    }
    let base: u32 = emu.arm9.regs.cur[base_reg as usize];
    emu.prefetch_arm();
    let count: u32 = count_listed(instr);
    let ghost before = old(emu).arm9;
    let ghost fetched = spec_prefetched(before.regs.cur@);
    let ghost fetched_regs = emu.arm9.regs;
    if count == 0 {
        if !BANK_SWITCH {
            emu.add_bus_cycles(2);
        }
        emu.add_cycles(1);
        if WRITEBACK {
            emu.arm9.regs.cur[base_reg as usize] =
            if UPWARDS {
                base.wrapping_add(0x40)
            } else {
                base.wrapping_sub(0x40)
            };
        }
        emu.arm9.data_cycles = 1;
        return Outcome::Done;
    }
    let start_addr: u32 = if UPWARDS {
        base
    } else {
        base.wrapping_sub(count * 4)
    };
    let mut cur_addr: u32 = start_addr;
    let mode: Mode = emu.arm9.regs.cpsr.mode();
    let privileged: bool = emu.arm9.regs.is_in_priv_mode();
    if BANK_SWITCH {
        emu.arm9.regs.update_mode(mode, Mode::User);
    }
    if PREINC {
        cur_addr = cur_addr.wrapping_add(4);
    }
    let ghost first = cur_addr;
    let ghost values = spec_transfer_regs(before.regs, fetched, BANK_SWITCH);
    let ghost table = before.cp15.timings@;
    let ghost start = spec_block_start(table, true, emu.arm9.cur_time, before.data_cycles, first);
    let ghost switched = emu.arm9;
    let ghost memory = emu.memory@;
    let mut not_first: bool = false;
    let mut timings = emu.timings(cur_addr);
    let mut access_cycles: u8 = timings.w_n32_data;
    let mut reg: u32 = 0;
    proof {
        assert forall|r: int| 0 <= r < 16 implies #[trigger] emu.arm9.regs.cur[r] == values[r] by {
            if BANK_SWITCH {
                assert(emu.arm9.regs.reg_in_mode(Mode::User, Mode::User, r)
                    == fetched_regs.reg_in_mode(mode, Mode::User, r));
            }
        }
    }
    while reg < 16
        invariant
            reg <= 16,
            count == spec_listed_below(instr, 16),
            count > 0,
            first == spec_first_addr(instr, base, UPWARDS, PREINC),
            table == before.cp15.timings@,
            privileged == before.regs.is_in_priv_mode(),
            mode == before.regs.cpsr.mode(),
            spec_refused_below(before.cp15.perm_map@, privileged, true, instr, first, reg) == reg,
            cur_addr == spec_transfer_addr(instr, first, reg),
            (BlockTiming {
                cur_time: emu.arm9.cur_time,
                data_cycles: emu.arm9.data_cycles,
                access_cycles,
                timings,
                not_first,
            }) == spec_block_timing(
                table,
                before.interlocks@,
                true,
                BANK_SWITCH,
                instr,
                first,
                start,
                reg,
            ),
            not_first == (spec_listed_below(instr, reg) > 0),
            emu.memory@ == spec_stm_memory(memory, values, instr, first, reg),
            emu.arm9 == (Arm9 {
                cur_time: emu.arm9.cur_time,
                data_cycles: emu.arm9.data_cycles,
                ..switched
            }),
            switched.cp15 == before.cp15,
            switched.interlocks == before.interlocks,
            switched.fetches == before.fetches.wrapping_add(1),
            switched.bus_cycles == (if BANK_SWITCH {
                before.bus_cycles.wrapping_add(2)
            } else {
                before.bus_cycles
            }),
            before == old(emu).arm9,
            memory == old(emu).memory@,
            base_reg == spec_reg_field(instr, 16),
            base == before.regs.cur[base_reg as int],
            fetched == spec_prefetched(before.regs.cur@),
            values == spec_transfer_regs(before.regs, fetched, BANK_SWITCH),
            start == spec_block_start(
                table,
                true,
                spec_wait_until(before.cur_time, before.interlocks[base_reg as int].port_ab),
                before.data_cycles,
                first,
            ),
            fetched_regs.cur@ == fetched,
            fetched_regs == (Regs { cur: fetched_regs.cur, ..before.regs }),
            switched.regs.cpsr == before.regs.cpsr,
            switched.regs.spsr == before.regs.spsr,
            !BANK_SWITCH ==> switched.regs == fetched_regs,
            BANK_SWITCH ==> (forall|m: Mode, r: int|
                0 <= r < 16 ==> #[trigger] switched.regs.reg_in_mode(Mode::User, m, r)
                    == fetched_regs.reg_in_mode(mode, m, r)),
            forall|r: int| 0 <= r < 16 ==> #[trigger] switched.regs.cur[r] == values[r],
        decreases 16 - reg,
    {
        proof {
            lemma_next_transfer_addr(instr, first, reg);
            lemma_listed_below_bound(instr, reg);
        }
        if instr & 1u32 << reg != 0 {
            if not_first {
                emu.add_cycles(emu.arm9.data_cycles as u64);
            } else if !BANK_SWITCH {
                emu.apply_reg_interlock_1::<true>(reg as u8);
            }
            if !emu.can_write(cur_addr, privileged) {
                // The instruction runs to its end before the abort is taken;
                // every transfer from here on takes one cycle.
                emu.arm9.data_cycles = 1;
                if BANK_SWITCH {
                    emu.arm9.regs.update_mode(Mode::User, mode);
                } else {
                    emu.add_bus_cycles(2);
                }
                let ghost arrived = emu.arm9.cur_time;
                let mut rest: u32 = reg + 1;
                while rest < 16
                    invariant
                        reg < rest <= 16,
                        emu.arm9.cur_time == arrived.wrapping_add(
                            (spec_listed_below(instr, rest) - spec_listed_below(
                                instr,
                                (reg + 1) as u32,
                            )) as u64,
                        ),
                        spec_listed_below(instr, (reg + 1) as u32) <= spec_listed_below(instr, rest)
                            <= rest,
                        emu.memory@ == spec_stm_memory(memory, values, instr, first, reg),
                        emu.arm9.data_cycles == 1,
                        emu.arm9.fetches == switched.fetches,
                        emu.arm9.cp15 == before.cp15,
                        emu.arm9.interlocks == before.interlocks,
                        emu.arm9.bus_cycles == before.bus_cycles.wrapping_add(2),
                        spec_regs_hold(emu.arm9.regs, before.regs, fetched),
                    decreases 16 - rest,
                {
                    if instr & 1u32 << rest != 0 {
                        emu.add_cycles(1);
                    }
                    rest += 1;
                }
                emu.add_cycles(1);
                proof {
                    lemma_refused_stays(
                        before.cp15.perm_map@,
                        privileged,
                        true,
                        instr,
                        first,
                        reg,
                        16,
                    );
                }
                return Outcome::DataAbort { addr: cur_addr };
            }
            let value: u32 = emu.arm9.regs.cur[reg as usize];
            emu.write_32(cur_addr, value);
            emu.arm9.data_cycles = access_cycles;
            cur_addr = cur_addr.wrapping_add(4);
            if cur_addr & 0x3FC == 0 {
                timings = emu.timings(cur_addr);
                access_cycles = timings.w_n32_data;
            } else {
                access_cycles = timings.w_s32_data;
            }
            not_first = true;
        }
        reg += 1;
    }
    if BANK_SWITCH {
        emu.arm9.regs.update_mode(Mode::User, mode);
    } else {
        emu.add_bus_cycles(2);
    }
    let ghost restored = emu.arm9.regs;
    if count == 1 {
        // A single register: its access comes to an end within the
        // instruction.
        emu.add_cycles(emu.arm9.data_cycles as u64);
        emu.arm9.data_cycles = 1;
    }
    if WRITEBACK {
        emu.arm9.regs.cur[base_reg as usize] =
        if UPWARDS {
            cur_addr.wrapping_sub(
                if PREINC {
                    4
                } else {
                    0
                },
            )
        } else {
            start_addr
        };
    }
    proof {
        let expected = if WRITEBACK {
            fetched.update(base_reg as int, spec_block_end(instr, base, UPWARDS))
        } else {
            fetched
        };
        assert forall|m: Mode, r: int| 0 <= r < 16 implies #[trigger] emu.arm9.regs.reg_in_mode(
            mode,
            m,
            r,
        ) == (if Regs::banked_apart(r, mode, m) {
            before.regs.reg_in_mode(mode, m, r)
        } else {
            expected[r]
        }) by {
            assert(restored.reg_in_mode(mode, m, r) == (if Regs::banked_apart(r, mode, m) {
                before.regs.reg_in_mode(mode, m, r)
            } else {
                fetched[r]
            }));
        }
    }
    Outcome::Done
}

/// The highest listed register below `limit`, or -1 where none is listed.
pub open spec fn spec_highest_listed(instr: u32, limit: u32) -> int
    decreases limit,
{
    if limit == 0 {
        -1
    } else if spec_listed(instr, (limit - 1) as u32) {
        limit - 1
    } else {
        spec_highest_listed(instr, (limit - 1) as u32)
    }
}

/// Whether a block load that is to move its base register does so: not
/// where the base register was loaded as one of several and as the last of
/// them, which leaves it with the loaded value.
pub open spec fn spec_ldm_moves_base(instr: u32, base_reg: u8) -> bool {
    !spec_listed(instr, base_reg as u32) || spec_listed_below(instr, 16) == 1
        || spec_highest_listed(instr, 16) > base_reg
}

/// The value of register `reg` in mode `mode` once the listed registers
/// below `limit` were loaded into the registers of mode `transfer_mode`.
/// `before` holds the registers as they were, but for the visible ones,
/// which `cur` holds.
pub open spec fn spec_loaded_reg(
    before: Regs,
    cur: Seq<u32>,
    memory: Seq<u8>,
    instr: u32,
    first: u32,
    limit: u32,
    transfer_mode: Mode,
    mode: Mode,
    reg: int,
) -> u32 {
    if reg < limit && spec_listed(instr, reg as u32) && !Regs::banked_apart(
        reg,
        transfer_mode,
        mode,
    ) {
        spec_read_32(memory, spec_transfer_addr(instr, first, reg as u32))
    } else if Regs::banked_apart(reg, before.cpsr.mode(), mode) {
        before.reg_in_mode(before.cpsr.mode(), mode, reg)
    } else {
        cur[reg]
    }
}

/// Whether the registers `after`, of which those of mode `final_mode` are
/// visible, hold in every mode what a block load leaves there: the loaded
/// words, and in the base register of mode `final_mode` the moved base,
/// where it was moved.
pub open spec fn spec_ldm_regs(
    after: Regs,
    before: Regs,
    cur: Seq<u32>,
    memory: Seq<u8>,
    instr: u32,
    first: u32,
    limit: u32,
    transfer_mode: Mode,
    final_mode: Mode,
    base_reg: u8,
    moved: Option<u32>,
) -> bool {
    forall|mode: Mode, reg: int|
        0 <= reg < 16 ==> #[trigger] after.reg_in_mode(final_mode, mode, reg) == (if moved is Some
            && reg == base_reg && !Regs::banked_apart(reg, final_mode, mode) {
            moved->0
        } else {
            spec_loaded_reg(before, cur, memory, instr, first, limit, transfer_mode, mode, reg)
        })
}

/// How a block load that loaded the program counter ends: the pipeline is
/// filled anew, in the instruction set that the restored status register
/// names where the load restored it, in the 32-bit one where loads are kept
/// from changing it, and else in the one that bit 0 of the loaded value
/// names.
pub open spec fn spec_load_pc_outcome(s_bit: bool, t_bit_load_disabled: bool) -> Outcome {
    Outcome::ReloadPipeline(
        if s_bit {
            StateSource::Cpsr
        } else if t_bit_load_disabled {
            StateSource::Arm
        } else {
            StateSource::R15Bit0
        },
    )
}

/// Loads a block of registers.
///
/// Bits 16 to 19 of the instruction name the base register. `UPWARDS` says
/// whether the block lies above the base or below it, `PREINC` whether it
/// begins one word further from the base, and `WRITEBACK` whether the base
/// register is moved past the block. With `S_BIT`, a load that does not
/// include the program counter loads the registers of user mode in place of
/// the visible ones, and one that does returns from an exception.
///
/// The first transfer that the protection unit refuses ends the instruction
/// in a data abort: what was loaded before stays loaded, and the base
/// register is not moved. With an empty list nothing is loaded, and the base
/// register moves by sixteen words.
#[verifier::rlimit(100)]
pub fn ldm<const UPWARDS: bool, const PREINC: bool, const WRITEBACK: bool, const S_BIT: bool>(
    emu: &mut Emu,
    instr: u32,
) -> (outcome: Outcome)
    ensures
        ({
            let before = old(emu).arm9;
            let after = final(emu).arm9;
            let memory = old(emu).memory@;
            let base_reg = spec_reg_field(instr, 16);
            let base = before.regs.cur[base_reg as int];
            let fetched = spec_prefetched(before.regs.cur@);
            let started = spec_wait_until(
                before.cur_time,
                before.interlocks[base_reg as int].port_ab,
            );
            let mode = before.regs.cpsr.mode();
            let privileged = before.regs.is_in_priv_mode();
            let count = spec_listed_below(instr, 16);
            let first = spec_first_addr(instr, base, UPWARDS, PREINC);
            let load_pc = spec_listed(instr, 15);
            let transfer_mode = if S_BIT && !load_pc {
                Mode::User
            } else {
                mode
            };
            let refused = spec_refused_below(
                before.cp15.perm_map@,
                privileged,
                false,
                instr,
                first,
                16,
            );
            let start = spec_block_start(
                before.cp15.timings@,
                false,
                started,
                before.data_cycles,
                first,
            );
            let loaded = spec_block_timing(
                before.cp15.timings@,
                before.interlocks@,
                false,
                false,
                instr,
                first,
                start,
                if refused < 15 {
                    refused
                } else {
                    15
                },
            );
            let moved = if WRITEBACK && spec_ldm_moves_base(instr, base_reg) {
                Some(spec_block_end(instr, base, UPWARDS))
            } else {
                None
            };
            &&& final(emu).memory@ == memory
            &&& after.bus_cycles == before.bus_cycles.wrapping_add(2)
            &&& after.fetches == before.fetches.wrapping_add(1)
            &&& after.cp15 == before.cp15
            &&& if count == 0 {
                &&& outcome == Outcome::Done
                &&& spec_regs_hold(
                    after.regs,
                    before.regs,
                    if WRITEBACK {
                        fetched.update(base_reg as int, spec_empty_block_end(base, UPWARDS))
                    } else {
                        fetched
                    },
                )
                &&& after.cur_time == started.wrapping_add(1)
                &&& after.data_cycles == 1
                &&& after.interlocks == before.interlocks
            } else if refused < 16 {
                &&& outcome == Outcome::DataAbort {
                    addr: spec_transfer_addr(instr, first, refused),
                }
                &&& after.regs.cpsr == before.regs.cpsr
                &&& after.regs.spsr == before.regs.spsr
                &&& spec_ldm_regs(
                    after.regs,
                    before.regs,
                    fetched,
                    memory,
                    instr,
                    first,
                    refused,
                    transfer_mode,
                    mode,
                    base_reg,
                    None,
                )
                &&& after.cur_time == spec_block_arrive(loaded, None).cur_time.wrapping_add(
                    (count - spec_listed_below(instr, refused)) as u64,
                )
                &&& after.data_cycles == 1
                &&& after.interlocks == before.interlocks
            } else if load_pc {
                &&& outcome == spec_load_pc_outcome(
                    S_BIT,
                    before.cp15.control.t_bit_load_disabled(),
                )
                &&& after.regs.cpsr == (if S_BIT && mode.has_spsr() {
                    crate::cpu::psr::Cpsr(before.regs.spsr)
                } else {
                    before.regs.cpsr
                })
                &&& spec_ldm_regs(
                    after.regs,
                    before.regs,
                    fetched,
                    memory,
                    instr,
                    first,
                    16,
                    transfer_mode,
                    if S_BIT {
                        before.regs.mode_after_return()
                    } else {
                        mode
                    },
                    base_reg,
                    moved,
                )
                &&& after.cur_time == spec_block_arrive(loaded, None).cur_time.wrapping_add(
                    (loaded.access_cycles + 1) as u64,
                )
                &&& after.data_cycles == 1
                &&& after.interlocks == before.interlocks
            } else {
                let finish = spec_block_finish(loaded, count == 1);
                &&& outcome == Outcome::Done
                &&& after.regs.cpsr == before.regs.cpsr
                &&& after.regs.spsr == before.regs.spsr
                &&& spec_ldm_regs(
                    after.regs,
                    before.regs,
                    fetched,
                    memory,
                    instr,
                    first,
                    16,
                    transfer_mode,
                    mode,
                    base_reg,
                    moved,
                )
                &&& after.cur_time == finish.0
                &&& after.data_cycles == finish.1
                &&& after.interlocks@ == (if count != 1 && !S_BIT {
                    before.interlocks@.update(
                        spec_highest_listed(instr, 16),
                        Interlock::spec_starting(finish.0, 1, 1),
                    )
                } else {
                    before.interlocks@
                })
            }
        }),
{
    let base_reg: u8 = reg_field(instr, 16);
    emu.apply_reg_interlock_1::<false>(base_reg);
    emu.add_bus_cycles(2);
    let base: u32 = emu.arm9.regs.cur[base_reg as usize];
    emu.prefetch_arm();
    let count: u32 = count_listed(instr);
    let ghost before = old(emu).arm9;
    let ghost memory = old(emu).memory@;
    let ghost fetched = spec_prefetched(before.regs.cur@);
    let ghost fetched_regs = emu.arm9.regs;
    if count == 0 {
        emu.add_cycles(1);
        if WRITEBACK {
            emu.arm9.regs.cur[base_reg as usize] =
            if UPWARDS {
                base.wrapping_add(0x40)
            } else {
                base.wrapping_sub(0x40)
            };
        }
        emu.arm9.data_cycles = 1;
        return Outcome::Done;
    }
    let start_addr: u32 = if UPWARDS {
        base
    } else {
        base.wrapping_sub(count * 4)
    };
    let mut cur_addr: u32 = start_addr;
    let mode: Mode = emu.arm9.regs.cpsr.mode();
    let privileged: bool = emu.arm9.regs.is_in_priv_mode();
    let load_pc: bool = instr & 1u32 << 15u32 != 0;
    let user_bank: bool = S_BIT && !load_pc;
    if user_bank {
        emu.arm9.regs.update_mode(mode, Mode::User);
    }
    if PREINC {
        cur_addr = cur_addr.wrapping_add(4);
    }
    let ghost first = cur_addr;
    let ghost transfer_mode = if user_bank {
        Mode::User
    } else {
        mode
    };
    let ghost table = before.cp15.timings@;
    let ghost start = spec_block_start(table, false, emu.arm9.cur_time, before.data_cycles, first);
    let ghost switched = emu.arm9;
    let mut not_first: bool = false;
    let mut last_listed: u32 = 0;
    let mut timings = emu.timings(cur_addr);
    let mut access_cycles: u8 = timings.r_n32_data;
    let mut reg: u32 = 0;
    proof {
        assert forall|m: Mode, r: int| 0 <= r < 16 implies #[trigger] emu.arm9.regs.reg_in_mode(
            transfer_mode,
            m,
            r,
        ) == spec_loaded_reg(
            before.regs,
            fetched,
            memory,
            instr,
            first,
            0,
            transfer_mode,
            m,
            r,
        ) by {
            assert(emu.arm9.regs.reg_in_mode(transfer_mode, m, r) == fetched_regs.reg_in_mode(
                mode,
                m,
                r,
            ));
        }
    }
    while reg < 15
        invariant
            reg <= 15,
            count == spec_listed_below(instr, 16),
            count > 0,
            before == old(emu).arm9,
            memory == old(emu).memory@,
            emu.memory@ == memory,
            base_reg == spec_reg_field(instr, 16),
            base == before.regs.cur[base_reg as int],
            fetched == spec_prefetched(before.regs.cur@),
            first == spec_first_addr(instr, base, UPWARDS, PREINC),
            table == before.cp15.timings@,
            privileged == before.regs.is_in_priv_mode(),
            mode == before.regs.cpsr.mode(),
            load_pc == spec_listed(instr, 15),
            user_bank == (S_BIT && !load_pc),
            transfer_mode == (if user_bank {
                Mode::User
            } else {
                mode
            }),
            start == spec_block_start(
                table,
                false,
                spec_wait_until(before.cur_time, before.interlocks[base_reg as int].port_ab),
                before.data_cycles,
                first,
            ),
            spec_refused_below(before.cp15.perm_map@, privileged, false, instr, first, reg) == reg,
            cur_addr == spec_transfer_addr(instr, first, reg),
            (BlockTiming {
                cur_time: emu.arm9.cur_time,
                data_cycles: emu.arm9.data_cycles,
                access_cycles,
                timings,
                not_first,
            }) == spec_block_timing(
                table,
                before.interlocks@,
                false,
                false,
                instr,
                first,
                start,
                reg,
            ),
            not_first == (spec_listed_below(instr, reg) > 0),
            not_first ==> last_listed == spec_highest_listed(instr, reg),
            !not_first ==> spec_highest_listed(instr, reg) == -1,
            last_listed < 15,
            emu.arm9 == (Arm9 {
                regs: emu.arm9.regs,
                cur_time: emu.arm9.cur_time,
                data_cycles: emu.arm9.data_cycles,
                ..switched
            }),
            switched.cp15 == before.cp15,
            switched.interlocks == before.interlocks,
            switched.fetches == before.fetches.wrapping_add(1),
            switched.bus_cycles == before.bus_cycles.wrapping_add(2),
            emu.arm9.regs.cpsr == before.regs.cpsr,
            emu.arm9.regs.spsr == before.regs.spsr,
            emu.arm9.regs.spsr_banks == before.regs.spsr_banks,
            forall|m: Mode, r: int|
                0 <= r < 16 ==> #[trigger] emu.arm9.regs.reg_in_mode(transfer_mode, m, r)
                    == spec_loaded_reg(
                    before.regs,
                    fetched,
                    memory,
                    instr,
                    first,
                    reg,
                    transfer_mode,
                    m,
                    r,
                ),
        decreases 15 - reg,
    {
        proof {
            lemma_next_transfer_addr(instr, first, reg);
            lemma_listed_below_bound(instr, reg);
        }
        if instr & 1u32 << reg != 0 {
            if not_first {
                emu.add_cycles(emu.arm9.data_cycles as u64);
            }
            if !emu.can_read(cur_addr, privileged) {
                // The instruction runs to its end before the abort is taken;
                // every transfer from here on takes one cycle.
                emu.arm9.data_cycles = 1;
                let ghost loaded_regs = emu.arm9.regs;
                if user_bank {
                    emu.arm9.regs.update_mode(Mode::User, mode);
                }
                proof {
                    assert forall|m: Mode, r: int|
                        0 <= r < 16 implies #[trigger] emu.arm9.regs.reg_in_mode(mode, m, r)
                        == spec_loaded_reg(
                        before.regs,
                        fetched,
                        memory,
                        instr,
                        first,
                        reg,
                        transfer_mode,
                        m,
                        r,
                    ) by {
                        assert(loaded_regs.reg_in_mode(transfer_mode, m, r) == spec_loaded_reg(
                            before.regs,
                            fetched,
                            memory,
                            instr,
                            first,
                            reg,
                            transfer_mode,
                            m,
                            r,
                        ));
                    }
                }
                let ghost arrived = emu.arm9.cur_time;
                let mut rest: u32 = reg + 1;
                while rest < 16
                    invariant
                        reg < rest <= 16,
                        emu.arm9.cur_time == arrived.wrapping_add(
                            (spec_listed_below(instr, rest) - spec_listed_below(
                                instr,
                                (reg + 1) as u32,
                            )) as u64,
                        ),
                        spec_listed_below(instr, (reg + 1) as u32) <= spec_listed_below(instr, rest)
                            <= rest,
                        emu.memory@ == memory,
                        emu.arm9.data_cycles == 1,
                        emu.arm9.fetches == before.fetches.wrapping_add(1),
                        emu.arm9.cp15 == before.cp15,
                        emu.arm9.interlocks == before.interlocks,
                        emu.arm9.bus_cycles == before.bus_cycles.wrapping_add(2),
                        emu.arm9.regs.cpsr == before.regs.cpsr,
                        emu.arm9.regs.spsr == before.regs.spsr,
                        spec_ldm_regs(
                            emu.arm9.regs,
                            before.regs,
                            fetched,
                            memory,
                            instr,
                            first,
                            reg,
                            transfer_mode,
                            mode,
                            base_reg,
                            None,
                        ),
                    decreases 16 - rest,
                {
                    if instr & 1u32 << rest != 0 {
                        emu.add_cycles(1);
                    }
                    rest += 1;
                }
                emu.add_cycles(1);
                proof {
                    lemma_refused_stays(
                        before.cp15.perm_map@,
                        privileged,
                        false,
                        instr,
                        first,
                        reg,
                        16,
                    );
                }
                return Outcome::DataAbort { addr: cur_addr };
            }
            let ghost unloaded = emu.arm9.regs;
            let word: u32 = emu.read_32(cur_addr);
            emu.arm9.regs.cur[reg as usize] = word;
            proof {
                assert forall|m: Mode, r: int|
                    0 <= r < 16 implies #[trigger] emu.arm9.regs.reg_in_mode(transfer_mode, m, r)
                    == spec_loaded_reg(
                    before.regs,
                    fetched,
                    memory,
                    instr,
                    first,
                    (reg + 1) as u32,
                    transfer_mode,
                    m,
                    r,
                ) by {
                    assert(unloaded.reg_in_mode(transfer_mode, m, r) == spec_loaded_reg(
                        before.regs,
                        fetched,
                        memory,
                        instr,
                        first,
                        reg,
                        transfer_mode,
                        m,
                        r,
                    ));
                }
            }
            emu.arm9.data_cycles = access_cycles;
            cur_addr = cur_addr.wrapping_add(4);
            if cur_addr & 0x3FC == 0 {
                timings = emu.timings(cur_addr);
                access_cycles = timings.r_n32_data;
            } else {
                access_cycles = timings.r_s32_data;
            }
            not_first = true;
            last_listed = reg;
        }
        reg += 1;
    }
    let outcome: Outcome;
    let ghost loaded_regs = emu.arm9.regs;
    let ghost final_mode;
    if !load_pc {
        if S_BIT {
            emu.arm9.regs.update_mode(Mode::User, mode);
        }
        if count == 1 {
            // A single register: its access comes to an end within the
            // instruction.
            emu.add_cycles(emu.arm9.data_cycles as u64);
            emu.arm9.data_cycles = 1;
        } else if !S_BIT {
            emu.add_interlock(last_listed as u8, 1, 1);
        }
        outcome = Outcome::Done;
        proof {
            final_mode = mode;
            reveal_with_fuel(spec_refused_below, 2);
            reveal_with_fuel(spec_listed_below, 2);
            reveal_with_fuel(spec_highest_listed, 2);
        }
    } else {
        if not_first {
            emu.add_cycles(emu.arm9.data_cycles as u64);
        }
        emu.arm9.data_cycles = 1;
        if !emu.can_read(cur_addr, privileged) {
            emu.add_cycles(1);
            proof {
                reveal_with_fuel(spec_refused_below, 2);
                reveal_with_fuel(spec_listed_below, 2);
                lemma_listed_below_bound(instr, 15);
                assert forall|m: Mode, r: int|
                    0 <= r < 16 implies #[trigger] emu.arm9.regs.reg_in_mode(mode, m, r)
                    == spec_loaded_reg(
                    before.regs,
                    fetched,
                    memory,
                    instr,
                    first,
                    15,
                    transfer_mode,
                    m,
                    r,
                ) by {
                    assert(loaded_regs.reg_in_mode(transfer_mode, m, r) == spec_loaded_reg(
                        before.regs,
                        fetched,
                        memory,
                        instr,
                        first,
                        15,
                        transfer_mode,
                        m,
                        r,
                    ));
                }
            }
            return Outcome::DataAbort { addr: cur_addr };
        }
        let word: u32 = emu.read_32(cur_addr);
        emu.arm9.regs.cur[15] = word;
        emu.add_cycles(access_cycles as u64 + 1);
        let ghost pc_loaded = emu.arm9.regs;
        if S_BIT {
            emu.arm9.regs.restore_spsr();
            outcome = Outcome::ReloadPipeline(StateSource::Cpsr);
            proof {
                final_mode = before.regs.mode_after_return();
            }
        } else if emu.arm9.cp15.control.t_bit_load_disabled() {
            outcome = Outcome::ReloadPipeline(StateSource::Arm);
            proof {
                final_mode = mode;
            }
        } else {
            outcome = Outcome::ReloadPipeline(StateSource::R15Bit0);
            proof {
                final_mode = mode;
            }
        }
        proof {
            reveal_with_fuel(spec_refused_below, 2);
            reveal_with_fuel(spec_listed_below, 2);
            assert forall|m: Mode, r: int| 0 <= r < 16 implies #[trigger] pc_loaded.reg_in_mode(
                mode,
                m,
                r,
            ) == spec_loaded_reg(
            before.regs,
            fetched,
            memory,
            instr,
            first,
            16,
            transfer_mode,
            m,
            r,
        ) by {
                assert(loaded_regs.reg_in_mode(transfer_mode, m, r) == spec_loaded_reg(
                    before.regs,
                    fetched,
                    memory,
                    instr,
                    first,
                    15,
                    transfer_mode,
                    m,
                    r,
                ));
            }
            assert forall|m: Mode, r: int| 0 <= r < 16 implies #[trigger] emu.arm9.regs.reg_in_mode(
                final_mode,
                m,
                r,
            ) == spec_loaded_reg(
            before.regs,
            fetched,
            memory,
            instr,
            first,
            16,
            transfer_mode,
            m,
            r,
        ) by {
                assert(pc_loaded.reg_in_mode(mode, m, r) == spec_loaded_reg(
                    before.regs,
                    fetched,
                    memory,
                    instr,
                    first,
                    16,
                    transfer_mode,
                    m,
                    r,
                ));
            }
        }
        cur_addr = cur_addr.wrapping_add(4);
    }
    let ghost settled = emu.arm9.regs;
    proof {
        assert forall|m: Mode, r: int| 0 <= r < 16 implies #[trigger] settled.reg_in_mode(
            final_mode,
            m,
            r,
        ) == spec_loaded_reg(
            before.regs,
            fetched,
            memory,
            instr,
            first,
            16,
            transfer_mode,
            m,
            r,
        ) by {
            if !load_pc {
                assert(loaded_regs.reg_in_mode(transfer_mode, m, r) == spec_loaded_reg(
                    before.regs,
                    fetched,
                    memory,
                    instr,
                    first,
                    15,
                    transfer_mode,
                    m,
                    r,
                ));
            }
        }
    }
    let highest: u32 = if load_pc {
        15
    } else {
        last_listed
    };
    if WRITEBACK && (instr & 1u32 << (base_reg as u32) == 0 || count == 1 || highest
        > base_reg as u32) {
        emu.arm9.regs.cur[base_reg as usize] =
        if UPWARDS {
            cur_addr.wrapping_sub(
                if PREINC {
                    4
                } else {
                    0
                },
            )
        } else {
            start_addr
        };
    }
    proof {
        reveal_with_fuel(spec_highest_listed, 2);
        reveal_with_fuel(spec_listed_below, 2);
        lemma_next_transfer_addr(instr, first, 15);
        lemma_listed_below_bound(instr, 15);
        let moved = if WRITEBACK && spec_ldm_moves_base(instr, base_reg) {
            Some(spec_block_end(instr, base, UPWARDS))
        } else {
            None
        };
        assert forall|m: Mode, r: int| 0 <= r < 16 implies #[trigger] emu.arm9.regs.reg_in_mode(
            final_mode,
            m,
            r,
        ) == (if moved is Some && r == base_reg && !Regs::banked_apart(r, final_mode, m) {
            moved->0
        } else {
            spec_loaded_reg(before.regs, fetched, memory, instr, first, 16, transfer_mode, m, r)
        }) by {
            assert(settled.reg_in_mode(final_mode, m, r) == spec_loaded_reg(
                before.regs,
                fetched,
                memory,
                instr,
                first,
                16,
                transfer_mode,
                m,
                r,
            ));
        }
    }
    outcome
}

} // verus!
