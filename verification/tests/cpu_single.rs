use dust_core::cpu::arm9::mem::double::MiscAddressing;
use dust_core::cpu::arm9::mem::single::{shift_imm, ShiftTy, WbAddressing, WbOffTy};
use dust_core::cpu::arm9::mem::{ldr, ldrb, ldrh, ldrsb, ldrsh, str, strb, strh};
use dust_core::cpu::arm9::{
    Arm9, Cp15, Cp15Control, Emu, Interlock, Outcome, StateSource, Timings,
};
use dust_core::cpu::psr::Cpsr;
use dust_core::cpu::regs::Regs;

/// A machine in supervisor mode with one page of memory that allows every access, in
/// which byte `i` holds `i`, and with register `n` holding `0x100 * n`.
fn single_machine() -> Emu {
    let mut cur = [0u32; 16];
    for (n, reg) in cur.iter_mut().enumerate() {
        *reg = 0x100 * n as u32;
    }
    Emu {
        arm9: Arm9 {
            regs: Regs {
                cur,
                cpsr: Cpsr(0x13),
                spsr: 0,
                r8_12_other: [0; 5],
                r8_12_fiq: [0; 5],
                r13_14: [[0; 2]; 6],
                spsr_banks: [0; 6],
            },
            data_cycles: 9,
            interlocks: [Interlock { port_ab: 0, port_c: 0 }; 16],
            cur_time: 1000,
            bus_cycles: 0,
            fetches: 0,
            cp15: Cp15 {
                control: Cp15Control(0),
                perm_map: vec![0x0F],
                timings: vec![Timings {
                    r_n32_data: 3,
                    r_s32_data: 2,
                    w_n32_data: 5,
                    w_s32_data: 4,
                    r_n16_data: 7,
                    w_n16_data: 6,
                }],
            },
        },
        memory: (0..0x1000).map(|i| i as u8).collect(),
    }
}

#[test]
fn offsets_are_shifted_as_the_instruction_says() {
    assert_eq!(shift_imm(ShiftTy::Lsl, 0x8000_0003, 0, false), 0x8000_0003);
    assert_eq!(shift_imm(ShiftTy::Lsl, 0x8000_0003, 4, false), 0x30);
    assert_eq!(shift_imm(ShiftTy::Lsr, 0x8000_0003, 1, false), 0x4000_0001);
    assert_eq!(shift_imm(ShiftTy::Lsr, 0x8000_0003, 0, false), 0);
    assert_eq!(shift_imm(ShiftTy::Asr, 0x8000_0003, 1, false), 0xC000_0001);
    assert_eq!(shift_imm(ShiftTy::Asr, 0x8000_0003, 0, false), 0xFFFF_FFFF);
    assert_eq!(shift_imm(ShiftTy::Asr, 0x7000_0003, 0, false), 0);
    assert_eq!(shift_imm(ShiftTy::Asr, 0x7000_0000, 28, false), 7);
    assert_eq!(shift_imm(ShiftTy::Ror, 0x8000_0003, 1, false), 0xC000_0001);
    assert_eq!(shift_imm(ShiftTy::Ror, 0x8000_0003, 0, false), 0x4000_0001);
    assert_eq!(shift_imm(ShiftTy::Ror, 0x8000_0003, 0, true), 0xC000_0001);
}

#[test]
fn ldr_loads_a_word() {
    let mut emu = single_machine();
    assert_eq!(
        ldr::<true>(&mut emu, 0x0001_2010, WbOffTy::Imm, WbAddressing::PreNoWb),
        Outcome::Done
    );
    assert_eq!(emu.arm9.regs.cur[2], 0x1312_1110);
    assert_eq!(emu.arm9.regs.cur[1], 0x100);
    assert_eq!(emu.arm9.regs.cur[15], 0xF04);
    assert_eq!(emu.arm9.cur_time, 1000);
    assert_eq!(emu.arm9.data_cycles, 3);
    assert_eq!(emu.arm9.bus_cycles, 1);
    assert_eq!(emu.arm9.fetches, 1);
    assert_eq!(emu.arm9.interlocks[2], Interlock { port_ab: 1001, port_c: 1000 });
}

#[test]
fn ldr_rotates_a_word_from_an_odd_address_and_moves_its_base() {
    let mut emu = single_machine();
    assert_eq!(
        ldr::<true>(&mut emu, 0x0001_2011, WbOffTy::Imm, WbAddressing::Pre),
        Outcome::Done
    );
    assert_eq!(emu.arm9.regs.cur[2], 0x1013_1211);
    assert_eq!(emu.arm9.regs.cur[1], 0x111);
    assert_eq!(emu.arm9.interlocks[2], Interlock { port_ab: 1002, port_c: 1001 });
}

#[test]
fn ldr_takes_a_shifted_register_as_its_offset() {
    let mut emu = single_machine();
    assert_eq!(
        ldr::<true>(&mut emu, 0x0001_2103, WbOffTy::Reg(ShiftTy::Lsl), WbAddressing::PreNoWb),
        Outcome::Done
    );
    assert_eq!(emu.arm9.regs.cur[2], 0x0302_0100);
    assert_eq!(emu.arm9.bus_cycles, 2);
    assert_eq!(emu.arm9.cur_time, 1001);
    assert_eq!(emu.arm9.interlocks[2], Interlock { port_ab: 1002, port_c: 1001 });
    let mut emu = single_machine();
    emu.arm9.regs.cur[1] = 0x200;
    emu.arm9.regs.cpsr = Cpsr(0x2000_0013);
    emu.arm9.regs.cur[3] = 0x21;
    // The offset register is rotated through the carry: it is taken off.
    ldr::<false>(&mut emu, 0x0001_2003, WbOffTy::Reg(ShiftTy::Ror), WbAddressing::Post);
    assert_eq!(emu.arm9.regs.cur[1], 0x200u32.wrapping_sub(0x8000_0010));
}

#[test]
fn ldr_waits_for_base_and_offset() {
    let mut emu = single_machine();
    emu.arm9.interlocks[1] = Interlock { port_ab: 1010, port_c: 0 };
    emu.arm9.interlocks[3] = Interlock { port_ab: 1020, port_c: 0 };
    ldr::<true>(&mut emu, 0x0001_2003, WbOffTy::Imm, WbAddressing::PreNoWb);
    assert_eq!(emu.arm9.cur_time, 1010);
    let mut emu = single_machine();
    emu.arm9.interlocks[1] = Interlock { port_ab: 1010, port_c: 0 };
    emu.arm9.interlocks[3] = Interlock { port_ab: 1020, port_c: 0 };
    ldr::<true>(&mut emu, 0x0001_2103, WbOffTy::Reg(ShiftTy::Lsl), WbAddressing::PreNoWb);
    assert_eq!(emu.arm9.cur_time, 1021);
}

#[test]
fn ldr_of_the_program_counter_fills_the_pipeline() {
    let mut emu = single_machine();
    assert_eq!(
        ldr::<true>(&mut emu, 0x0001_F004, WbOffTy::Imm, WbAddressing::Post),
        Outcome::ReloadPipeline(StateSource::R15Bit0)
    );
    assert_eq!(emu.arm9.regs.cur[15], 0x0302_0100);
    assert_eq!(emu.arm9.regs.cur[1], 0x104);
    assert_eq!(emu.arm9.cur_time, 1004);
    assert_eq!(emu.arm9.data_cycles, 1);
    assert_eq!(emu.arm9.bus_cycles, 2);
    let mut emu = single_machine();
    emu.arm9.cp15.control = Cp15Control(1 << 15);
    assert_eq!(
        ldr::<true>(&mut emu, 0x0001_F103, WbOffTy::Reg(ShiftTy::Lsl), WbAddressing::PreNoWb),
        Outcome::ReloadPipeline(StateSource::Arm)
    );
    assert_eq!(emu.arm9.cur_time, 1005);
    assert_eq!(emu.arm9.bus_cycles, 2);
}

#[test]
fn a_loaded_base_is_not_moved() {
    let mut emu = single_machine();
    ldr::<true>(&mut emu, 0x0001_1004, WbOffTy::Imm, WbAddressing::Post);
    assert_eq!(emu.arm9.regs.cur[1], 0x0302_0100);
}

#[test]
fn a_refused_access_changes_nothing_but_the_time() {
    let mut emu = single_machine();
    emu.arm9.cp15.perm_map[0] = 0x0A;
    let memory = emu.memory.clone();
    assert_eq!(
        ldr::<true>(&mut emu, 0x0001_2010, WbOffTy::Imm, WbAddressing::Pre),
        Outcome::DataAbort { addr: 0x110 }
    );
    assert_eq!(emu.arm9.regs.cur[2], 0x200);
    assert_eq!(emu.arm9.regs.cur[1], 0x100);
    assert_eq!(emu.arm9.regs.cur[15], 0xF04);
    assert_eq!(emu.memory, memory);
    assert_eq!(emu.arm9.cur_time, 1001);
    assert_eq!(emu.arm9.data_cycles, 1);
    assert_eq!(emu.arm9.bus_cycles, 2);
    let mut emu = single_machine();
    emu.arm9.cp15.perm_map[0] = 0x05;
    assert_eq!(
        strh::<true, true>(&mut emu, 0x0001_2000, MiscAddressing::Pre),
        Outcome::DataAbort { addr: 0x100 }
    );
    assert_eq!(emu.arm9.bus_cycles, 4);
    let mut emu = single_machine();
    emu.arm9.cp15.perm_map[0] = 0x05;
    assert_eq!(
        str::<true>(&mut emu, 0x0001_2103, WbOffTy::Reg(ShiftTy::Lsl), WbAddressing::Pre),
        Outcome::DataAbort { addr: 0xD00 }
    );
    assert_eq!(emu.arm9.bus_cycles, 2);
    assert_eq!(emu.arm9.cur_time, 1002);
}

#[test]
fn an_access_as_user_needs_the_permissions_of_user_mode() {
    let mut emu = single_machine();
    emu.arm9.cp15.perm_map[0] = 0x0C;
    assert_eq!(
        ldr::<true>(&mut emu, 0x0001_2004, WbOffTy::Imm, WbAddressing::Post),
        Outcome::Done
    );
    let mut emu = single_machine();
    emu.arm9.cp15.perm_map[0] = 0x0C;
    assert_eq!(
        ldr::<true>(&mut emu, 0x0001_2004, WbOffTy::Imm, WbAddressing::PostUser),
        Outcome::DataAbort { addr: 0x100 }
    );
    let mut emu = single_machine();
    emu.arm9.cp15.perm_map[0] = 0x03;
    assert_eq!(
        strb::<true>(&mut emu, 0x0001_2004, WbOffTy::Imm, WbAddressing::PostUser),
        Outcome::Done
    );
    assert_eq!(emu.arm9.regs.cur[1], 0x104);
}

#[test]
fn str_stores_a_word_once_its_data_are_there() {
    let mut emu = single_machine();
    emu.arm9.regs.cur[2] = 0xAABB_CCDD;
    emu.arm9.interlocks[2] = Interlock { port_ab: 9999, port_c: 1030 };
    assert_eq!(
        str::<false>(&mut emu, 0x0001_2011, WbOffTy::Imm, WbAddressing::Post),
        Outcome::Done
    );
    assert_eq!(emu.memory[0x100..0x104], [0xDD, 0xCC, 0xBB, 0xAA]);
    assert_eq!(emu.memory[0x104], 0x04);
    assert_eq!(emu.arm9.regs.cur[1], 0xEF);
    assert_eq!(emu.arm9.cur_time, 1030);
    assert_eq!(emu.arm9.data_cycles, 5);
    assert_eq!(emu.arm9.bus_cycles, 1);
    assert_eq!(emu.arm9.interlocks[1], Interlock { port_ab: 0, port_c: 0 });
}

#[test]
fn str_of_the_program_counter_stores_it_one_instruction_ahead() {
    let mut emu = single_machine();
    str::<true>(&mut emu, 0x0001_F000, WbOffTy::Imm, WbAddressing::PreNoWb);
    assert_eq!(emu.memory[0x100..0x104], [0x04, 0x0F, 0, 0]);
}

#[test]
fn bytes_are_loaded_and_stored() {
    let mut emu = single_machine();
    emu.arm9.regs.cur[1] = 0x1F3;
    assert_eq!(
        ldrb::<true>(&mut emu, 0x0001_2000, WbOffTy::Imm, WbAddressing::PreNoWb),
        Outcome::Done
    );
    assert_eq!(emu.arm9.regs.cur[2], 0xF3);
    assert_eq!(emu.arm9.data_cycles, 7);
    assert_eq!(emu.arm9.interlocks[2], Interlock { port_ab: 1002, port_c: 1001 });
    let mut emu = single_machine();
    emu.arm9.regs.cur[1] = 0x1F3;
    assert_eq!(
        ldrsb::<true, true>(&mut emu, 0x0001_2000, MiscAddressing::PreNoWb),
        Outcome::Done
    );
    assert_eq!(emu.arm9.regs.cur[2], 0xFFFF_FFF3);
    let mut emu = single_machine();
    emu.arm9.regs.cur[1] = 0x173;
    ldrsb::<true, true>(&mut emu, 0x0001_2000, MiscAddressing::PreNoWb);
    assert_eq!(emu.arm9.regs.cur[2], 0x73);
    let mut emu = single_machine();
    emu.arm9.regs.cur[2] = 0xAABB_CCDD;
    assert_eq!(
        strb::<true>(&mut emu, 0x0001_2003, WbOffTy::Imm, WbAddressing::PreNoWb),
        Outcome::Done
    );
    assert_eq!(emu.memory[0x102..0x105], [0x02, 0xDD, 0x04]);
    assert_eq!(emu.arm9.data_cycles, 6);
}

#[test]
fn halfwords_are_loaded_and_stored() {
    let mut emu = single_machine();
    // An offset of 0x84 from the instruction.
    assert_eq!(
        ldrh::<true, true>(&mut emu, 0x0001_2804, MiscAddressing::Pre),
        Outcome::Done
    );
    assert_eq!(emu.arm9.regs.cur[2], 0x8584);
    assert_eq!(emu.arm9.regs.cur[1], 0x184);
    assert_eq!(emu.arm9.data_cycles, 7);
    assert_eq!(emu.arm9.bus_cycles, 1);
    assert_eq!(emu.arm9.interlocks[2], Interlock { port_ab: 1002, port_c: 1001 });
    // From an odd address the halfword below it is read.
    let mut emu = single_machine();
    emu.arm9.regs.cur[1] = 0x185;
    ldrh::<true, true>(&mut emu, 0x0001_2000, MiscAddressing::PreNoWb);
    assert_eq!(emu.arm9.regs.cur[2], 0x8584);
    let mut emu = single_machine();
    ldrsh::<true, true>(&mut emu, 0x0001_2804, MiscAddressing::PreNoWb);
    assert_eq!(emu.arm9.regs.cur[2], 0xFFFF_8584);
    let mut emu = single_machine();
    ldrsh::<true, true>(&mut emu, 0x0001_2004, MiscAddressing::PreNoWb);
    assert_eq!(emu.arm9.regs.cur[2], 0x0504);
    // A register as offset, taken off.
    let mut emu = single_machine();
    emu.arm9.regs.cur[3] = 0x10;
    emu.arm9.regs.cur[2] = 0xAABB_CCDD;
    assert_eq!(strh::<false, false>(&mut emu, 0x0001_2003, MiscAddressing::Pre), Outcome::Done);
    assert_eq!(emu.memory[0xEF..0xF3], [0xEF, 0xDD, 0xCC, 0xF2]);
    assert_eq!(emu.arm9.regs.cur[1], 0xF0);
    assert_eq!(emu.arm9.data_cycles, 6);
}
