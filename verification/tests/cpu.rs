use dust_core::cpu::arm9::mem::double::MiscAddressing;
use dust_core::cpu::arm9::mem::{ldm, ldrd, stm, strd, swp, swpb};
use dust_core::cpu::arm9::{
    rotate_right, Arm9, Cp15, Cp15Control, Emu, Interlock, Outcome, StateSource, Timings,
};
use dust_core::cpu::psr::{Bank, Cpsr, Mode};
use dust_core::cpu::regs::Regs;

const SUPERVISOR: u32 = 0x13;
const IRQ: u32 = 0x12;
const FIQ: u32 = 0x11;
const USER: u32 = 0x10;

fn page_timings() -> Timings {
    Timings {
        r_n32_data: 3,
        r_s32_data: 2,
        w_n32_data: 5,
        w_s32_data: 4,
        r_n16_data: 7,
        w_n16_data: 6,
    }
}

/// A machine in supervisor mode with one page of memory that allows every access, in
/// which byte `i` holds `i`, and with register `n` holding `0x100 * n`.
fn machine() -> Emu {
    let mut cur = [0u32; 16];
    for (n, reg) in cur.iter_mut().enumerate() {
        *reg = 0x100 * n as u32;
    }
    Emu {
        arm9: Arm9 {
            regs: Regs {
                cur,
                cpsr: Cpsr(SUPERVISOR),
                spsr: 0,
                r8_12_other: [0; 5],
                r8_12_fiq: [0; 5],
                r13_14: [[0; 2]; 6],
                spsr_banks: [0; 6],
            },
            data_cycles: 9,
            interlocks: [Interlock { port_ab: 0, port_c: 0 }; 16],
            cur_time: 1000,
            bus_cycles: 0,
            fetches: 0,
            cp15: Cp15 {
                control: Cp15Control(0),
                perm_map: vec![0x0F],
                timings: vec![page_timings()],
            },
        },
        memory: (0..0x1000).map(|i| i as u8).collect(),
    }
}

fn word_at(emu: &Emu, addr: usize) -> u32 {
    u32::from_le_bytes([
        emu.memory[addr],
        emu.memory[addr + 1],
        emu.memory[addr + 2],
        emu.memory[addr + 3],
    ])
}

#[test]
fn modes_are_read_from_the_status_register() {
    assert_eq!(Cpsr(0x10).mode(), Mode::User);
    assert_eq!(Cpsr(0x11).mode(), Mode::Fiq);
    assert_eq!(Cpsr(0x12).mode(), Mode::Irq);
    assert_eq!(Cpsr(0x6000_00D3).mode(), Mode::Supervisor);
    assert_eq!(Cpsr(0x17).mode(), Mode::Abort);
    assert_eq!(Cpsr(0x1B).mode(), Mode::Undefined);
    assert_eq!(Cpsr(0x1F).mode(), Mode::System);
    assert_eq!(Cpsr(0).mode(), Mode::User);
    assert!(!Mode::User.is_privileged());
    assert!(Mode::System.is_privileged());
    assert!(!Mode::System.has_spsr());
    assert!(Mode::Irq.has_spsr());
    assert_eq!(Mode::System.bank(), Bank::User);
    assert_eq!(Mode::Abort.bank(), Bank::Abort);
    assert_eq!(Bank::Undefined.index(), 5);
}

#[test]
fn a_word_is_rotated_right() {
    assert_eq!(rotate_right(0x1122_3344, 0), 0x1122_3344);
    assert_eq!(rotate_right(0x1122_3344, 8), 0x4411_2233);
    assert_eq!(rotate_right(0x1122_3344, 24), 0x2233_4411);
    assert_eq!(rotate_right(0x8000_0001, 1), 0xC000_0000);
    assert_eq!(rotate_right(0x1122_3344, 32), 0x1122_3344);
}

#[test]
fn switching_banks_hides_and_restores_registers() {
    let mut emu = machine();
    let regs = &mut emu.arm9.regs;
    regs.update_mode(Mode::Supervisor, Mode::Fiq);
    assert_eq!(regs.cur[7], 0x700);
    assert_eq!(regs.cur[8], 0);
    assert_eq!(regs.cur[14], 0);
    regs.cur[8] = 0xF8;
    regs.cur[13] = 0xFD;
    regs.update_mode(Mode::Fiq, Mode::User);
    assert_eq!(regs.cur[8], 0x800);
    assert_eq!(regs.cur[12], 0xC00);
    assert_eq!(regs.cur[13], 0);
    regs.update_mode(Mode::User, Mode::Supervisor);
    assert_eq!(regs.cur[8], 0x800);
    assert_eq!(regs.cur[13], 0xD00);
    assert_eq!(regs.cur[14], 0xE00);
    regs.update_mode(Mode::Supervisor, Mode::Fiq);
    assert_eq!(regs.cur[8], 0xF8);
    assert_eq!(regs.cur[13], 0xFD);
}

#[test]
fn user_and_system_mode_share_their_registers() {
    let mut emu = machine();
    let regs = &mut emu.arm9.regs;
    regs.update_mode(Mode::Supervisor, Mode::System);
    regs.cur[13] = 0x5D;
    regs.update_mode(Mode::System, Mode::User);
    assert_eq!(regs.cur[13], 0x5D);
    assert_eq!(regs.cur[8], 0x800);
}

#[test]
fn a_return_from_an_exception_restores_the_status_register() {
    let mut emu = machine();
    let regs = &mut emu.arm9.regs;
    regs.cpsr = Cpsr(IRQ);
    regs.spsr = 0x2000_0000 | USER;
    regs.spsr_banks[0] = 0xDEAD;
    regs.r13_14[0] = [0x111, 0x222];
    regs.restore_spsr();
    assert_eq!(regs.cpsr, Cpsr(0x2000_0000 | USER));
    assert_eq!(regs.cur[13], 0x111);
    assert_eq!(regs.cur[14], 0x222);
    assert_eq!(regs.r13_14[2], [0xD00, 0xE00]);
    assert_eq!(regs.spsr_banks[2], 0x2000_0000 | USER);
    // In user mode there is nothing to return from.
    let before = regs.cur;
    regs.restore_spsr();
    assert_eq!(regs.cpsr, Cpsr(0x2000_0000 | USER));
    assert_eq!(regs.cur, before);
}

#[test]
fn swp_swaps_a_word() {
    let mut emu = machine();
    emu.arm9.regs.cur[3] = 0xAABB_CCDD;
    assert_eq!(swp(&mut emu, 0x0001_2003), Outcome::Done);
    assert_eq!(emu.arm9.regs.cur[2], 0x0302_0100);
    assert_eq!(word_at(&emu, 0x100), 0xAABB_CCDD);
    assert_eq!(emu.memory[0xFF], 0xFF);
    assert_eq!(emu.memory[0x104], 0x04);
    assert_eq!(emu.arm9.regs.cur[15], 0xF04);
    assert_eq!(emu.arm9.regs.cur[1], 0x100);
    assert_eq!(emu.arm9.cur_time, 1003);
    assert_eq!(emu.arm9.data_cycles, 5);
    assert_eq!(emu.arm9.bus_cycles, 2);
    assert_eq!(emu.arm9.fetches, 1);
    assert_eq!(emu.arm9.interlocks[2], Interlock { port_ab: 1004, port_c: 1003 });
}

#[test]
fn swp_rotates_a_word_from_an_odd_address() {
    let mut emu = machine();
    emu.arm9.regs.cur[1] = 0x102;
    emu.arm9.regs.cur[3] = 0xAABB_CCDD;
    assert_eq!(swp(&mut emu, 0x0001_2003), Outcome::Done);
    assert_eq!(emu.arm9.regs.cur[2], 0x0100_0302);
    assert_eq!(word_at(&emu, 0x100), 0xAABB_CCDD);
    assert_eq!(emu.arm9.interlocks[2], Interlock { port_ab: 1005, port_c: 1004 });
}

#[test]
fn swp_waits_for_its_address() {
    let mut emu = machine();
    emu.arm9.interlocks[1] = Interlock { port_ab: 1010, port_c: 2000 };
    swp(&mut emu, 0x0001_2003);
    assert_eq!(emu.arm9.cur_time, 1013);
    let mut emu = machine();
    emu.arm9.interlocks[1] = Interlock { port_ab: 990, port_c: 2000 };
    swp(&mut emu, 0x0001_2003);
    assert_eq!(emu.arm9.cur_time, 1003);
}

#[test]
fn swp_of_the_program_counter_stores_it_one_instruction_ahead() {
    let mut emu = machine();
    assert_eq!(swp(&mut emu, 0x0001_200F), Outcome::Done);
    assert_eq!(word_at(&emu, 0x100), 0xF04);
    let mut emu = machine();
    assert_eq!(swp(&mut emu, 0x0001_F003), Outcome::Done);
    assert_eq!(emu.arm9.regs.cur[15], 0x0302_0100);
}

#[test]
fn swp_aborts_where_it_may_not_write() {
    let mut emu = machine();
    emu.arm9.cp15.perm_map[0] = 0x07;
    let memory = emu.memory.clone();
    assert_eq!(swp(&mut emu, 0x0001_2003), Outcome::DataAbort { addr: 0x100 });
    assert_eq!(emu.memory, memory);
    assert_eq!(emu.arm9.regs.cur[2], 0x200);
    assert_eq!(emu.arm9.regs.cur[15], 0xF04);
    assert_eq!(emu.arm9.cur_time, 1001);
    assert_eq!(emu.arm9.data_cycles, 1);
    assert_eq!(emu.arm9.bus_cycles, 2);
    assert_eq!(emu.arm9.interlocks[2], Interlock { port_ab: 0, port_c: 0 });
}

#[test]
fn user_mode_has_permissions_of_its_own() {
    let mut emu = machine();
    emu.arm9.regs.cpsr = Cpsr(USER);
    emu.arm9.cp15.perm_map[0] = 0x0C;
    assert_eq!(swp(&mut emu, 0x0001_2003), Outcome::DataAbort { addr: 0x100 });
    let mut emu = machine();
    emu.arm9.regs.cpsr = Cpsr(USER);
    emu.arm9.cp15.perm_map[0] = 0x02;
    assert_eq!(swp(&mut emu, 0x0001_2003), Outcome::Done);
    assert!(emu.can_write(0x100, false));
    assert!(!emu.can_read(0x100, false));
    assert!(!emu.can_write(0x100, true));
}

#[test]
fn pages_beyond_the_tables_allow_nothing_and_take_one_cycle() {
    let mut emu = machine();
    emu.arm9.regs.cur[1] = 0x1000;
    assert_eq!(swp(&mut emu, 0x0001_2003), Outcome::DataAbort { addr: 0x1000 });
    assert!(!emu.can_read(0xFFFF_FFFF, true));
    assert_eq!(emu.timings(0xFFF).r_n16_data, 7);
    assert_eq!(emu.timings(0x1000).r_n16_data, 1);
    assert_eq!(emu.timings(0x1000).w_s32_data, 1);
}

#[test]
fn memory_beyond_its_end_reads_as_zero_and_swallows_writes() {
    let mut emu = machine();
    emu.arm9.cp15.perm_map = vec![0x0F; 2];
    emu.arm9.regs.cur[1] = 0xFFE;
    emu.arm9.regs.cur[3] = 0xAABB_CCDD;
    assert_eq!(swp(&mut emu, 0x0001_2003), Outcome::Done);
    // The word at 0xFFC, rotated by two bytes.
    assert_eq!(emu.arm9.regs.cur[2], 0xFDFC_FFFE);
    assert_eq!(word_at(&emu, 0xFFC), 0xAABB_CCDD);
    let mut emu = machine();
    emu.arm9.cp15.perm_map = vec![0x0F; 2];
    emu.arm9.regs.cur[1] = 0x1000;
    assert_eq!(swp(&mut emu, 0x0001_2003), Outcome::Done);
    assert_eq!(emu.arm9.regs.cur[2], 0);
    assert_eq!(emu.memory.len(), 0x1000);
    emu.write_32(0xFFE, 0x1122_3344);
    assert_eq!(word_at(&emu, 0xFFC), 0x1122_3344);
    emu.write_8(0xFFF, 0x55);
    emu.write_8(0x1000, 0x66);
    assert_eq!(emu.read_8(0xFFF), 0x55);
    assert_eq!(emu.read_8(0x1000), 0);
    assert_eq!(emu.read_32(0xFFF), 0x5522_3344);
}

#[test]
fn swpb_swaps_a_byte() {
    let mut emu = machine();
    emu.arm9.regs.cur[1] = 0x123;
    emu.arm9.regs.cur[3] = 0xAABB_CCDD;
    assert_eq!(swpb(&mut emu, 0x0001_2003), Outcome::Done);
    assert_eq!(emu.arm9.regs.cur[2], 0x23);
    assert_eq!(emu.memory[0x123], 0xDD);
    assert_eq!(emu.memory[0x122], 0x22);
    assert_eq!(emu.memory[0x124], 0x24);
    assert_eq!(emu.arm9.cur_time, 1007);
    assert_eq!(emu.arm9.data_cycles, 6);
    assert_eq!(emu.arm9.interlocks[2], Interlock { port_ab: 1009, port_c: 1008 });
}

#[test]
fn swpb_aborts_where_it_may_not_write() {
    let mut emu = machine();
    emu.arm9.cp15.perm_map[0] = 0x05;
    assert_eq!(swpb(&mut emu, 0x0001_2003), Outcome::DataAbort { addr: 0x100 });
    assert_eq!(emu.memory[0x100], 0);
    assert_eq!(emu.arm9.regs.cur[2], 0x200);
    assert_eq!(emu.arm9.cur_time, 1001);
}

#[test]
fn stm_stores_the_listed_registers_in_ascending_order() {
    let mut emu = machine();
    emu.arm9.regs.cur[4] = 0x200;
    // Registers 0, 2 and 5 from the address in register 4 on.
    assert_eq!(stm::<true, false, false, false>(&mut emu, 0x0004_0025), Outcome::Done);
    assert_eq!(word_at(&emu, 0x200), 0);
    assert_eq!(word_at(&emu, 0x204), 0x200);
    assert_eq!(word_at(&emu, 0x208), 0x500);
    assert_eq!(word_at(&emu, 0x20C), 0x0F0E_0D0C);
    assert_eq!(emu.arm9.regs.cur[4], 0x200);
    // The first store takes 5 cycles and the second 4, which pass before the next begins.
    assert_eq!(emu.arm9.cur_time, 1009);
    assert_eq!(emu.arm9.data_cycles, 4);
    assert_eq!(emu.arm9.bus_cycles, 2);
    assert_eq!(emu.arm9.fetches, 1);
}

#[test]
fn stm_moves_its_base_in_the_four_ways() {
    let mut emu = machine();
    emu.arm9.regs.cur[4] = 0x200;
    stm::<true, false, true, false>(&mut emu, 0x0004_0006);
    assert_eq!((word_at(&emu, 0x200), word_at(&emu, 0x204)), (0x100, 0x200));
    assert_eq!(emu.arm9.regs.cur[4], 0x208);
    let mut emu = machine();
    emu.arm9.regs.cur[4] = 0x200;
    stm::<true, true, true, false>(&mut emu, 0x0004_0006);
    assert_eq!((word_at(&emu, 0x204), word_at(&emu, 0x208)), (0x100, 0x200));
    assert_eq!(emu.arm9.regs.cur[4], 0x208);
    let mut emu = machine();
    emu.arm9.regs.cur[4] = 0x200;
    stm::<false, false, true, false>(&mut emu, 0x0004_0006);
    assert_eq!((word_at(&emu, 0x1F8), word_at(&emu, 0x1FC)), (0x100, 0x200));
    assert_eq!(emu.arm9.regs.cur[4], 0x1F8);
    let mut emu = machine();
    emu.arm9.regs.cur[4] = 0x200;
    stm::<false, true, true, false>(&mut emu, 0x0004_0006);
    assert_eq!((word_at(&emu, 0x1FC), word_at(&emu, 0x200)), (0x100, 0x200));
    assert_eq!(emu.arm9.regs.cur[4], 0x1F8);
}

#[test]
fn stm_of_a_single_register_lets_its_access_end() {
    let mut emu = machine();
    emu.arm9.regs.cur[4] = 0x200;
    emu.arm9.interlocks[3] = Interlock { port_ab: 5000, port_c: 1002 };
    assert_eq!(stm::<true, false, false, false>(&mut emu, 0x0004_0008), Outcome::Done);
    assert_eq!(word_at(&emu, 0x200), 0x300);
    assert_eq!(emu.arm9.cur_time, 1007);
    assert_eq!(emu.arm9.data_cycles, 1);
}

#[test]
fn stm_with_an_empty_list_moves_its_base_by_sixteen_words() {
    let mut emu = machine();
    let memory = emu.memory.clone();
    assert_eq!(stm::<true, false, true, false>(&mut emu, 0x0004_0000), Outcome::Done);
    assert_eq!(emu.arm9.regs.cur[4], 0x440);
    assert_eq!(emu.memory, memory);
    assert_eq!(emu.arm9.cur_time, 1001);
    assert_eq!(emu.arm9.data_cycles, 1);
    assert_eq!(emu.arm9.bus_cycles, 2);
    let mut emu = machine();
    stm::<false, false, true, true>(&mut emu, 0x0004_0000);
    assert_eq!(emu.arm9.regs.cur[4], 0x3C0);
    assert_eq!(emu.arm9.bus_cycles, 2);
    let mut emu = machine();
    stm::<true, false, false, false>(&mut emu, 0x0004_0000);
    assert_eq!(emu.arm9.regs.cur[4], 0x400);
}

#[test]
fn stm_stores_the_program_counter_one_instruction_ahead() {
    let mut emu = machine();
    emu.arm9.regs.cur[4] = 0x200;
    stm::<true, false, false, false>(&mut emu, 0x0004_8000);
    assert_eq!(word_at(&emu, 0x200), 0xF04);
}

#[test]
fn stm_aborts_at_the_first_refused_store() {
    let mut emu = machine();
    emu.memory = vec![0; 0x2000];
    emu.arm9.cp15.perm_map = vec![0x0F, 0x07];
    emu.arm9.cp15.timings = vec![page_timings(); 2];
    emu.arm9.regs.cur[4] = 0xFF8;
    // Registers 1, 2, 3 and 5: the third store crosses into the page that may not be
    // written.
    assert_eq!(
        stm::<true, false, true, false>(&mut emu, 0x0004_002E),
        Outcome::DataAbort { addr: 0x1000 }
    );
    assert_eq!(word_at(&emu, 0xFF8), 0x100);
    assert_eq!(word_at(&emu, 0xFFC), 0x200);
    assert_eq!(word_at(&emu, 0x1000), 0);
    assert_eq!(word_at(&emu, 0x1004), 0);
    assert_eq!(emu.arm9.regs.cur[4], 0xFF8);
    // Five cycles for the first store and four for the second, one for the store that
    // is left, and one more.
    assert_eq!(emu.arm9.cur_time, 1011);
    assert_eq!(emu.arm9.data_cycles, 1);
    assert_eq!(emu.arm9.bus_cycles, 2);
}

#[test]
fn stm_restarts_its_timing_at_every_kilobyte() {
    let mut emu = machine();
    emu.arm9.regs.cur[4] = 0x3F8;
    stm::<true, false, false, false>(&mut emu, 0x0004_000F);
    // Stores at 0x3F8, 0x3FC, 0x400 and 0x404 take 5, 4, 5 and 4 cycles.
    assert_eq!(emu.arm9.cur_time, 1014);
    assert_eq!(emu.arm9.data_cycles, 4);
}

#[test]
fn stm_can_store_the_registers_of_user_mode() {
    let mut emu = machine();
    emu.arm9.regs.cpsr = Cpsr(FIQ);
    emu.arm9.regs.r8_12_other = [0x81, 0x91, 0xA1, 0xB1, 0xC1];
    emu.arm9.regs.r13_14[0] = [0xD1, 0xE1];
    emu.arm9.regs.cur[4] = 0x200;
    let visible = emu.arm9.regs.cur;
    assert_eq!(stm::<true, false, false, true>(&mut emu, 0x0004_6180), Outcome::Done);
    // Registers 7, 8, 13 and 14 of user mode.
    assert_eq!(word_at(&emu, 0x200), 0x700);
    assert_eq!(word_at(&emu, 0x204), 0x81);
    assert_eq!(word_at(&emu, 0x208), 0xD1);
    assert_eq!(word_at(&emu, 0x20C), 0xE1);
    let mut expected = visible;
    expected[15] += 4;
    assert_eq!(emu.arm9.regs.cur, expected);
    assert_eq!(emu.arm9.regs.r8_12_other, [0x81, 0x91, 0xA1, 0xB1, 0xC1]);
    assert_eq!(emu.arm9.regs.r13_14[0], [0xD1, 0xE1]);
    assert_eq!(emu.arm9.bus_cycles, 2);
}

#[test]
fn a_store_of_the_visible_registers_waits_for_the_data_of_the_first() {
    let mut emu = machine();
    emu.arm9.regs.cur[4] = 0x200;
    emu.arm9.interlocks[1] = Interlock { port_ab: 0, port_c: 1100 };
    emu.arm9.interlocks[2] = Interlock { port_ab: 0, port_c: 5000 };
    stm::<true, false, false, false>(&mut emu, 0x0004_0006);
    assert_eq!(emu.arm9.cur_time, 1105);
    let mut emu = machine();
    emu.arm9.regs.cur[4] = 0x200;
    emu.arm9.interlocks[1] = Interlock { port_ab: 0, port_c: 1100 };
    stm::<true, false, false, true>(&mut emu, 0x0004_0006);
    assert_eq!(emu.arm9.cur_time, 1005);
}

#[test]
fn ldm_loads_the_listed_registers_in_ascending_order() {
    let mut emu = machine();
    emu.arm9.regs.cur[4] = 0x200;
    assert_eq!(ldm::<true, false, false, false>(&mut emu, 0x0004_0025), Outcome::Done);
    assert_eq!(emu.arm9.regs.cur[0], 0x0302_0100);
    assert_eq!(emu.arm9.regs.cur[2], 0x0706_0504);
    assert_eq!(emu.arm9.regs.cur[5], 0x0B0A_0908);
    assert_eq!(emu.arm9.regs.cur[1], 0x100);
    assert_eq!(emu.arm9.regs.cur[4], 0x200);
    assert_eq!(emu.arm9.regs.cur[15], 0xF04);
    // The first load takes 3 cycles and the second 2, which pass before the next begins.
    assert_eq!(emu.arm9.cur_time, 1005);
    assert_eq!(emu.arm9.data_cycles, 2);
    assert_eq!(emu.arm9.bus_cycles, 2);
    // The last loaded register is interlocked.
    assert_eq!(emu.arm9.interlocks[5], Interlock { port_ab: 1006, port_c: 1005 });
    assert_eq!(emu.arm9.interlocks[2], Interlock { port_ab: 0, port_c: 0 });
}

#[test]
fn ldm_moves_its_base_unless_it_was_loaded_last() {
    let mut emu = machine();
    emu.arm9.regs.cur[4] = 0x200;
    ldm::<true, false, true, false>(&mut emu, 0x0004_0003);
    assert_eq!(emu.arm9.regs.cur[4], 0x208);
    // The base is loaded, and another register after it.
    let mut emu = machine();
    emu.arm9.regs.cur[4] = 0x200;
    ldm::<true, false, true, false>(&mut emu, 0x0004_0030);
    assert_eq!(emu.arm9.regs.cur[4], 0x208);
    assert_eq!(emu.arm9.regs.cur[5], 0x0706_0504);
    // The base is loaded as the last of two.
    let mut emu = machine();
    emu.arm9.regs.cur[4] = 0x200;
    ldm::<true, false, true, false>(&mut emu, 0x0004_0018);
    assert_eq!(emu.arm9.regs.cur[4], 0x0706_0504);
    // The base is the only register loaded.
    let mut emu = machine();
    emu.arm9.regs.cur[4] = 0x200;
    ldm::<true, false, true, false>(&mut emu, 0x0004_0010);
    assert_eq!(emu.arm9.regs.cur[4], 0x204);
    // Downwards.
    let mut emu = machine();
    emu.arm9.regs.cur[4] = 0x200;
    ldm::<false, true, true, false>(&mut emu, 0x0004_0003);
    assert_eq!(emu.arm9.regs.cur[0], 0xFFFE_FDFC);
    assert_eq!(emu.arm9.regs.cur[1], 0x0302_0100);
    assert_eq!(emu.arm9.regs.cur[4], 0x1F8);
}

#[test]
fn ldm_of_a_single_register_lets_its_access_end() {
    let mut emu = machine();
    emu.arm9.regs.cur[4] = 0x200;
    assert_eq!(ldm::<true, false, false, false>(&mut emu, 0x0004_0008), Outcome::Done);
    assert_eq!(emu.arm9.regs.cur[3], 0x0302_0100);
    assert_eq!(emu.arm9.cur_time, 1003);
    assert_eq!(emu.arm9.data_cycles, 1);
    assert_eq!(emu.arm9.interlocks[3], Interlock { port_ab: 0, port_c: 0 });
}

#[test]
fn ldm_with_an_empty_list_moves_its_base_by_sixteen_words() {
    let mut emu = machine();
    assert_eq!(ldm::<false, false, true, false>(&mut emu, 0x0004_0000), Outcome::Done);
    assert_eq!(emu.arm9.regs.cur[4], 0x3C0);
    assert_eq!(emu.arm9.cur_time, 1001);
    assert_eq!(emu.arm9.data_cycles, 1);
    assert_eq!(emu.arm9.bus_cycles, 2);
}

#[test]
fn ldm_of_the_program_counter_fills_the_pipeline() {
    let mut emu = machine();
    emu.arm9.regs.cur[4] = 0x200;
    assert_eq!(
        ldm::<true, false, true, false>(&mut emu, 0x0004_8001),
        Outcome::ReloadPipeline(StateSource::R15Bit0)
    );
    assert_eq!(emu.arm9.regs.cur[0], 0x0302_0100);
    assert_eq!(emu.arm9.regs.cur[15], 0x0706_0504);
    assert_eq!(emu.arm9.regs.cur[4], 0x208);
    // Three cycles for the first load, then two and one more for the program counter.
    assert_eq!(emu.arm9.cur_time, 1006);
    assert_eq!(emu.arm9.data_cycles, 1);
    let mut emu = machine();
    emu.arm9.cp15.control = Cp15Control(1 << 15);
    assert_eq!(
        ldm::<true, false, false, false>(&mut emu, 0x0004_8000),
        Outcome::ReloadPipeline(StateSource::Arm)
    );
    assert_eq!(emu.arm9.cur_time, 1004);
}

#[test]
fn ldm_of_the_program_counter_can_return_from_an_exception() {
    let mut emu = machine();
    emu.arm9.regs.cpsr = Cpsr(IRQ);
    emu.arm9.regs.spsr = 0x4000_0000 | USER;
    emu.arm9.regs.r13_14[0] = [0x111, 0x222];
    emu.arm9.regs.cur[4] = 0x200;
    assert_eq!(
        ldm::<true, false, false, true>(&mut emu, 0x0004_A000),
        Outcome::ReloadPipeline(StateSource::Cpsr)
    );
    assert_eq!(emu.arm9.regs.cpsr, Cpsr(0x4000_0000 | USER));
    assert_eq!(emu.arm9.regs.cur[15], 0x0706_0504);
    // Register 13 was loaded in interrupt mode; user mode has its own.
    assert_eq!(emu.arm9.regs.cur[13], 0x111);
    assert_eq!(emu.arm9.regs.r13_14[2], [0x0302_0100, 0xE00]);
}

#[test]
fn ldm_can_load_the_registers_of_user_mode() {
    let mut emu = machine();
    emu.arm9.regs.cpsr = Cpsr(IRQ);
    emu.arm9.regs.r13_14[0] = [0x111, 0x222];
    emu.arm9.regs.cur[4] = 0x200;
    assert_eq!(ldm::<true, false, false, true>(&mut emu, 0x0004_2100), Outcome::Done);
    // Register 8 is the same in both modes, register 13 is not.
    assert_eq!(emu.arm9.regs.cur[8], 0x0302_0100);
    assert_eq!(emu.arm9.regs.cur[13], 0xD00);
    assert_eq!(emu.arm9.regs.r13_14[0], [0x0706_0504, 0x222]);
    assert_eq!(emu.arm9.regs.cpsr, Cpsr(IRQ));
    // No register is interlocked.
    assert_eq!(emu.arm9.interlocks[13], Interlock { port_ab: 0, port_c: 0 });
}

#[test]
fn ldm_aborts_at_the_first_refused_load() {
    let mut emu = machine();
    emu.memory = (0..0x2000).map(|i| i as u8).collect();
    emu.arm9.cp15.perm_map = vec![0x0F, 0x0A];
    emu.arm9.cp15.timings = vec![page_timings(); 2];
    emu.arm9.regs.cur[4] = 0xFFC;
    assert_eq!(
        ldm::<true, false, true, false>(&mut emu, 0x0004_8006),
        Outcome::DataAbort { addr: 0x1000 }
    );
    assert_eq!(emu.arm9.regs.cur[1], 0xFFFE_FDFC);
    assert_eq!(emu.arm9.regs.cur[2], 0x200);
    assert_eq!(emu.arm9.regs.cur[15], 0xF04);
    assert_eq!(emu.arm9.regs.cur[4], 0xFFC);
    // Three cycles for the first load, one for the load that is left, and one more.
    assert_eq!(emu.arm9.cur_time, 1005);
    assert_eq!(emu.arm9.data_cycles, 1);
}

#[test]
fn ldm_aborts_at_a_refused_load_of_the_program_counter() {
    let mut emu = machine();
    emu.memory = (0..0x2000).map(|i| i as u8).collect();
    emu.arm9.cp15.perm_map = vec![0x0F, 0x0A];
    emu.arm9.cp15.timings = vec![page_timings(); 2];
    emu.arm9.regs.cur[4] = 0xFFC;
    assert_eq!(
        ldm::<true, false, true, false>(&mut emu, 0x0004_8002),
        Outcome::DataAbort { addr: 0x1000 }
    );
    assert_eq!(emu.arm9.regs.cur[1], 0xFFFE_FDFC);
    assert_eq!(emu.arm9.regs.cur[15], 0xF04);
    assert_eq!(emu.arm9.regs.cur[4], 0xFFC);
    assert_eq!(emu.arm9.cur_time, 1004);
    assert_eq!(emu.arm9.data_cycles, 1);
}

#[test]
fn ldrd_loads_a_pair_of_registers() {
    let mut emu = machine();
    emu.arm9.regs.cur[1] = 0x200;
    // Registers 2 and 3 from the address in register 1 plus 0x18.
    assert_eq!(
        ldrd::<true, true>(&mut emu, 0x0001_2108, MiscAddressing::PreNoWb),
        Outcome::Done
    );
    assert_eq!(emu.arm9.regs.cur[2], 0x1B1A_1918);
    assert_eq!(emu.arm9.regs.cur[3], 0x1F1E_1D1C);
    assert_eq!(emu.arm9.regs.cur[1], 0x200);
    assert_eq!(emu.arm9.cur_time, 1003);
    assert_eq!(emu.arm9.data_cycles, 2);
    assert_eq!(emu.arm9.bus_cycles, 2);
    assert_eq!(emu.arm9.fetches, 1);
}

#[test]
fn ldrd_applies_its_offset_in_the_three_ways() {
    let mut emu = machine();
    emu.arm9.regs.cur[1] = 0x200;
    emu.arm9.regs.cur[5] = 0x40;
    emu.arm9.interlocks[1] = Interlock { port_ab: 77, port_c: 88 };
    ldrd::<false, false>(&mut emu, 0x0001_2005, MiscAddressing::Pre);
    assert_eq!(emu.arm9.regs.cur[2], 0xC3C2_C1C0);
    assert_eq!(emu.arm9.regs.cur[1], 0x1C0);
    assert_eq!(emu.arm9.interlocks[1], Interlock { port_ab: 0, port_c: 88 });
    let mut emu = machine();
    emu.arm9.regs.cur[1] = 0x200;
    emu.arm9.regs.cur[5] = 0x40;
    ldrd::<false, true>(&mut emu, 0x0001_2005, MiscAddressing::Post);
    assert_eq!(emu.arm9.regs.cur[2], 0x0302_0100);
    assert_eq!(emu.arm9.regs.cur[1], 0x240);
    // The base is not moved where it was loaded as the second register.
    let mut emu = machine();
    emu.arm9.regs.cur[3] = 0x200;
    ldrd::<true, true>(&mut emu, 0x0003_2008, MiscAddressing::Post);
    assert_eq!(emu.arm9.regs.cur[3], 0x0706_0504);
    // It is where it was loaded as the first.
    let mut emu = machine();
    emu.arm9.regs.cur[2] = 0x200;
    ldrd::<true, true>(&mut emu, 0x0002_2008, MiscAddressing::Post);
    assert_eq!(emu.arm9.regs.cur[2], 0x208);
}

#[test]
fn ldrd_of_an_odd_register_is_undefined() {
    let mut emu = machine();
    assert_eq!(
        ldrd::<true, true>(&mut emu, 0x0001_3008, MiscAddressing::Pre),
        Outcome::Undefined
    );
    assert_eq!(emu.arm9.regs.cur[15], 0xF00);
    assert_eq!(emu.arm9.regs.cur[3], 0x300);
    assert_eq!(emu.arm9.cur_time, 1000);
    assert_eq!(emu.arm9.bus_cycles, 0);
    assert_eq!(
        strd::<true, true>(&mut emu, 0x0001_3008, MiscAddressing::Pre),
        Outcome::Undefined
    );
    assert_eq!(emu.arm9.fetches, 0);
}

#[test]
fn ldrd_of_the_program_counter_fills_the_pipeline() {
    let mut emu = machine();
    emu.arm9.regs.cur[1] = 0x200;
    assert_eq!(
        ldrd::<true, true>(&mut emu, 0x0001_E000, MiscAddressing::PreNoWb),
        Outcome::ReloadPipeline(StateSource::R15Bit0)
    );
    assert_eq!(emu.arm9.regs.cur[14], 0x0302_0100);
    assert_eq!(emu.arm9.regs.cur[15], 0x0706_0504);
    assert_eq!(emu.arm9.cur_time, 1006);
    assert_eq!(emu.arm9.data_cycles, 9);
}

#[test]
fn ldrd_aborts_at_either_access() {
    let mut emu = machine();
    emu.arm9.cp15.perm_map = vec![0x0F, 0x0A];
    emu.arm9.regs.cur[1] = 0x1000;
    assert_eq!(
        ldrd::<true, true>(&mut emu, 0x0001_2000, MiscAddressing::Pre),
        Outcome::DataAbort { addr: 0x1000 }
    );
    assert_eq!(emu.arm9.regs.cur[2], 0x200);
    assert_eq!(emu.arm9.cur_time, 1002);
    assert_eq!(emu.arm9.data_cycles, 1);
    let mut emu = machine();
    emu.arm9.cp15.perm_map = vec![0x0F, 0x0A];
    emu.arm9.regs.cur[1] = 0xFFC;
    assert_eq!(
        ldrd::<true, true>(&mut emu, 0x0001_2000, MiscAddressing::Pre),
        Outcome::DataAbort { addr: 0x1000 }
    );
    assert_eq!(emu.arm9.regs.cur[2], 0xFFFE_FDFC);
    assert_eq!(emu.arm9.regs.cur[3], 0x300);
    assert_eq!(emu.arm9.regs.cur[1], 0xFFC);
    assert_eq!(emu.arm9.cur_time, 1004);
    assert_eq!(emu.arm9.data_cycles, 1);
}

#[test]
fn strd_stores_a_pair_of_registers() {
    let mut emu = machine();
    emu.arm9.regs.cur[1] = 0x200;
    emu.arm9.interlocks[2] = Interlock { port_ab: 0, port_c: 1020 };
    assert_eq!(strd::<true, false>(&mut emu, 0x0001_2008, MiscAddressing::Pre), Outcome::Done);
    assert_eq!(word_at(&emu, 0x1F8), 0x200);
    assert_eq!(word_at(&emu, 0x1FC), 0x300);
    assert_eq!(emu.arm9.regs.cur[1], 0x1F8);
    assert_eq!(emu.arm9.cur_time, 1025);
    assert_eq!(emu.arm9.data_cycles, 4);
    assert_eq!(emu.arm9.bus_cycles, 2);
}

#[test]
fn strd_aborts_at_either_access() {
    let mut emu = machine();
    emu.memory = vec![0; 0x2000];
    emu.arm9.cp15.perm_map = vec![0x0F, 0x05];
    emu.arm9.regs.cur[1] = 0xFFC;
    assert_eq!(
        strd::<true, true>(&mut emu, 0x0001_2000, MiscAddressing::Post),
        Outcome::DataAbort { addr: 0x1000 }
    );
    assert_eq!(word_at(&emu, 0xFFC), 0x200);
    assert_eq!(word_at(&emu, 0x1000), 0);
    assert_eq!(emu.arm9.regs.cur[1], 0xFFC);
    assert_eq!(emu.arm9.cur_time, 1006);
    assert_eq!(emu.arm9.data_cycles, 1);
    assert_eq!(emu.arm9.bus_cycles, 2);
    let mut emu = machine();
    emu.arm9.cp15.perm_map = vec![0x05];
    let memory = emu.memory.clone();
    assert_eq!(
        strd::<true, true>(&mut emu, 0x0001_2000, MiscAddressing::Post),
        Outcome::DataAbort { addr: 0x100 }
    );
    assert_eq!(emu.memory, memory);
    assert_eq!(emu.arm9.cur_time, 1002);
}

#[test]
fn interlocks_make_instructions_wait() {
    let mut emu = machine();
    emu.write_reg_interlock(3, 0x1234, 4, 1);
    assert_eq!(emu.arm9.regs.cur[3], 0x1234);
    assert_eq!(emu.arm9.interlocks[3], Interlock { port_ab: 1004, port_c: 1003 });
    emu.apply_reg_interlock_1::<true>(3);
    assert_eq!(emu.arm9.cur_time, 1003);
    emu.apply_reg_interlock_1::<false>(3);
    assert_eq!(emu.arm9.cur_time, 1004);
    emu.apply_reg_interlock_1::<false>(3);
    assert_eq!(emu.arm9.cur_time, 1004);
    emu.add_interlock(5, 10, 2);
    emu.apply_reg_interlocks_2(3, 5);
    assert_eq!(emu.arm9.cur_time, 1014);
    emu.write_reg_clear_interlock_ab(5, 7);
    assert_eq!(emu.arm9.regs.cur[5], 7);
    assert_eq!(emu.arm9.interlocks[5], Interlock { port_ab: 0, port_c: 1012 });
    emu.add_cycles(6);
    emu.add_bus_cycles(3);
    emu.prefetch_arm();
    assert_eq!((emu.arm9.cur_time, emu.arm9.bus_cycles, emu.arm9.fetches), (1020, 3, 1));
    assert_eq!(emu.arm9.regs.cur[15], 0xF04);
}
