use dust_core::cpu::arm7::{
    Arm7, Channel, LocalExMemControl, Mapping, Swram, SwramControl, Timing, WindowSource,
    BIOS_SIZE,
};
use dust_core::cpu::psr::Cpsr;

fn processor() -> Arm7 {
    Arm7::new((0..BIOS_SIZE).map(|i| i as u8).collect())
}

#[test]
fn a_new_processor_is_reset() {
    let arm7 = processor();
    assert_eq!(arm7.bios().len(), 0x4000);
    assert_eq!(arm7.bios()[0x1234], 0x34);
    assert_eq!(arm7.wram, vec![0; 0x1_0000]);
    assert_eq!(arm7.local_ex_mem_control(), LocalExMemControl(0));
    assert!(!arm7.post_boot_flag());
    assert_eq!(arm7.bios_prot(), 0);
    assert_eq!(arm7.last_bios_word(), 0);
    assert_eq!(arm7.last_dma_words(), [0; 4]);
    assert_eq!(arm7.r15(), 0);
    assert_eq!(arm7.cpsr(), Cpsr(0));
    assert_eq!(arm7.dma.cur_channel, None);
    assert_eq!(arm7.dma.running_channels, 0);
}

#[test]
fn the_channels_of_a_new_processor_have_their_widths() {
    let arm7 = processor();
    assert_eq!(
        arm7.dma.channels[0],
        Channel::new(0x3FFF, 0x07FF_FFFF, 0x07FF_FFFF, Timing::Disabled)
    );
    assert_eq!(
        arm7.dma.channels[1],
        Channel::new(0x3FFF, 0x0FFF_FFFF, 0x07FF_FFFF, Timing::Disabled)
    );
    assert_eq!(arm7.dma.channels[2], arm7.dma.channels[1]);
    assert_eq!(
        arm7.dma.channels[3],
        Channel::new(0xFFFF, 0x0FFF_FFFF, 0x0FFF_FFFF, Timing::Disabled)
    );
}

#[test]
fn registers_keep_the_bits_they_have() {
    let mut arm7 = processor();
    arm7.set_local_ex_mem_control(LocalExMemControl(0xFFFF));
    assert_eq!(arm7.local_ex_mem_control(), LocalExMemControl(0x7F));
    arm7.set_local_ex_mem_control(LocalExMemControl(0x85));
    assert_eq!(arm7.local_ex_mem_control(), LocalExMemControl(0x05));
    arm7.set_bios_prot(0xFFFF);
    assert_eq!(arm7.bios_prot(), 0x3FFE);
    arm7.set_bios_prot(0x1235);
    assert_eq!(arm7.bios_prot(), 0x1234);
    arm7.set_post_boot_flag(true);
    assert!(arm7.post_boot_flag());
    arm7.set_post_boot_flag(false);
    assert!(!arm7.post_boot_flag());
}

#[test]
fn a_jump_sets_the_program_counter() {
    let mut arm7 = processor();
    arm7.jump(0x0380_0000);
    assert_eq!(arm7.r15(), 0x0380_0000);
    assert_eq!(arm7.regs.cur[14], 0);
}

#[test]
fn the_boot_code_outlives_the_processor() {
    let bios = processor().into_bios();
    assert_eq!(bios.len(), 0x4000);
    assert_eq!(bios[0x3FFF], 0xFF);
}

fn window(source: WindowSource, offset: usize, size: usize) -> Mapping {
    Mapping { source, offset, size, bounds: (0x0300_0000, 0x037F_FFFF) }
}

#[test]
fn the_window_follows_the_layout_of_the_shared_memory() {
    let mut arm7 = processor();
    let mut swram = Swram { control: SwramControl(0), contents: vec![0; 0x8000] };
    assert_eq!(arm7.swram_window(), window(WindowSource::Wram, 0, 0x1_0000));
    swram.control = SwramControl(1);
    arm7.recalc_swram(&swram);
    assert_eq!(arm7.swram_window(), window(WindowSource::Swram, 0, 0x4000));
    swram.control = SwramControl(2);
    arm7.recalc_swram(&swram);
    assert_eq!(arm7.swram_window(), window(WindowSource::Swram, 0x4000, 0x4000));
    swram.control = SwramControl(3);
    arm7.recalc_swram(&swram);
    assert_eq!(arm7.swram_window(), window(WindowSource::Swram, 0, 0x8000));
    swram.control = SwramControl(0xFC);
    arm7.recalc_swram(&swram);
    assert_eq!(arm7.swram_window(), window(WindowSource::Wram, 0, 0x1_0000));
    assert_eq!(SwramControl(0xFE).layout(), 2);
}

#[test]
fn the_window_repeats_what_it_shows() {
    let mut arm7 = processor();
    arm7.wram[0x1234] = 0x77;
    let mut swram = Swram {
        control: SwramControl(0),
        contents: (0..0x8000).map(|i| (i >> 8) as u8).collect(),
    };
    assert_eq!(arm7.read_window_8(&swram, 0x0300_1234), 0x77);
    assert_eq!(arm7.read_window_8(&swram, 0x037F_1234), 0x77);
    swram.control = SwramControl(2);
    arm7.recalc_swram(&swram);
    assert_eq!(arm7.read_window_8(&swram, 0x0300_0000), 0x40);
    assert_eq!(arm7.read_window_8(&swram, 0x0300_3FFF), 0x7F);
    assert_eq!(arm7.read_window_8(&swram, 0x0300_4100), 0x41);
    swram.control = SwramControl(3);
    arm7.recalc_swram(&swram);
    assert_eq!(arm7.read_window_8(&swram, 0x0300_4100), 0x41);
    assert_eq!(arm7.read_window_8(&swram, 0x0300_8200), 0x02);
}

#[test]
fn the_register_file_is_read_and_replaced() {
    let mut arm7 = processor();
    let mut regs = arm7.regs();
    assert_eq!(regs.cur, [0; 16]);
    regs.cur[3] = 0x33;
    regs.cpsr = Cpsr(0x1F);
    arm7.set_regs(&regs);
    assert_eq!(arm7.regs(), regs);
    assert_eq!(arm7.cpsr(), Cpsr(0x1F));
    assert_eq!(arm7.bios_prot(), 0);
}
