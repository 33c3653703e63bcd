use dust_core::bytes::{read_8, read_le_16, read_le_32, read_le_64};
use dust_core::vram::{Role, Vram};

fn counting_vram() -> Vram {
    let counting = |len: usize| (0..len).map(|i| i as u8).collect::<Vec<u8>>();
    Vram {
        a_bg: counting(0x100),
        b_bg: counting(0x40),
        a_obj: counting(0x100),
        b_obj: counting(0x40),
        palette: counting(0x800),
        oam: counting(0x800),
        a_bg_ext_pal: counting(0x8000),
        b_bg_ext_pal: vec![],
        a_obj_ext_pal: counting(0x2000),
        b_obj_ext_pal: vec![],
        lcdc_banks: [counting(0x10), vec![], vec![7; 4], vec![]],
        lcdc_bank_mst: [0, 0, 0, 0],
    }
}

#[test]
fn reads_are_little_endian() {
    let memory = vec![0x11, 0x22, 0x33, 0x44, 0x55, 0x66, 0x77, 0x88, 0x99];
    assert_eq!(read_8(&memory, 2), 0x33);
    assert_eq!(read_le_16(&memory, 1), 0x3322);
    assert_eq!(read_le_32(&memory, 0), 0x4433_2211);
    assert_eq!(read_le_64(&memory, 1), 0x9988_7766_5544_3322);
}

#[test]
fn what_lies_beyond_memory_reads_as_zero() {
    let memory = vec![0x11, 0x22, 0x33];
    assert_eq!(read_8(&memory, 3), 0);
    assert_eq!(read_le_16(&memory, 2), 0x0033);
    assert_eq!(read_le_32(&memory, 1), 0x0000_3322);
    assert_eq!(read_le_64(&memory, 100), 0);
    assert_eq!(read_8(&vec![], 0), 0);
}

#[test]
fn reads_of_video_memory_round_their_address_down() {
    let vram = counting_vram();
    assert_eq!(vram.read_bg_8(Role::A, 0x13), 0x13);
    assert_eq!(vram.read_bg_16(Role::A, 0x13), 0x1312);
    assert_eq!(vram.read_bg_32(Role::A, 0x13), 0x1312_1110);
    assert_eq!(vram.read_bg_64(Role::A, 0x13), 0x1716_1514_1312_1110);
    assert_eq!(vram.read_obj_32(Role::A, 0x27), 0x2726_2524);
    assert_eq!(vram.read_obj_64(Role::A, 0x27), 0x2726_2524_2322_2120);
}

#[test]
fn addresses_wrap_at_the_size_of_their_region() {
    let vram = counting_vram();
    assert_eq!(vram.read_bg_8(Role::A, 0x8_0005), 5);
    assert_eq!(vram.read_bg_8(Role::B, 0x2_0005), 5);
    assert_eq!(vram.read_bg_8(Role::B, 0x1_0005), 0);
    assert_eq!(vram.read_obj_32(Role::A, 0x4_0004), 0x0706_0504);
    assert_eq!(vram.read_obj_32(Role::B, 0x2_0004), 0x0706_0504);
    assert_eq!(vram.read_bg_16(Role::A, 0xFFF8_0010), 0x1110);
}

#[test]
fn each_engine_reads_its_own_memory() {
    let mut vram = counting_vram();
    vram.b_bg[1] = 0xB0;
    vram.b_obj[0] = 0xB1;
    assert_eq!(vram.read_bg_8(Role::A, 1), 1);
    assert_eq!(vram.read_bg_8(Role::B, 1), 0xB0);
    assert_eq!(vram.read_obj_32(Role::B, 0), 0x0302_01B1);
    assert_eq!(vram.read_bg_8(Role::B, 0x40), 0);
    assert!(Role::A.is_a());
    assert!(!Role::B.is_a());
    assert_eq!(Role::A.palette_base(), 0);
    assert_eq!(Role::B.palette_base(), 0x400);
    assert_eq!(Role::A.bg_vram_mask(), 0x7_FFFF);
    assert_eq!(Role::B.bg_vram_mask(), 0x1_FFFF);
    assert_eq!(Role::A.obj_vram_mask(), 0x3_FFFF);
    assert_eq!(Role::B.obj_vram_mask(), 0x1_FFFF);
}

#[test]
fn palettes_and_attributes_are_read_as_halfwords() {
    let vram = counting_vram();
    assert_eq!(vram.read_palette_16(0x10), 0x1110);
    assert_eq!(vram.read_palette_16(0x11), 0x1110);
    assert_eq!(vram.read_palette_16(0x810), 0x1110);
    assert_eq!(vram.read_oam_16(0x7FE), 0xFFFE);
    assert_eq!(vram.read_oam_16(0x800), 0x0100);
}

#[test]
fn extended_palettes_are_read_by_slot_and_index() {
    let vram = counting_vram();
    assert_eq!(vram.read_bg_ext_pal_16(Role::A, 0, 3), 0x0706);
    assert_eq!(vram.read_bg_ext_pal_16(Role::A, 1, 3), 0x0706);
    assert_eq!(vram.read_bg_ext_pal_16(Role::A, 1, 0x83), 0x0706);
    assert_eq!(vram.read_bg_ext_pal_16(Role::A, 3, 0xFFF), 0xFFFE);
    assert_eq!(vram.read_bg_ext_pal_16(Role::A, 4, 0x1003), 0x0706);
    assert_eq!(vram.read_bg_ext_pal_16(Role::B, 0, 3), 0);
    assert_eq!(vram.read_obj_ext_pal_16(Role::A, 0x42), 0x8584);
    assert_eq!(vram.read_obj_ext_pal_16(Role::A, 0x1042), 0x8584);
    assert_eq!(vram.read_obj_ext_pal_16(Role::B, 0x42), 0);
}

#[test]
fn banks_are_read_by_their_number() {
    let vram = counting_vram();
    assert_eq!(vram.read_lcdc_16(0, 4), 0x0504);
    assert_eq!(vram.read_lcdc_16(0, 5), 0x0504);
    assert_eq!(vram.read_lcdc_16(0, 0x2_0004), 0x0504);
    assert_eq!(vram.read_lcdc_16(1, 4), 0);
    assert_eq!(vram.read_lcdc_16(2, 2), 0x0707);
    assert_eq!(vram.read_lcdc_16(6, 2), 0x0707);
}
