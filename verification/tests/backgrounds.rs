use dust_core::engine_2d::{AffineBgIndex, BgIndex, Engine2d, Scanline};
use dust_core::pixel::WindowPixel;
use dust_core::regs::{AffineBgData, Bg, BgControl, Control};
use dust_core::vram::{Role, Vram};

fn bg_vram() -> Vram {
    let mut vram = Vram {
        a_bg: vec![0; 0x2_0000],
        b_bg: vec![0; 0x2_0000],
        a_obj: vec![],
        b_obj: vec![],
        palette: vec![0; 0x800],
        oam: vec![],
        a_bg_ext_pal: vec![0; 0x8000],
        b_bg_ext_pal: vec![0; 0x8000],
        a_obj_ext_pal: vec![],
        b_obj_ext_pal: vec![],
        lcdc_banks: [vec![], vec![], vec![], vec![]],
        lcdc_bank_mst: [0, 0, 0, 0],
    };
    // Colour `k` of the background palette is the colour of value `k`.
    for k in 0..256usize {
        vram.palette[k * 2] = k as u8;
    }
    vram
}

/// The 18-bit colour of the 15-bit colour `color`.
fn shade(color: u32) -> u32 {
    (color & 0x1F) * 2 | ((color >> 5 & 0x1F) * 2) << 6 | ((color >> 10 & 0x1F) * 2) << 12
}

fn engine_with_open_window() -> Engine2d {
    let mut engine = Engine2d::new(Role::A);
    engine.window = Scanline([WindowPixel(0x3F); 256]);
    engine
}

fn put_16(memory: &mut Vec<u8>, addr: usize, value: u16) {
    memory[addr] = value as u8;
    memory[addr + 1] = (value >> 8) as u8;
}

/// The top pixels of the composited scanline.
fn top_pixels(engine: &Engine2d) -> Vec<u32> {
    engine.bg_obj_scanline.0.iter().map(|&pair| pair as u32).collect()
}

/// Tile 1 of 256 colours at 16 KiB, whose pixel of column `x` and row `y`
/// has colour index `1 + x + 8 * y`.
fn put_numbered_tile(vram: &mut Vram) {
    for i in 0..64 {
        vram.a_bg[0x4040 + i] = 1 + i as u8;
    }
}

const TEXT_256: u16 = 1 << 7 | 1 << 8 | 1 << 2;

#[test]
fn text_background_of_256_colors_shows_its_tile() {
    let mut vram = bg_vram();
    put_numbered_tile(&mut vram);
    put_16(&mut vram.a_bg, 0x800, 1);
    let mut engine = engine_with_open_window();
    engine.bgs[0] = Bg { control: BgControl(TEXT_256), priority: 0, scroll: [0, 0] };
    engine.render_scanline_bg_text(BgIndex::new(0), 0, &vram);
    let pixels = top_pixels(&engine);
    for dot in 0..8 {
        assert_eq!(pixels[dot], 0x0400_0000 | shade(1 + dot as u32), "dot {dot}");
    }
    assert_eq!(pixels[8], 0);
    engine.render_scanline_bg_text(BgIndex::new(0), 3, &vram);
    assert_eq!(top_pixels(&engine)[2], 0x0400_0000 | shade(1 + 2 + 24));
}

#[test]
fn text_background_mirrors_a_tile() {
    let mut vram = bg_vram();
    put_numbered_tile(&mut vram);
    // Mirrored horizontally, vertically, and both ways.
    put_16(&mut vram.a_bg, 0x800, 1 | 1 << 10);
    put_16(&mut vram.a_bg, 0x802, 1 | 1 << 11);
    put_16(&mut vram.a_bg, 0x804, 1 | 3 << 10);
    let mut engine = engine_with_open_window();
    engine.bgs[0] = Bg { control: BgControl(TEXT_256), priority: 0, scroll: [0, 0] };
    engine.render_scanline_bg_text(BgIndex::new(0), 1, &vram);
    let pixels = top_pixels(&engine);
    for dot in 0..8u32 {
        assert_eq!(pixels[dot as usize] & 0x3_FFFF, shade(1 + (7 - dot) + 8));
        assert_eq!(pixels[8 + dot as usize] & 0x3_FFFF, shade(1 + dot + 48));
        assert_eq!(pixels[16 + dot as usize] & 0x3_FFFF, shade(1 + (7 - dot) + 48));
    }
}

#[test]
fn text_background_of_16_colors_reads_low_nibbles_first() {
    let mut vram = bg_vram();
    // Tile 1 of 16 colours: row 0 holds the colour indices 1 to 8.
    vram.a_bg[0x4020..0x4024].copy_from_slice(&[0x21, 0x43, 0x65, 0x87]);
    put_16(&mut vram.a_bg, 0x800, 1);
    // The same tile, mirrored and in palette 3.
    put_16(&mut vram.a_bg, 0x802, 1 | 1 << 10 | 3 << 12);
    let mut engine = engine_with_open_window();
    engine.bgs[1] = Bg { control: BgControl(1 << 8 | 1 << 2), priority: 0, scroll: [0, 0] };
    engine.render_scanline_bg_text(BgIndex::new(1), 0, &vram);
    let pixels = top_pixels(&engine);
    for dot in 0..8u32 {
        assert_eq!(pixels[dot as usize], 0x0800_0000 | shade(1 + dot));
        assert_eq!(pixels[8 + dot as usize], 0x0800_0000 | shade(48 + 8 - dot));
    }
}

#[test]
fn color_index_0_is_transparent() {
    let mut vram = bg_vram();
    vram.a_bg[0x4040..0x4048].copy_from_slice(&[0, 5, 0, 5, 0, 5, 0, 5]);
    put_16(&mut vram.a_bg, 0x800, 1);
    vram.palette[0] = 0x1F;
    let mut engine = engine_with_open_window();
    engine.bg_obj_scanline = Scanline([0x1234_5678; 256]);
    engine.bgs[0] = Bg { control: BgControl(TEXT_256), priority: 0, scroll: [0, 0] };
    engine.render_scanline_bg_text(BgIndex::new(0), 0, &vram);
    assert_eq!(engine.bg_obj_scanline.0[0], 0x1234_5678);
    assert_eq!(engine.bg_obj_scanline.0[1], 0x1234_5678_0400_000A);
    assert_eq!(engine.bg_obj_scanline.0[2], 0x1234_5678);
}

#[test]
fn window_hides_a_background_dot_by_dot() {
    let mut vram = bg_vram();
    put_numbered_tile(&mut vram);
    put_16(&mut vram.a_bg, 0x800, 1);
    let mut engine = engine_with_open_window();
    engine.window.0[3] = WindowPixel(0x3E);
    engine.bgs[0] = Bg { control: BgControl(TEXT_256), priority: 0, scroll: [0, 0] };
    engine.render_scanline_bg_text(BgIndex::new(0), 0, &vram);
    let pixels = top_pixels(&engine);
    assert_eq!(pixels[2], 0x0400_0006);
    assert_eq!(pixels[3], 0);
    assert_eq!(pixels[4], 0x0400_000A);
}

#[test]
fn text_background_scrolls() {
    let mut vram = bg_vram();
    put_numbered_tile(&mut vram);
    put_16(&mut vram.a_bg, 0x800, 1);
    let mut engine = engine_with_open_window();
    engine.bgs[0] = Bg { control: BgControl(TEXT_256), priority: 0, scroll: [3, 2] };
    engine.render_scanline_bg_text(BgIndex::new(0), 0, &vram);
    let pixels = top_pixels(&engine);
    // Dot 0 shows column 3 of row 2.
    assert_eq!(pixels[0] & 0x3_FFFF, shade(1 + 3 + 16));
    assert_eq!(pixels[4] & 0x3_FFFF, shade(1 + 7 + 16));
    assert_eq!(pixels[5], 0);
    // The map repeats after 256 pixels: dot 253 shows column 0 again.
    assert_eq!(pixels[252], 0);
    assert_eq!(pixels[253] & 0x3_FFFF, shade(1 + 0 + 16));
}

#[test]
fn text_scroll_repeats_with_the_width_of_the_map() {
    let mut vram = bg_vram();
    put_numbered_tile(&mut vram);
    for entry in 0..32 {
        put_16(&mut vram.a_bg, 0x800 + entry * 2, if entry % 3 == 0 { 1 } else { 1 | 1 << 10 });
    }
    let mut engine = engine_with_open_window();
    engine.bgs[0] = Bg { control: BgControl(TEXT_256), priority: 0, scroll: [21, 4] };
    engine.render_scanline_bg_text(BgIndex::new(0), 3, &vram);
    let near = top_pixels(&engine);
    let mut engine = engine_with_open_window();
    engine.bgs[0] = Bg { control: BgControl(TEXT_256), priority: 0, scroll: [21 + 256, 4] };
    engine.render_scanline_bg_text(BgIndex::new(0), 3, &vram);
    assert_eq!(top_pixels(&engine), near);
    assert!(near.iter().all(|&pixel| pixel != 0));
}

#[test]
fn wide_text_map_continues_in_the_next_block() {
    let mut vram = bg_vram();
    put_numbered_tile(&mut vram);
    // The map is two blocks wide: the first is empty, the second begins with tile 1.
    put_16(&mut vram.a_bg, 0x1000, 1);
    let wide = BgControl(TEXT_256 | 1 << 14);
    let mut engine = engine_with_open_window();
    engine.bgs[0] = Bg { control: wide, priority: 0, scroll: [0, 0] };
    engine.render_scanline_bg_text(BgIndex::new(0), 0, &vram);
    assert!(top_pixels(&engine).iter().all(|&pixel| pixel == 0));
    let mut engine = engine_with_open_window();
    engine.bgs[0] = Bg { control: wide, priority: 0, scroll: [256, 0] };
    engine.render_scanline_bg_text(BgIndex::new(0), 0, &vram);
    let second = top_pixels(&engine);
    assert_eq!(second[0] & 0x3_FFFF, 2);
    assert_eq!(second[8], 0);
    // A scroll of the map's whole width of 512 pixels ends up where it began.
    let mut engine = engine_with_open_window();
    engine.bgs[0] = Bg { control: wide, priority: 0, scroll: [256 + 512, 0] };
    engine.render_scanline_bg_text(BgIndex::new(0), 0, &vram);
    assert_eq!(top_pixels(&engine), second);
}

#[test]
fn tall_text_map_continues_in_the_next_block() {
    let mut vram = bg_vram();
    put_numbered_tile(&mut vram);
    // Line 256 of a map two blocks high is the first line of the second block.
    put_16(&mut vram.a_bg, 0x1000, 1);
    let mut engine = engine_with_open_window();
    engine.bgs[0] =
        Bg { control: BgControl(TEXT_256 | 2 << 14), priority: 0, scroll: [0, 200] };
    engine.render_scanline_bg_text(BgIndex::new(0), 56, &vram);
    assert_eq!(top_pixels(&engine)[0] & 0x3_FFFF, 2);
}

#[test]
fn extended_palettes_replace_the_palette_of_a_text_background() {
    let mut vram = bg_vram();
    put_numbered_tile(&mut vram);
    put_16(&mut vram.a_bg, 0x800, 1 | 3 << 12);
    // Colour 1 of palette 3 of slot 0, and the same of slot 2.
    put_16(&mut vram.a_bg_ext_pal, (3 * 256 + 1) * 2, 0x7C00);
    put_16(&mut vram.a_bg_ext_pal, 2 * 0x2000 + (3 * 256 + 1) * 2, 0x03E0);
    let mut engine = engine_with_open_window();
    engine.control = Control(1 << 30);
    engine.bgs[0] = Bg { control: BgControl(TEXT_256), priority: 0, scroll: [0, 0] };
    engine.render_scanline_bg_text(BgIndex::new(0), 0, &vram);
    assert_eq!(top_pixels(&engine)[0], 0x0400_0000 | 0x3_E000);
    // Background 0 can take its palettes from slot 2.
    engine.bgs[0].control = BgControl(TEXT_256 | 1 << 13);
    engine.render_scanline_bg_text(BgIndex::new(0), 0, &vram);
    assert_eq!(top_pixels(&engine)[0], 0x0400_0000 | 0xF80);
}

fn identity_at(x: i32, y: i32) -> AffineBgData {
    AffineBgData { params: [0x100, 0, 0, 0x100], pos: [x << 8, y << 8] }
}

const AFFINE: u16 = 2 << 8 | 1 << 2;

#[test]
fn affine_background_under_the_identity_shows_its_map() {
    let mut vram = bg_vram();
    put_numbered_tile(&mut vram);
    // The map holds one byte per tile; its second tile is tile 1.
    vram.a_bg[0x1001] = 1;
    let mut engine = engine_with_open_window();
    engine.bgs[2] = Bg { control: BgControl(AFFINE), priority: 0, scroll: [0, 0] };
    engine.affine_bg_data[0] = identity_at(0, 2);
    engine.render_scanline_bg_affine::<false>(AffineBgIndex::new(0), &vram);
    let pixels = top_pixels(&engine);
    assert_eq!(pixels[7], 0);
    for dot in 0..8u32 {
        assert_eq!(pixels[8 + dot as usize], 0x1000_0000 | shade(1 + dot + 16));
    }
    assert_eq!(pixels[16], 0);
    // The reference point has moved on by one line.
    assert_eq!(engine.affine_bg_data[0].pos, [0, 3 << 8]);
    assert_eq!(engine.affine_bg_data[0].params, [0x100, 0, 0, 0x100]);
}

#[test]
fn affine_background_ends_or_repeats_at_its_edge() {
    let mut vram = bg_vram();
    put_numbered_tile(&mut vram);
    vram.a_bg[0x1000] = 1;
    let mut engine = engine_with_open_window();
    engine.bgs[2] = Bg { control: BgControl(AFFINE), priority: 0, scroll: [0, 0] };
    engine.affine_bg_data[0] = identity_at(0, 0);
    engine.render_scanline_bg_affine::<false>(AffineBgIndex::new(0), &vram);
    let pixels = top_pixels(&engine);
    assert_eq!(pixels[0] & 0x3_FFFF, 2);
    // The map is 128 pixels wide: beyond it there is nothing.
    assert_eq!(pixels[128], 0);
    let mut engine = engine_with_open_window();
    engine.bgs[2] = Bg { control: BgControl(AFFINE), priority: 0, scroll: [0, 0] };
    engine.affine_bg_data[0] = identity_at(0, 0);
    engine.render_scanline_bg_affine::<true>(AffineBgIndex::new(0), &vram);
    let pixels = top_pixels(&engine);
    assert_eq!(pixels[0] & 0x3_FFFF, 2);
    assert_eq!(pixels[128] & 0x3_FFFF, 2);
    assert_eq!(pixels[135] & 0x3_FFFF, 16);
}

#[test]
fn affine_background_left_of_its_map_is_empty() {
    let mut vram = bg_vram();
    put_numbered_tile(&mut vram);
    vram.a_bg[0x1000] = 1;
    let mut engine = engine_with_open_window();
    engine.bgs[2] = Bg { control: BgControl(AFFINE), priority: 0, scroll: [0, 0] };
    engine.affine_bg_data[0] = identity_at(-4, 0);
    engine.render_scanline_bg_affine::<false>(AffineBgIndex::new(0), &vram);
    let pixels = top_pixels(&engine);
    assert_eq!(pixels[3], 0);
    assert_eq!(pixels[4] & 0x3_FFFF, 2);
    assert_eq!(pixels[11] & 0x3_FFFF, 16);
}

#[test]
fn affine_matrix_scales_the_background() {
    let mut vram = bg_vram();
    put_numbered_tile(&mut vram);
    vram.a_bg[0x1000] = 1;
    let mut engine = engine_with_open_window();
    engine.bgs[3] = Bg { control: BgControl(AFFINE), priority: 0, scroll: [0, 0] };
    // Half a pixel per dot, and two lines per scanline.
    engine.affine_bg_data[1] = AffineBgData { params: [0x80, 0, 0, 0x200], pos: [0, 0] };
    engine.render_scanline_bg_affine::<false>(AffineBgIndex::new(1), &vram);
    let pixels = top_pixels(&engine);
    assert_eq!(pixels[0], 0x2000_0002);
    assert_eq!(pixels[1], 0x2000_0002);
    assert_eq!(pixels[2], 0x2000_0004);
    assert_eq!(pixels[15], 0x2000_0010);
    assert_eq!(pixels[16], 0);
    assert_eq!(engine.affine_bg_data[1].pos, [0, 0x200]);
    assert_eq!(engine.affine_bg_data[0].pos, [0, 0]);
}

#[test]
fn identity_matrix_picks_the_pixels_of_a_text_background() {
    let mut vram = bg_vram();
    for tile in 0..4usize {
        for i in 0..64 {
            vram.a_bg[0x4000 + tile * 64 + i] = (tile * 64 + i) as u8 | 1;
        }
    }
    for column in 0..16usize {
        // The same tiles in the map of a text background and in that of an affine one.
        put_16(&mut vram.a_bg, 0x800 + (5 * 32 + column) * 2, (column % 4) as u16);
        vram.a_bg[0x1000 + 5 * 16 + column] = (column % 4) as u8;
    }
    let mut text = engine_with_open_window();
    text.bgs[2] = Bg { control: BgControl(TEXT_256), priority: 0, scroll: [0, 40] };
    text.render_scanline_bg_text(BgIndex::new(2), 3, &vram);
    let mut affine = engine_with_open_window();
    affine.bgs[2] = Bg { control: BgControl(AFFINE), priority: 0, scroll: [0, 0] };
    affine.affine_bg_data[0] = identity_at(0, 43);
    affine.render_scanline_bg_affine::<false>(AffineBgIndex::new(0), &vram);
    assert_eq!(top_pixels(&text)[..128], top_pixels(&affine)[..128]);
    assert!(top_pixels(&text)[..128].iter().all(|&pixel| pixel != 0));
}

#[test]
fn extended_bitmap_of_colors_shows_opaque_pixels() {
    let mut vram = bg_vram();
    // The bitmap of 128 by 128 pixels begins at 16 KiB.
    put_16(&mut vram.a_bg, 0x4000 + (2 * 128 + 5) * 2, 0x801F);
    put_16(&mut vram.a_bg, 0x4000 + (2 * 128 + 6) * 2, 0x001F);
    let mut engine = engine_with_open_window();
    engine.bgs[2] =
        Bg { control: BgControl(1 << 7 | 1 << 2 | 1 << 8), priority: 0, scroll: [0, 0] };
    engine.affine_bg_data[0] = identity_at(0, 2);
    engine.render_scanline_bg_extended::<false>(AffineBgIndex::new(0), &vram);
    let pixels = top_pixels(&engine);
    assert_eq!(pixels[5], 0x1000_003E);
    assert_eq!(pixels[6], 0);
    assert_eq!(engine.affine_bg_data[0].pos, [0, 3 << 8]);
}

#[test]
fn extended_bitmap_of_indices_shows_palette_colors() {
    let mut vram = bg_vram();
    // A bitmap of 256 by 256 pixels.
    vram.a_bg[0x4000 + 3 * 256 + 200] = 9;
    let mut engine = engine_with_open_window();
    engine.bgs[3] =
        Bg { control: BgControl(1 << 7 | 1 << 8 | 1 << 14), priority: 0, scroll: [0, 0] };
    engine.affine_bg_data[1] = identity_at(0, 3);
    engine.render_scanline_bg_extended::<false>(AffineBgIndex::new(1), &vram);
    let pixels = top_pixels(&engine);
    assert_eq!(pixels[200], 0x2000_0012);
    assert_eq!(pixels[199], 0);
}

#[test]
fn extended_tile_background_mirrors_and_uses_extended_palettes() {
    let mut vram = bg_vram();
    put_numbered_tile(&mut vram);
    // Tile 1, mirrored horizontally, in palette 2; the entries have 16 bits.
    put_16(&mut vram.a_bg, 0x1000, 1 | 1 << 10 | 2 << 12);
    // Colour 8 of palette 2 of slot 2.
    put_16(&mut vram.a_bg_ext_pal, 2 * 0x2000 + (2 * 256 + 8) * 2, 0x7C00);
    let mut engine = engine_with_open_window();
    engine.bgs[2] = Bg { control: BgControl(AFFINE), priority: 0, scroll: [0, 0] };
    engine.affine_bg_data[0] = identity_at(0, 0);
    engine.render_scanline_bg_extended::<false>(AffineBgIndex::new(0), &vram);
    // Without extended palettes the palette number is of no use.
    assert_eq!(top_pixels(&engine)[0], 0x1000_0010);
    assert_eq!(top_pixels(&engine)[7], 0x1000_0002);
    let mut engine = engine_with_open_window();
    engine.control = Control(1 << 30);
    engine.bgs[2] = Bg { control: BgControl(AFFINE), priority: 0, scroll: [0, 0] };
    engine.affine_bg_data[0] = identity_at(0, 0);
    engine.render_scanline_bg_extended::<false>(AffineBgIndex::new(0), &vram);
    assert_eq!(top_pixels(&engine)[0], 0x1003_E000);
}

#[test]
fn large_bitmap_fills_background_memory() {
    let mut vram = bg_vram();
    // 512 pixels wide: line 3 begins at 3 * 512.
    vram.a_bg[3 * 512 + 300] = 4;
    let mut engine = engine_with_open_window();
    engine.bgs[2] = Bg { control: BgControl(0), priority: 0, scroll: [0, 0] };
    engine.affine_bg_data[0] = identity_at(100, 3);
    engine.render_scanline_bg_large::<false>(&vram);
    let pixels = top_pixels(&engine);
    assert_eq!(pixels[200], 0x1000_0008);
    assert_eq!(pixels[199], 0);
    assert_eq!(engine.affine_bg_data[0].pos, [100 << 8, 4 << 8]);
}

#[test]
fn background_modes_select_the_renderers() {
    let mut vram = bg_vram();
    put_numbered_tile(&mut vram);
    // An affine map whose first tile is tile 1. Read as a text map, its first entry is
    // tile 1 as well.
    vram.a_bg[0x1000] = 1;
    let mut engine = Engine2d::new(Role::A);
    engine.bgs[2] = Bg { control: BgControl(AFFINE | 1 << 7), priority: 0, scroll: [0, 0] };
    engine.affine_bg_data[0] = identity_at(0, 0);
    // Mode 0: background 2 is a text background, and its affine state stays.
    engine.control = Control(1 << 16);
    engine.prerender_sprites(0, &vram);
    let mut buffer = Scanline([0u32; 256]);
    engine.render_scanline(0, &mut buffer, &vram);
    assert_eq!(engine.bg_obj_scanline.0[0] as u32, 0x1000_0002);
    assert_eq!(engine.affine_bg_data[0].pos, [0, 0]);
    // Mode 2: background 2 is an affine background.
    engine.control = Control(1 << 16 | 2);
    engine.render_scanline(0, &mut buffer, &vram);
    assert_eq!(engine.bg_obj_scanline.0[0] as u32, 0x1000_0002);
    assert_eq!(engine.affine_bg_data[0].pos, [0, 0x100]);
    // Mode 7 has no use for background 2.
    engine.control = Control(1 << 16 | 7);
    engine.render_scanline(0, &mut buffer, &vram);
    assert_eq!(engine.bg_obj_scanline.0[0] as u32, 0x8000_0000);
    assert_eq!(engine.affine_bg_data[0].pos, [0, 0x100]);
}

#[test]
fn background_0_gives_way_to_the_3d_layer() {
    let mut vram = bg_vram();
    put_numbered_tile(&mut vram);
    put_16(&mut vram.a_bg, 0x800, 1);
    let mut engine = Engine2d::new(Role::A);
    engine.bgs[0] = Bg { control: BgControl(TEXT_256), priority: 0, scroll: [0, 0] };
    engine.control = Control(1 << 16 | 1 << 3);
    engine.prerender_sprites(0, &vram);
    let mut buffer = Scanline([0u32; 256]);
    engine.render_scanline(0, &mut buffer, &vram);
    assert_eq!(engine.bg_obj_scanline.0[0] as u32, 0x8000_0000);
}

#[test]
fn identity_matrix_shows_the_cell_that_the_position_lies_in() {
    let mut vram = bg_vram();
    put_numbered_tile(&mut vram);
    // A map of 16 by 16 cells: the cell in column 3 of row 5 names tile 1.
    vram.a_bg[0x1000 + 5 * 16 + 3] = 1;
    let mut engine = engine_with_open_window();
    engine.bgs[2] = Bg { control: BgControl(AFFINE), priority: 0, scroll: [0, 0] };
    // The reference point lies two maps to the right and one map down of that cell.
    engine.affine_bg_data[0] = identity_at(2 * 128 + 3 * 8 - 10, 128 + 5 * 8 + 6);
    engine.render_scanline_bg_affine::<true>(AffineBgIndex::new(0), &vram);
    let pixels = top_pixels(&engine);
    assert_eq!(pixels[9], 0);
    for column in 0..8u32 {
        // Row 6 of the tile, and again one map further to the right.
        assert_eq!(pixels[10 + column as usize], 0x1000_0000 | shade(1 + column + 48));
        assert_eq!(pixels[138 + column as usize], 0x1000_0000 | shade(1 + column + 48));
    }
    assert_eq!(pixels[18], 0);
}

#[test]
fn identity_matrix_goes_on_where_the_position_overflows() {
    let mut vram = bg_vram();
    put_numbered_tile(&mut vram);
    // The whole pixel 0x7F_FFFC lies in column 15 of the map, and four dots on the position
    // no longer fits its signed number.
    vram.a_bg[0x1000 + 15] = 1;
    vram.a_bg[0x1000] = 1;
    let mut engine = engine_with_open_window();
    engine.bgs[2] = Bg { control: BgControl(AFFINE), priority: 0, scroll: [0, 0] };
    engine.affine_bg_data[0] = identity_at(0x7F_FFFC, 0);
    engine.render_scanline_bg_affine::<true>(AffineBgIndex::new(0), &vram);
    let pixels = top_pixels(&engine);
    assert_eq!(pixels[0], 0x1000_0000 | shade(5));
    assert_eq!(pixels[3], 0x1000_0000 | shade(8));
    assert_eq!(pixels[4], 0x1000_0000 | shade(1));
    assert_eq!(pixels[11], 0x1000_0000 | shade(8));
    assert_eq!(pixels[12], 0);
}
