use dust_core::engine_2d::{Engine2d, Scanline};
use dust_core::pixel::{push_pixel, BgObjPixel, ObjPixel, WindowPixel};
use dust_core::regs::{
    BgControl, ColorEffectsControl, Control, MasterBrightnessControl, WindowControl, WindowRanges,
};
use dust_core::vram::Role;

fn window_masks(engine: &Engine2d) -> Vec<u8> {
    engine.window.0.iter().map(|pixel| pixel.0).collect()
}

fn engine_with_windows(control: u32) -> Engine2d {
    let mut engine = Engine2d::new(Role::A);
    engine.control = Control(control);
    engine.window_control =
        [WindowControl(0x01), WindowControl(0x02), WindowControl(0x04), WindowControl(0x08)];
    engine
}

#[test]
fn without_windows_everything_is_visible() {
    let mut engine = engine_with_windows(0);
    engine.window = Scanline([WindowPixel(0); 256]);
    engine.render_windows();
    assert!(window_masks(&engine).iter().all(|&mask| mask == 0x3F));
}

#[test]
fn outside_of_all_windows_the_outside_mask_holds() {
    let mut engine = engine_with_windows(1 << 13);
    engine.render_windows();
    assert!(window_masks(&engine).iter().all(|&mask| mask == 0x04));
}

#[test]
fn an_active_window_covers_its_range() {
    let mut engine = engine_with_windows(1 << 13);
    engine.window_ranges[0] = WindowRanges { x_range: [10, 20], y_range: [0, 0] };
    engine.windows_active = [true, false];
    engine.render_windows();
    let masks = window_masks(&engine);
    assert_eq!(masks[9], 0x04);
    assert_eq!(masks[10], 0x01);
    assert_eq!(masks[19], 0x01);
    assert_eq!(masks[20], 0x04);
}

#[test]
fn a_window_that_ends_before_it_starts_reaches_the_edge() {
    let mut engine = engine_with_windows(1 << 14);
    engine.window_ranges[1] = WindowRanges { x_range: [250, 3], y_range: [0, 0] };
    engine.windows_active = [false, true];
    engine.render_windows();
    let masks = window_masks(&engine);
    assert_eq!(masks[0], 0x04);
    assert_eq!(masks[249], 0x04);
    assert_eq!(masks[250], 0x02);
    assert_eq!(masks[255], 0x02);
}

#[test]
fn an_empty_window_covers_nothing() {
    let mut engine = engine_with_windows(1 << 13);
    engine.window_ranges[0] = WindowRanges { x_range: [7, 7], y_range: [0, 0] };
    engine.windows_active = [true, false];
    engine.render_windows();
    assert!(window_masks(&engine).iter().all(|&mask| mask == 0x04));
}

#[test]
fn window_0_goes_over_window_1_and_both_over_the_sprite_window() {
    let mut engine = engine_with_windows(7 << 13);
    engine.window_ranges[0] = WindowRanges { x_range: [8, 16], y_range: [0, 0] };
    engine.window_ranges[1] = WindowRanges { x_range: [12, 24], y_range: [0, 0] };
    engine.windows_active = [true, true];
    // The sprite window covers the dots 20 to 31.
    engine.obj_window[2] = 0xF0;
    engine.obj_window[3] = 0xFF;
    engine.render_windows();
    let masks = window_masks(&engine);
    assert_eq!(masks[7], 0x04);
    assert_eq!(masks[8], 0x01);
    assert_eq!(masks[12], 0x01);
    assert_eq!(masks[15], 0x01);
    assert_eq!(masks[16], 0x02);
    assert_eq!(masks[20], 0x02);
    assert_eq!(masks[23], 0x02);
    assert_eq!(masks[24], 0x08);
    assert_eq!(masks[31], 0x08);
    assert_eq!(masks[32], 0x04);
}

#[test]
fn the_sprite_window_needs_to_be_enabled() {
    let mut engine = engine_with_windows(1 << 13);
    engine.obj_window[0] = 0xFF;
    engine.render_windows();
    assert_eq!(window_masks(&engine)[0], 0x04);
    engine.control = Control(1 << 15);
    engine.render_windows();
    assert_eq!(window_masks(&engine)[0], 0x08);
    assert_eq!(window_masks(&engine)[8], 0x04);
}

#[test]
fn inactive_windows_cover_nothing() {
    let mut engine = engine_with_windows(3 << 13);
    engine.window_ranges[0] = WindowRanges { x_range: [0, 100], y_range: [0, 0] };
    engine.window_ranges[1] = WindowRanges { x_range: [0, 100], y_range: [0, 0] };
    engine.render_windows();
    assert!(window_masks(&engine).iter().all(|&mask| mask == 0x04));
}

#[test]
fn window_masks_do_not_depend_on_the_line_before() {
    let mut first = engine_with_windows(1 << 13);
    first.window = Scanline([WindowPixel(0x2A); 256]);
    first.render_windows();
    let mut second = engine_with_windows(1 << 13);
    second.window = Scanline([WindowPixel(0x15); 256]);
    second.render_windows();
    assert_eq!(window_masks(&first), window_masks(&second));
}

#[test]
fn windows_become_active_at_their_first_line_and_inactive_at_their_end() {
    let mut engine = engine_with_windows(1 << 13);
    engine.window_ranges[0] = WindowRanges { x_range: [0, 0], y_range: [10, 20] };
    engine.update_windows(9);
    assert_eq!(engine.windows_active, [false, false]);
    engine.update_windows(10);
    assert_eq!(engine.windows_active, [true, false]);
    // In between, the window stays as it is.
    engine.update_windows(15);
    assert_eq!(engine.windows_active, [true, false]);
    engine.update_windows(19);
    assert_eq!(engine.windows_active, [true, false]);
    engine.update_windows(20);
    assert_eq!(engine.windows_active, [false, false]);
    engine.update_windows(21);
    assert_eq!(engine.windows_active, [false, false]);
}

#[test]
fn a_window_whose_end_lies_before_its_start_ends_below_the_screen() {
    let mut engine = engine_with_windows(1 << 14);
    engine.window_ranges[1] = WindowRanges { x_range: [0, 0], y_range: [100, 50] };
    engine.update_windows(50);
    assert_eq!(engine.windows_active, [false, false]);
    engine.update_windows(100);
    assert_eq!(engine.windows_active, [false, true]);
    engine.update_windows(191);
    assert_eq!(engine.windows_active, [false, true]);
    engine.update_windows(192);
    assert_eq!(engine.windows_active, [false, false]);
}

#[test]
fn a_window_that_starts_and_ends_on_one_line_is_inactive() {
    let mut engine = engine_with_windows(1 << 13);
    engine.window_ranges[0] = WindowRanges { x_range: [0, 0], y_range: [30, 30] };
    engine.update_windows(30);
    assert_eq!(engine.windows_active, [false, false]);
}

#[test]
fn a_disabled_window_is_inactive() {
    let mut engine = engine_with_windows(1 << 14);
    engine.window_ranges[0] = WindowRanges { x_range: [0, 0], y_range: [10, 20] };
    engine.windows_active = [true, true];
    engine.update_windows(10);
    assert_eq!(engine.windows_active, [false, true]);
}

#[test]
fn the_line_counter_is_compared_by_its_low_byte() {
    let mut engine = engine_with_windows(1 << 13);
    engine.window_ranges[0] = WindowRanges { x_range: [0, 0], y_range: [4, 8] };
    engine.update_windows(260);
    assert_eq!(engine.windows_active, [true, false]);
}

#[test]
fn window_disables_color_effects_dot_by_dot() {
    let mut engine = Engine2d::new(Role::A);
    // Darkening to black, with background 0 as first target.
    engine.color_effects_control = ColorEffectsControl(0x00C1);
    engine.brightness_coeff = 16;
    engine.bg_obj_scanline = Scanline([0x8000_0000_0403_FFFF; 256]);
    engine.window = Scanline([WindowPixel(0x3F); 256]);
    engine.window.0[1] = WindowPixel(0x1F);
    let mut buffer = Scanline([0u32; 256]);
    engine.apply_color_effects::<3>(&mut buffer);
    assert_eq!(buffer.0[0], 0x0400_0000);
    assert_eq!(buffer.0[1], 0x0403_FFFF);
    assert_eq!(buffer.0[2], 0x0400_0000);
}

#[test]
fn effects_leave_pixels_that_are_no_first_target() {
    let mut engine = Engine2d::new(Role::A);
    engine.color_effects_control = ColorEffectsControl(0x00C2);
    engine.brightness_coeff = 16;
    engine.bg_obj_scanline = Scanline([0x8000_0000_0403_FFFF; 256]);
    engine.window = Scanline([WindowPixel(0x3F); 256]);
    let mut buffer = Scanline([0u32; 256]);
    engine.apply_color_effects::<3>(&mut buffer);
    assert_eq!(buffer.0[0], 0x0403_FFFF);
    engine.apply_color_effects::<2>(&mut buffer);
    assert_eq!(buffer.0[0], 0x0403_FFFF);
    engine.apply_color_effects::<0>(&mut buffer);
    assert_eq!(buffer.0[0], 0x0403_FFFF);
}

#[test]
fn a_custom_alpha_replaces_the_blend_weights() {
    let mut engine = Engine2d::new(Role::A);
    engine.color_effects_control = ColorEffectsControl(0x2000);
    engine.blend_coeffs = (16, 0);
    // A sprite pixel that forces blending with an alpha of 4 over a white backdrop.
    let top: u64 = 0x4000_0000 | 1 << 23 | 1 << 24 | 4 << 18;
    engine.bg_obj_scanline = Scanline([0x8003_FFFF_0000_0000 | top; 256]);
    engine.window = Scanline([WindowPixel(0x3F); 256]);
    let mut buffer = Scanline([0u32; 256]);
    engine.apply_color_effects::<0>(&mut buffer);
    // Four sixteenths of black and twelve of white: 63 * 12 / 16 = 47.
    assert_eq!(buffer.0[0], 0x2_FBEF);
    // Without the custom alpha the weights of the registers apply.
    let top: u64 = 0x4000_0000 | 1 << 23;
    engine.bg_obj_scanline = Scanline([0x8003_FFFF_0000_0000 | top; 256]);
    engine.apply_color_effects::<0>(&mut buffer);
    assert_eq!(buffer.0[0], 0);
}

#[test]
fn composited_pixels_have_their_fields() {
    let pixel = BgObjPixel(0x8540_1234 | 1 << 25);
    assert_eq!(pixel.rgb(), 0x1234);
    assert_eq!(pixel.alpha(), 0x10);
    assert!(!pixel.force_blending());
    assert!(pixel.custom_alpha());
    assert!(pixel.is_3d());
    assert_eq!(pixel.color_effects_mask(), 0x21);
    assert_eq!(pixel.with_color_effects_mask(0x10).0, 0x4340_1234);
    assert_eq!(BgObjPixel(0).with_color_effects_mask(0xFF).0, 0xFC00_0000);
}

#[test]
fn sprite_pixels_have_their_fields() {
    let pixel = ObjPixel(0)
        .with_priority(3)
        .with_force_blending(true)
        .with_use_raw_color(true)
        .with_use_ext_pal(true)
        .with_pal_color(0xABC);
    assert_eq!(pixel.0, 3 << 26 | 1 << 23 | 1 << 16 | 1 << 15 | 0xABC);
    assert_eq!(pixel.priority(), 3);
    assert_eq!(pixel.pal_color(), 0xABC);
    assert_eq!(pixel.raw_color(), 0xABC | 0);
    assert!(pixel.use_raw_color());
    assert!(pixel.use_ext_pal());
    assert_eq!(
        pixel.with_use_raw_color(false).with_force_blending(false).0,
        3 << 26 | 1 << 16 | 0xABC
    );
    assert_eq!(pixel.with_priority(4).with_pal_color(0xF123).priority(), 4);
    assert_eq!(pixel.with_pal_color(0xF123).pal_color(), 0x123);
    assert_eq!(ObjPixel(0x7FFF).raw_color(), 0x7FFF);
}

#[test]
fn window_pixels_have_their_fields() {
    assert_eq!(WindowPixel(0x3F).bg_obj_mask(), 0x1F);
    assert!(WindowPixel(0x20).color_effects_enabled());
    assert!(!WindowPixel(0x1F).color_effects_enabled());
    assert!(WindowPixel(0xE0).color_effects_enabled());
}

#[test]
fn a_written_pixel_pushes_the_top_pixel_down() {
    assert_eq!(push_pixel(0x1111_1111_2222_2222, 0x3333_3333), 0x2222_2222_3333_3333);
    assert_eq!(push_pixel(0, 0xFFFF_FFFF), 0xFFFF_FFFF);
}

#[test]
fn registers_have_their_fields() {
    let control = Control(0xF2D6_A09D);
    assert_eq!(control.bg_mode(), 5);
    assert!(control.bg0_3d());
    assert!(control.obj_tile_1d_mapping());
    assert!(!control.objs_enabled());
    assert_eq!(control.win01_enabled(), 1);
    assert!(control.obj_win_enabled());
    assert_eq!(control.wins_enabled(), 5);
    assert_eq!(control.display_mode_a(), 2);
    assert_eq!(control.display_mode_b(), 0);
    assert_eq!(control.a_vram_bank(), 1);
    assert_eq!(control.obj_tile_1d_boundary(), 1);
    assert_eq!(control.a_tile_base(), 0x2_0000);
    assert_eq!(control.a_map_base(), 0x6_0000);
    assert!(control.bg_ext_pal_enabled());
    assert!(control.obj_ext_pal_enabled());
    let bg = BgControl(0xA596);
    assert_eq!(bg.priority(), 2);
    assert_eq!(bg.tile_base(), 5 << 14);
    assert!(bg.use_direct_color_extended_bg());
    assert!(bg.use_256_colors());
    assert!(bg.use_bitmap_extended_bg());
    assert_eq!(bg.map_base(), 5 << 11);
    assert!(bg.affine_display_area_overflow());
    assert_eq!(bg.bg01_ext_pal_slot(), 1);
    assert_eq!(bg.size_key(), 2);
    let effects = ColorEffectsControl(0x2A95);
    assert_eq!(effects.target_1_mask(), 0x15);
    assert_eq!(effects.color_effect(), 2);
    assert_eq!(effects.target_2_mask(), 0x2A);
    let brightness = MasterBrightnessControl(0x8011);
    assert_eq!(brightness.factor(), 0x11);
    assert_eq!(brightness.mode(), 2);
}
