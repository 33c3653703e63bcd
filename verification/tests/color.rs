use dust_core::color::{
    blend, brightness_decrease, brightness_increase, rgb_15_to_18, rgb_18_to_rgba_32,
};

#[test]
fn expands_15_bit_colors_by_doubling_each_channel() {
    assert_eq!(rgb_15_to_18(0x001F), 0x3E);
    assert_eq!(rgb_15_to_18(0x03E0), 0xF80);
    assert_eq!(rgb_15_to_18(0x7C00), 0x3_E000);
    assert_eq!(rgb_15_to_18(0x7FFF), 0x3_EFBE);
    assert_eq!(rgb_15_to_18(0x0421), 0x2082);
}

#[test]
fn ignores_bit_15_of_a_15_bit_color() {
    assert_eq!(rgb_15_to_18(0x8000), 0);
    assert_eq!(rgb_15_to_18(0x801F), 0x3E);
}

#[test]
fn expands_18_bit_colors_to_opaque_rgba() {
    assert_eq!(rgb_18_to_rgba_32(0), 0xFF00_0000);
    assert_eq!(rgb_18_to_rgba_32(0x3E), 0xFF00_00FB);
    assert_eq!(rgb_18_to_rgba_32(0xF80), 0xFF00_FB00);
    assert_eq!(rgb_18_to_rgba_32(0x3_E000), 0xFFFB_0000);
    assert_eq!(rgb_18_to_rgba_32(0x3_FFFF), 0xFFFF_FFFF);
    assert_eq!(rgb_18_to_rgba_32(0x7DF), 0xFF00_7D7D);
}

#[test]
fn ignores_attribute_bits_of_an_18_bit_color() {
    assert_eq!(rgb_18_to_rgba_32(0x8000_003E), 0xFF00_00FB);
    assert_eq!(rgb_18_to_rgba_32(0xFFFC_0000), 0xFF00_0000);
}

#[test]
fn blend_with_full_weight_keeps_first_color() {
    assert_eq!(blend(0x1_2345, 0x3_FFFF, 16, 0), 0x1_2345);
    assert_eq!(blend(0x3_FFFF, 0x1_2345, 16, 0), 0x3_FFFF);
    assert_eq!(blend(0, 0x3_FFFF, 16, 0), 0);
}

#[test]
fn blend_with_full_weight_drops_attribute_bits() {
    assert_eq!(blend(0x0480_003E, 0x3_FFFF, 16, 0), 0x3E);
}

#[test]
fn blends_two_colors_half_and_half() {
    assert_eq!(blend(0x3E, 0xF80, 8, 8), 0x7DF);
    assert_eq!(blend(0x3_FFFF, 0, 8, 8), 0x1_F7DF);
}

#[test]
fn blend_saturates_each_channel_by_itself() {
    assert_eq!(blend(0x3_FFFF, 0x3_FFFF, 16, 16), 0x3_FFFF);
    assert_eq!(blend(0x3F, 0x3F, 16, 16), 0x3F);
    assert_eq!(blend(0x3_F000, 0x3_F03F, 16, 16), 0x3_F03F);
}

#[test]
fn blend_with_no_weight_is_black() {
    assert_eq!(blend(0x3_FFFF, 0x3_FFFF, 0, 0), 0);
}

#[test]
fn brightens_by_sixteenths_of_the_distance_to_white() {
    assert_eq!(brightness_increase(0, 16), 0x3_FFFF);
    assert_eq!(brightness_increase(0, 8), 0x1_F7DF);
    assert_eq!(brightness_increase(0x3_FFFF, 16), 0x3_FFFF);
    assert_eq!(brightness_increase(0x1_2345, 0), 0x1_2345);
    // Channels 0x3F, 0x10, 0x00: the lacking 0, 47 and 63 are halved to 0, 23 and 31.
    assert_eq!(brightness_increase(0x043F, 8), 0x1_F9FF);
}

#[test]
fn darkens_by_sixteenths_of_the_value() {
    assert_eq!(brightness_decrease(0x3_FFFF, 16), 0);
    assert_eq!(brightness_decrease(0x3_FFFF, 8), 0x2_0820);
    assert_eq!(brightness_decrease(0, 16), 0);
    assert_eq!(brightness_decrease(0x1_2345, 0), 0x1_2345);
}

#[test]
fn brightness_keeps_the_bits_above_the_color() {
    assert_eq!(brightness_increase(0x8000_0000, 16), 0x8003_FFFF);
    assert_eq!(brightness_decrease(0x8003_FFFF, 16), 0x8000_0000);
}
