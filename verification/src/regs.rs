//! The display registers that the compositor reads, as packed values with
//! named fields.

use vstd::prelude::*;

verus! {

/// The display control register of an engine.
#[derive(Clone, Copy, Debug, PartialEq, Eq)]
pub struct Control(pub u32);

impl Control {
    pub open spec fn spec_bg_mode(self) -> u8 {
        (self.0 & 7) as u8
    }

    /// Which renderer each background uses (bits 0 to 2).
    #[verifier::when_used_as_spec(spec_bg_mode)]
    pub fn bg_mode(self) -> (r: u8)
        ensures
            r == self.spec_bg_mode(),
    {
        (self.0 & 7) as u8
    }

    pub open spec fn spec_bg0_3d(self) -> bool {
        self.0 & 1u32 << 3 != 0
    }

    /// Whether background 0 shows the 3D layer (bit 3).
    #[verifier::when_used_as_spec(spec_bg0_3d)]
    pub fn bg0_3d(self) -> (r: bool)
        ensures
            r == self.spec_bg0_3d(),
    {
        self.0 & 1u32 << 3 != 0
    }

    pub open spec fn spec_obj_tile_1d_mapping(self) -> bool {
        self.0 & 1u32 << 4 != 0
    }

    /// Whether the tiles of a sprite follow each other in memory (bit 4), rather
    /// than lying in a grid 32 tiles wide.
    #[verifier::when_used_as_spec(spec_obj_tile_1d_mapping)]
    pub fn obj_tile_1d_mapping(self) -> (r: bool)
        ensures
            r == self.spec_obj_tile_1d_mapping(),
    {
        self.0 & 1u32 << 4 != 0
    }

    pub open spec fn spec_objs_enabled(self) -> bool {
        self.0 & 1u32 << 12 != 0
    }

    /// Whether sprites are shown (bit 12).
    #[verifier::when_used_as_spec(spec_objs_enabled)]
    pub fn objs_enabled(self) -> (r: bool)
        ensures
            r == self.spec_objs_enabled(),
    {
        self.0 & 1u32 << 12 != 0
    }

    pub open spec fn spec_win01_enabled(self) -> u8 {
        (self.0 >> 13 & 3) as u8
    }

    /// The enable bits of windows 0 and 1 (bits 13 and 14).
    #[verifier::when_used_as_spec(spec_win01_enabled)]
    pub fn win01_enabled(self) -> (r: u8)
        ensures
            r == self.spec_win01_enabled(),
    {
        (self.0 >> 13 & 3) as u8
    }

    pub open spec fn spec_obj_win_enabled(self) -> bool {
        self.0 & 1u32 << 15 != 0
    }

    /// Whether the sprite window is enabled (bit 15).
    #[verifier::when_used_as_spec(spec_obj_win_enabled)]
    pub fn obj_win_enabled(self) -> (r: bool)
        ensures
            r == self.spec_obj_win_enabled(),
    {
        self.0 & 1u32 << 15 != 0
    }

    pub open spec fn spec_wins_enabled(self) -> u8 {
        (self.0 >> 13 & 7) as u8
    }

    /// The enable bits of windows 0 and 1 and of the sprite window (bits 13 to
    /// 15).
    #[verifier::when_used_as_spec(spec_wins_enabled)]
    pub fn wins_enabled(self) -> (r: u8)
        ensures
            r == self.spec_wins_enabled(),
    {
        (self.0 >> 13 & 7) as u8
    }

    pub open spec fn spec_display_mode_a(self) -> u8 {
        (self.0 >> 16 & 3) as u8
    }

    /// What engine A displays (bits 16 and 17): nothing, the composited
    /// layers, a bank of video memory, or main memory.
    #[verifier::when_used_as_spec(spec_display_mode_a)]
    pub fn display_mode_a(self) -> (r: u8)
        ensures
            r == self.spec_display_mode_a(),
    {
        (self.0 >> 16 & 3) as u8
    }

    pub open spec fn spec_display_mode_b(self) -> u8 {
        (self.0 >> 16 & 1) as u8
    }

    /// What engine B displays (bit 16): nothing or the composited layers.
    #[verifier::when_used_as_spec(spec_display_mode_b)]
    pub fn display_mode_b(self) -> (r: u8)
        ensures
            r == self.spec_display_mode_b(),
    {
        (self.0 >> 16 & 1) as u8
    }

    pub open spec fn spec_a_vram_bank(self) -> u8 {
        (self.0 >> 18 & 3) as u8
    }

    /// The bank that engine A displays in display mode 2 (bits 18 and 19).
    #[verifier::when_used_as_spec(spec_a_vram_bank)]
    pub fn a_vram_bank(self) -> (r: u8)
        ensures
            r == self.spec_a_vram_bank(),
    {
        (self.0 >> 18 & 3) as u8
    }

    pub open spec fn spec_obj_tile_1d_boundary(self) -> u8 {
        (self.0 >> 20 & 3) as u8
    }

    /// The spacing of sprite tile numbers under 1D mapping, as a shift on top
    /// of 32 bytes (bits 20 and 21).
    #[verifier::when_used_as_spec(spec_obj_tile_1d_boundary)]
    pub fn obj_tile_1d_boundary(self) -> (r: u8)
        ensures
            r == self.spec_obj_tile_1d_boundary(),
    {
        (self.0 >> 20 & 3) as u8
    }

    pub open spec fn spec_a_tile_base(self) -> u32 {
        self.0 >> 8 & 0x7_0000
    }

    /// Engine A's offset of all background tile data, in bytes (bits 24 to 26,
    /// in units of 64 KiB).
    #[verifier::when_used_as_spec(spec_a_tile_base)]
    pub fn a_tile_base(self) -> (r: u32)
        ensures
            r == self.spec_a_tile_base(),
    {
        self.0 >> 8 & 0x7_0000
    }

    pub open spec fn spec_a_map_base(self) -> u32 {
        self.0 >> 11 & 0x7_0000
    }

    /// Engine A's offset of all background maps, in bytes (bits 27 to 29, in
    /// units of 64 KiB).
    #[verifier::when_used_as_spec(spec_a_map_base)]
    pub fn a_map_base(self) -> (r: u32)
        ensures
            r == self.spec_a_map_base(),
    {
        self.0 >> 11 & 0x7_0000
    }

    pub open spec fn spec_bg_ext_pal_enabled(self) -> bool {
        self.0 & 1u32 << 30 != 0
    }

    /// Whether 256-colour backgrounds use the extended palettes (bit 30).
    #[verifier::when_used_as_spec(spec_bg_ext_pal_enabled)]
    pub fn bg_ext_pal_enabled(self) -> (r: bool)
        ensures
            r == self.spec_bg_ext_pal_enabled(),
    {
        self.0 & 1u32 << 30 != 0
    }

    pub open spec fn spec_obj_ext_pal_enabled(self) -> bool {
        self.0 & 1u32 << 31 != 0
    }

    /// Whether 256-colour sprites use the extended palettes (bit 31).
    #[verifier::when_used_as_spec(spec_obj_ext_pal_enabled)]
    pub fn obj_ext_pal_enabled(self) -> (r: bool)
        ensures
            r == self.spec_obj_ext_pal_enabled(),
    {
        self.0 & 1u32 << 31 != 0
    }
}

/// The control register of a background.
#[derive(Clone, Copy, Debug, PartialEq, Eq)]
pub struct BgControl(pub u16);

impl BgControl {
    pub open spec fn spec_priority(self) -> u8 {
        (self.0 & 3) as u8
    }

    /// The background's priority, 0 being in front (bits 0 and 1).
    #[verifier::when_used_as_spec(spec_priority)]
    pub fn priority(self) -> (r: u8)
        ensures
            r == self.spec_priority(),
    {
        (self.0 & 3) as u8
    }

    pub open spec fn spec_tile_base(self) -> u32 {
        (self.0 as u32 >> 2 & 0xF) << 14
    }

    /// Offset of the tile data, in bytes (bits 2 to 5, in units of 16 KiB).
    #[verifier::when_used_as_spec(spec_tile_base)]
    pub fn tile_base(self) -> (r: u32)
        ensures
            r == self.spec_tile_base(),
    {
        (self.0 as u32 >> 2 & 0xF) << 14
    }

    pub open spec fn spec_use_direct_color_extended_bg(self) -> bool {
        self.0 & 1u16 << 2 != 0
    }

    /// For an extended bitmap background, whether its pixels are colours
    /// rather than palette indices (bit 2).
    #[verifier::when_used_as_spec(spec_use_direct_color_extended_bg)]
    pub fn use_direct_color_extended_bg(self) -> (r: bool)
        ensures
            r == self.spec_use_direct_color_extended_bg(),
    {
        self.0 & 1u16 << 2 != 0
    }

    pub open spec fn spec_use_256_colors(self) -> bool {
        self.0 & 1u16 << 7 != 0
    }

    /// For a text background, whether its tiles hold 8 bits per pixel rather
    /// than 4 (bit 7).
    #[verifier::when_used_as_spec(spec_use_256_colors)]
    pub fn use_256_colors(self) -> (r: bool)
        ensures
            r == self.spec_use_256_colors(),
    {
        self.0 & 1u16 << 7 != 0
    }

    pub open spec fn spec_use_bitmap_extended_bg(self) -> bool {
        self.0 & 1u16 << 7 != 0
    }

    /// For an extended background, whether it is a bitmap rather than a tile
    /// map (bit 7).
    #[verifier::when_used_as_spec(spec_use_bitmap_extended_bg)]
    pub fn use_bitmap_extended_bg(self) -> (r: bool)
        ensures
            r == self.spec_use_bitmap_extended_bg(),
    {
        self.0 & 1u16 << 7 != 0
    }

    pub open spec fn spec_map_base(self) -> u32 {
        (self.0 as u32 >> 8 & 0x1F) << 11
    }

    /// Offset of the map, in bytes (bits 8 to 12, in units of 2 KiB).
    #[verifier::when_used_as_spec(spec_map_base)]
    pub fn map_base(self) -> (r: u32)
        ensures
            r == self.spec_map_base(),
    {
        (self.0 as u32 >> 8 & 0x1F) << 11
    }

    pub open spec fn spec_affine_display_area_overflow(self) -> bool {
        self.0 & 1u16 << 13 != 0
    }

    /// For an affine background, whether it repeats outside its area rather
    /// than being transparent there (bit 13).
    #[verifier::when_used_as_spec(spec_affine_display_area_overflow)]
    pub fn affine_display_area_overflow(self) -> (r: bool)
        ensures
            r == self.spec_affine_display_area_overflow(),
    {
        self.0 & 1u16 << 13 != 0
    }

    pub open spec fn spec_bg01_ext_pal_slot(self) -> u8 {
        (self.0 >> 13 & 1) as u8
    }

    /// For backgrounds 0 and 1, whether the extended palettes come from the
    /// slot two above the background's own (bit 13).
    #[verifier::when_used_as_spec(spec_bg01_ext_pal_slot)]
    pub fn bg01_ext_pal_slot(self) -> (r: u8)
        ensures
            r == self.spec_bg01_ext_pal_slot(),
    {
        (self.0 >> 13 & 1) as u8
    }

    pub open spec fn spec_size_key(self) -> u8 {
        (self.0 >> 14) as u8
    }

    /// The size of the background, of a meaning that depends on the renderer
    /// (bits 14 and 15).
    #[verifier::when_used_as_spec(spec_size_key)]
    pub fn size_key(self) -> (r: u8)
        ensures
            r == self.spec_size_key(),
    {
        (self.0 >> 14) as u8
    }
}

/// The register that selects the colour effect and its targets.
#[derive(Clone, Copy, Debug, PartialEq, Eq)]
pub struct ColorEffectsControl(pub u16);

impl ColorEffectsControl {
    pub open spec fn spec_target_1_mask(self) -> u8 {
        (self.0 & 0x3F) as u8
    }

    /// The layers an effect applies to when on top (bits 0 to 5).
    #[verifier::when_used_as_spec(spec_target_1_mask)]
    pub fn target_1_mask(self) -> (r: u8)
        ensures
            r == self.spec_target_1_mask(),
    {
        (self.0 & 0x3F) as u8
    }

    pub open spec fn spec_color_effect(self) -> u8 {
        (self.0 >> 6 & 3) as u8
    }

    /// The effect: none, blending, brightening or darkening (bits 6 and 7).
    #[verifier::when_used_as_spec(spec_color_effect)]
    pub fn color_effect(self) -> (r: u8)
        ensures
            r == self.spec_color_effect(),
    {
        (self.0 >> 6 & 3) as u8
    }

    pub open spec fn spec_target_2_mask(self) -> u8 {
        (self.0 >> 8 & 0x3F) as u8
    }

    /// The layers that may be blended with when second from the top (bits 8
    /// to 13).
    #[verifier::when_used_as_spec(spec_target_2_mask)]
    pub fn target_2_mask(self) -> (r: u8)
        ensures
            r == self.spec_target_2_mask(),
    {
        (self.0 >> 8 & 0x3F) as u8
    }
}

/// The register of the brightness applied to the finished scanline.
#[derive(Clone, Copy, Debug, PartialEq, Eq)]
pub struct MasterBrightnessControl(pub u16);

impl MasterBrightnessControl {
    pub open spec fn spec_factor(self) -> u8 {
        (self.0 & 0x1F) as u8
    }

    /// The strength in sixteenths (bits 0 to 4).
    #[verifier::when_used_as_spec(spec_factor)]
    pub fn factor(self) -> (r: u8)
        ensures
            r == self.spec_factor(),
    {
        (self.0 & 0x1F) as u8
    }

    pub open spec fn spec_mode(self) -> u8 {
        (self.0 >> 14) as u8
    }

    /// The direction: none, brighter or darker (bits 14 and 15).
    #[verifier::when_used_as_spec(spec_mode)]
    pub fn mode(self) -> (r: u8)
        ensures
            r == self.spec_mode(),
    {
        (self.0 >> 14) as u8
    }
}

/// The layers that a window source shows: bits 0 to 3 for the backgrounds, bit
/// 4 for sprites, bit 5 for colour effects.
#[derive(Clone, Copy, Debug, PartialEq, Eq)]
pub struct WindowControl(pub u8);

/// A background as the compositor sees it.
#[derive(Clone, Copy, Debug, PartialEq, Eq)]
pub struct Bg {
    pub control: BgControl,
    /// The priority that the control register gives, or 4 while the
    /// background is disabled.
    pub priority: u8,
    /// Horizontal and vertical scroll offset of a text background.
    pub scroll: [u16; 2],
}

/// The matrix and the reference point of an affine background, in 8-bit
/// fixed point.
#[derive(Clone, Copy, Debug, PartialEq, Eq)]
pub struct AffineBgData {
    /// The matrix: what a step of one dot adds to x, what a step of one line
    /// adds to x, and the same two for y.
    pub params: [i16; 4],
    /// The position in the background of the first dot of the next scanline.
    pub pos: [i32; 2],
}

/// The rectangle of a window: on each axis its first coordinate and the one
/// after its last. An end below the start stands for the edge of the screen.
#[derive(Clone, Copy, Debug, PartialEq, Eq)]
pub struct WindowRanges {
    pub x_range: [u8; 2],
    pub y_range: [u8; 2],
}

} // verus!
