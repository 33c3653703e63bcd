//! The three attribute words of an entry of object attribute memory.

use vstd::prelude::*;

verus! {

/// First attribute word of a sprite.
#[derive(Clone, Copy, Debug, PartialEq, Eq)]
pub struct OamAttr0(pub u16);

impl OamAttr0 {
    pub open spec fn spec_y_start(self) -> u8 {
        (self.0 & 0xFF) as u8
    }

    /// The scanline of the sprite's first row (bits 0 to 7).
    #[verifier::when_used_as_spec(spec_y_start)]
    pub fn y_start(self) -> (r: u8)
        ensures
            r == self.spec_y_start(),
    {
        (self.0 & 0xFF) as u8
    }

    pub open spec fn spec_rot_scale(self) -> bool {
        self.0 & 1u16 << 8 != 0
    }

    /// Whether the sprite is rotated and scaled (bit 8).
    #[verifier::when_used_as_spec(spec_rot_scale)]
    pub fn rot_scale(self) -> (r: bool)
        ensures
            r == self.spec_rot_scale(),
    {
        self.0 & 1u16 << 8 != 0
    }

    pub open spec fn spec_disabled(self) -> bool {
        self.0 & 1u16 << 9 != 0
    }

    /// For a sprite that is not rotated or scaled, whether it is hidden (bit
    /// 9).
    #[verifier::when_used_as_spec(spec_disabled)]
    pub fn disabled(self) -> (r: bool)
        ensures
            r == self.spec_disabled(),
    {
        self.0 & 1u16 << 9 != 0
    }

    pub open spec fn spec_mode(self) -> u8 {
        (self.0 >> 10 & 3) as u8
    }

    /// The render mode: normal, semi-transparent, window or bitmap (bits 10
    /// and 11).
    #[verifier::when_used_as_spec(spec_mode)]
    pub fn mode(self) -> (r: u8)
        ensures
            r == self.spec_mode(),
    {
        (self.0 >> 10 & 3) as u8
    }

    pub open spec fn spec_use_256_colors(self) -> bool {
        self.0 & 1u16 << 13 != 0
    }

    /// Whether the tiles hold 8 bits per pixel rather than 4 (bit 13).
    #[verifier::when_used_as_spec(spec_use_256_colors)]
    pub fn use_256_colors(self) -> (r: bool)
        ensures
            r == self.spec_use_256_colors(),
    {
        self.0 & 1u16 << 13 != 0
    }

    pub open spec fn spec_shape(self) -> u8 {
        (self.0 >> 14) as u8
    }

    /// The shape: square, wide or tall (bits 14 and 15).
    #[verifier::when_used_as_spec(spec_shape)]
    pub fn shape(self) -> (r: u8)
        ensures
            r == self.spec_shape(),
    {
        (self.0 >> 14) as u8
    }
}

/// Second attribute word of a sprite.
#[derive(Clone, Copy, Debug, PartialEq, Eq)]
pub struct OamAttr1(pub u16);

impl OamAttr1 {
    pub open spec fn spec_x_start(self) -> i16 {
        if self.0 & 0x100 != 0 {
            ((self.0 & 0x1FF) - 0x200) as i16
        } else {
            (self.0 & 0x1FF) as i16
        }
    }

    /// The dot of the sprite's first column, from -256 to 255 (bits 0 to 8,
    /// signed).
    #[verifier::when_used_as_spec(spec_x_start)]
    pub fn x_start(self) -> (r: i16)
        ensures
            r == self.spec_x_start(),
            -256 <= r < 256,
    {
        let word: u16 = self.0;
        let raw: u16 = word & 0x1FF;
        assert(raw <= 0x1FF && (word & 0x100 != 0 ==> raw >= 0x100) && (word & 0x100 == 0 ==> raw
            <= 0xFF)) by (bit_vector)
            requires
                raw == word & 0x1FF,
        ;
        if self.0 & 0x100 != 0 {
            raw as i16 - 0x200
        } else {
            raw as i16
        }
    }

    pub open spec fn spec_x_flip(self) -> bool {
        self.0 & 1u16 << 12 != 0
    }

    /// Whether the sprite is mirrored horizontally (bit 12).
    #[verifier::when_used_as_spec(spec_x_flip)]
    pub fn x_flip(self) -> (r: bool)
        ensures
            r == self.spec_x_flip(),
    {
        self.0 & 1u16 << 12 != 0
    }

    pub open spec fn spec_y_flip(self) -> bool {
        self.0 & 1u16 << 13 != 0
    }

    /// Whether the sprite is mirrored vertically (bit 13).
    #[verifier::when_used_as_spec(spec_y_flip)]
    pub fn y_flip(self) -> (r: bool)
        ensures
            r == self.spec_y_flip(),
    {
        self.0 & 1u16 << 13 != 0
    }

    pub open spec fn spec_size(self) -> u8 {
        (self.0 >> 14) as u8
    }

    /// The size class within the shape (bits 14 and 15).
    #[verifier::when_used_as_spec(spec_size)]
    pub fn size(self) -> (r: u8)
        ensures
            r == self.spec_size(),
    {
        (self.0 >> 14) as u8
    }
}

/// Third attribute word of a sprite.
#[derive(Clone, Copy, Debug, PartialEq, Eq)]
pub struct OamAttr2(pub u16);

impl OamAttr2 {
    pub open spec fn spec_tile_number(self) -> u16 {
        self.0 & 0x3FF
    }

    /// Number of the sprite's first tile (bits 0 to 9).
    #[verifier::when_used_as_spec(spec_tile_number)]
    pub fn tile_number(self) -> (r: u16)
        ensures
            r == self.spec_tile_number(),
    {
        self.0 & 0x3FF
    }

    pub open spec fn spec_bg_priority(self) -> u8 {
        (self.0 >> 10 & 3) as u8
    }

    /// The sprite's priority among the backgrounds (bits 10 and 11).
    #[verifier::when_used_as_spec(spec_bg_priority)]
    pub fn bg_priority(self) -> (r: u8)
        ensures
            r == self.spec_bg_priority(),
    {
        (self.0 >> 10 & 3) as u8
    }

    pub open spec fn spec_palette_number(self) -> u8 {
        (self.0 >> 12) as u8
    }

    /// The sprite's palette (bits 12 to 15).
    #[verifier::when_used_as_spec(spec_palette_number)]
    pub fn palette_number(self) -> (r: u8)
        ensures
            r == self.spec_palette_number(),
    {
        (self.0 >> 12) as u8
    }
}

} // verus!
