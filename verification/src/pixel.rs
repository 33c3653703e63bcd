//! The packed pixels that the stages of the compositor hand to each other.

use vstd::prelude::*;

verus! {

/// Number of dots in a scanline.
pub const SCREEN_WIDTH: usize = 256;

/// Number of visible scanlines in a frame.
pub const SCREEN_HEIGHT: usize = 192;

/// Bit of a layer mask that stands for the sprite layer.
pub const OBJ_LAYER: u8 = 0x10;

/// Bit of a colour-effect mask that stands for the backdrop.
pub const BACKDROP_LAYER: u8 = 0x20;

/// A composited pixel: an 18-bit colour in bits 0 to 17, a 5-bit alpha in bits
/// 18 to 22, the flags "force blending" (23), "custom alpha" (24) and
/// "3D" (25), and in bits 26 to 31 the colour-effect mask, in which the bit of
/// the layer the pixel came from is set (backgrounds 0 to 3, sprites,
/// backdrop).
#[derive(Clone, Copy, Debug, PartialEq, Eq)]
pub struct BgObjPixel(pub u32);

impl BgObjPixel {
    pub open spec fn spec_rgb(self) -> u32 {
        self.0 & 0x3_FFFF
    }

    /// The 18-bit colour.
    #[verifier::when_used_as_spec(spec_rgb)]
    pub fn rgb(self) -> (r: u32)
        ensures
            r == self.spec_rgb(),
    {
        self.0 & 0x3_FFFF
    }

    pub open spec fn spec_alpha(self) -> u8 {
        (self.0 >> 18 & 0x1F) as u8
    }

    /// The pixel's own blending weight, used when `custom_alpha` is set.
    #[verifier::when_used_as_spec(spec_alpha)]
    pub fn alpha(self) -> (r: u8)
        ensures
            r == self.spec_alpha(),
    {
        (self.0 >> 18 & 0x1F) as u8
    }

    pub open spec fn spec_force_blending(self) -> bool {
        self.0 & 1u32 << 23 != 0
    }

    /// Whether the pixel blends with the one below it whatever the selected
    /// colour effect is.
    #[verifier::when_used_as_spec(spec_force_blending)]
    pub fn force_blending(self) -> (r: bool)
        ensures
            r == self.spec_force_blending(),
    {
        self.0 & 1u32 << 23 != 0
    }

    pub open spec fn spec_custom_alpha(self) -> bool {
        self.0 & 1u32 << 24 != 0
    }

    /// Whether a forced blend uses the pixel's own alpha.
    #[verifier::when_used_as_spec(spec_custom_alpha)]
    pub fn custom_alpha(self) -> (r: bool)
        ensures
            r == self.spec_custom_alpha(),
    {
        self.0 & 1u32 << 24 != 0
    }

    pub open spec fn spec_is_3d(self) -> bool {
        self.0 & 1u32 << 25 != 0
    }

    /// Whether the pixel came from the 3D layer.
    #[verifier::when_used_as_spec(spec_is_3d)]
    pub fn is_3d(self) -> (r: bool)
        ensures
            r == self.spec_is_3d(),
    {
        self.0 & 1u32 << 25 != 0
    }

    pub open spec fn spec_color_effects_mask(self) -> u8 {
        (self.0 >> 26) as u8
    }

    /// The mask with the bit of the pixel's layer.
    #[verifier::when_used_as_spec(spec_color_effects_mask)]
    pub fn color_effects_mask(self) -> (r: u8)
        ensures
            r == self.spec_color_effects_mask(),
    {
        (self.0 >> 26) as u8
    }

    pub open spec fn spec_with_color_effects_mask(self, mask: u8) -> BgObjPixel {
        BgObjPixel((self.0 & 0x03FF_FFFF) | ((mask as u32) << 26))
    }

    /// The pixel with its colour-effect mask replaced by the low six bits of
    /// `mask`.
    #[verifier::when_used_as_spec(spec_with_color_effects_mask)]
    pub fn with_color_effects_mask(self, mask: u8) -> (r: BgObjPixel)
        ensures
            r == self.spec_with_color_effects_mask(mask),
    {
        BgObjPixel((self.0 & 0x03FF_FFFF) | ((mask as u32) << 26))
    }
}

/// The two highest-priority pixels of a dot in one word: the top one in the low
/// half, the one below it in the high half. A dot to which a single layer has
/// written has no second pixel; the zero in its place belongs to no layer.
pub open spec fn pixel_pair(top: u32, next: u32) -> u64 {
    (top as u64) | (next as u64) << 32
}

/// The top pixel of a pair.
pub open spec fn pair_top(pair: u64) -> u32 {
    pair as u32
}

/// The pixel below the top one of a pair.
pub open spec fn pair_next(pair: u64) -> u32 {
    (pair >> 32) as u32
}

/// The pair after `pixel` was written over it: `pixel` on top, the former top
/// below it, the former second pixel gone.
pub open spec fn spec_push_pixel(pair: u64, pixel: u32) -> u64 {
    pair << 32 | (pixel as u64)
}

/// Writes `pixel` over a pair.
pub fn push_pixel(pair: u64, pixel: u32) -> (r: u64)
    ensures
        r == spec_push_pixel(pair, pixel),
        pair_top(r) == pixel,
        pair_next(r) == pair_top(pair),
{
    let r: u64 = pair << 32 | (pixel as u64);
    assert((pair << 32 | (pixel as u64)) as u32 == pixel && ((pair << 32 | (pixel as u64))
        >> 32) as u32 == pair as u32) by (bit_vector);
    r
}

/// A sprite pixel before compositing. Bits 0 to 11 hold a palette index (or
/// bits 0 to 14 a 15-bit colour, when `use_raw_color` is set); bit 15 is
/// `use_raw_color`, bit 16 `use_ext_pal`; bits 18 to 24 are laid out as in
/// [`BgObjPixel`]; bits 26 to 28 hold the priority, 0 to 3, or 4 where no
/// sprite covers the dot.
#[derive(Clone, Copy, Debug, PartialEq, Eq)]
pub struct ObjPixel(pub u32);

/// Priority of a dot that no sprite covers.
pub const NO_OBJ_PRIORITY: u8 = 4;

impl ObjPixel {
    pub open spec fn spec_pal_color(self) -> u16 {
        (self.0 & 0xFFF) as u16
    }

    /// Index into the sprite palette: the colour in the low 8 bits (4 for
    /// 16-colour sprites), the palette above them.
    #[verifier::when_used_as_spec(spec_pal_color)]
    pub fn pal_color(self) -> (r: u16)
        ensures
            r == self.spec_pal_color(),
    {
        (self.0 & 0xFFF) as u16
    }

    pub open spec fn spec_raw_color(self) -> u16 {
        (self.0 & 0x7FFF) as u16
    }

    /// The 15-bit colour of a pixel that carries one.
    #[verifier::when_used_as_spec(spec_raw_color)]
    pub fn raw_color(self) -> (r: u16)
        ensures
            r == self.spec_raw_color(),
    {
        (self.0 & 0x7FFF) as u16
    }

    pub open spec fn spec_use_raw_color(self) -> bool {
        self.0 & 1u32 << 15 != 0
    }

    /// Whether the pixel carries a colour rather than a palette index.
    #[verifier::when_used_as_spec(spec_use_raw_color)]
    pub fn use_raw_color(self) -> (r: bool)
        ensures
            r == self.spec_use_raw_color(),
    {
        self.0 & 1u32 << 15 != 0
    }

    pub open spec fn spec_use_ext_pal(self) -> bool {
        self.0 & 1u32 << 16 != 0
    }

    /// Whether the palette index refers to the extended sprite palettes.
    #[verifier::when_used_as_spec(spec_use_ext_pal)]
    pub fn use_ext_pal(self) -> (r: bool)
        ensures
            r == self.spec_use_ext_pal(),
    {
        self.0 & 1u32 << 16 != 0
    }

    pub open spec fn spec_priority(self) -> u8 {
        (self.0 >> 26 & 7) as u8
    }

    /// The sprite's priority, or 4 where there is no sprite.
    #[verifier::when_used_as_spec(spec_priority)]
    pub fn priority(self) -> (r: u8)
        ensures
            r == self.spec_priority(),
    {
        (self.0 >> 26 & 7) as u8
    }

    pub open spec fn spec_with_priority(self, priority: u8) -> ObjPixel {
        ObjPixel((self.0 & !(7u32 << 26)) | ((priority as u32 & 7) << 26))
    }

    /// The pixel with its priority replaced by the low three bits of
    /// `priority`.
    #[verifier::when_used_as_spec(spec_with_priority)]
    pub fn with_priority(self, priority: u8) -> (r: ObjPixel)
        ensures
            r == self.spec_with_priority(priority),
    {
        ObjPixel((self.0 & !(7u32 << 26)) | ((priority as u32 & 7) << 26))
    }

    pub open spec fn spec_with_force_blending(self, value: bool) -> ObjPixel {
        ObjPixel(
            (self.0 & !(1u32 << 23)) | (if value {
                1u32 << 23
            } else {
                0
            }),
        )
    }

    /// The pixel with its "force blending" flag replaced.
    #[verifier::when_used_as_spec(spec_with_force_blending)]
    pub fn with_force_blending(self, value: bool) -> (r: ObjPixel)
        ensures
            r == self.spec_with_force_blending(value),
    {
        ObjPixel(
            (self.0 & !(1u32 << 23)) | (if value {
                1u32 << 23
            } else {
                0
            }),
        )
    }

    pub open spec fn spec_with_use_raw_color(self, value: bool) -> ObjPixel {
        ObjPixel(
            (self.0 & !(1u32 << 15)) | (if value {
                1u32 << 15
            } else {
                0
            }),
        )
    }

    /// The pixel with its `use_raw_color` flag replaced.
    #[verifier::when_used_as_spec(spec_with_use_raw_color)]
    pub fn with_use_raw_color(self, value: bool) -> (r: ObjPixel)
        ensures
            r == self.spec_with_use_raw_color(value),
    {
        ObjPixel(
            (self.0 & !(1u32 << 15)) | (if value {
                1u32 << 15
            } else {
                0
            }),
        )
    }

    pub open spec fn spec_with_use_ext_pal(self, value: bool) -> ObjPixel {
        ObjPixel(
            (self.0 & !(1u32 << 16)) | (if value {
                1u32 << 16
            } else {
                0
            }),
        )
    }

    /// The pixel with its `use_ext_pal` flag replaced.
    #[verifier::when_used_as_spec(spec_with_use_ext_pal)]
    pub fn with_use_ext_pal(self, value: bool) -> (r: ObjPixel)
        ensures
            r == self.spec_with_use_ext_pal(value),
    {
        ObjPixel(
            (self.0 & !(1u32 << 16)) | (if value {
                1u32 << 16
            } else {
                0
            }),
        )
    }

    pub open spec fn spec_with_pal_color(self, index: u16) -> ObjPixel {
        ObjPixel((self.0 & !0xFFFu32) | (index as u32 & 0xFFF))
    }

    /// The pixel with its palette index replaced by the low twelve bits of
    /// `index`.
    #[verifier::when_used_as_spec(spec_with_pal_color)]
    pub fn with_pal_color(self, index: u16) -> (r: ObjPixel)
        ensures
            r == self.spec_with_pal_color(index),
    {
        ObjPixel((self.0 & !0xFFFu32) | (index as u32 & 0xFFF))
    }

    /// The attribute bits that a sprite pixel hands on to the composited
    /// pixel made of it.
    pub open spec fn spec_bg_obj_attrs(self) -> u32 {
        self.0 & 0x03F8_0000
    }
}

/// The layers visible at a dot: bits 0 to 3 for the backgrounds, bit 4 for
/// sprites, bit 5 for colour effects.
#[derive(Clone, Copy, Debug, PartialEq, Eq)]
pub struct WindowPixel(pub u8);

impl WindowPixel {
    pub open spec fn spec_bg_obj_mask(self) -> u8 {
        self.0 & 0x1F
    }

    /// The visible background and sprite layers.
    #[verifier::when_used_as_spec(spec_bg_obj_mask)]
    pub fn bg_obj_mask(self) -> (r: u8)
        ensures
            r == self.spec_bg_obj_mask(),
    {
        self.0 & 0x1F
    }

    pub open spec fn spec_color_effects_enabled(self) -> bool {
        self.0 & 1u8 << 5 != 0
    }

    /// Whether colour effects apply at the dot.
    #[verifier::when_used_as_spec(spec_color_effects_enabled)]
    pub fn color_effects_enabled(self) -> (r: bool)
        ensures
            r == self.spec_color_effects_enabled(),
    {
        self.0 & 1u8 << 5 != 0
    }
}

} // verus!
