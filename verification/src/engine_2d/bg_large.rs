//! The renderer of the large bitmap: one background of palette indices, up
//! to 1024 pixels wide, that takes the place of background 2 and fills the
//! whole of background memory.

use crate::color::rgb_15_to_18;
use crate::engine_2d::bg_affine::{
    affine_area_mask, spec_affine_area_mask, spec_affine_pos, spec_next_line,
};
use crate::engine_2d::bg_extended::{bitmap_coord_mask, spec_bitmap_coord_mask};
use crate::engine_2d::bg_text::{spec_bg_pixel, spec_write_dot};
use crate::engine_2d::{AffineBgIndex, Engine2d};
use crate::pixel::push_pixel;
use crate::regs::BgControl;
use crate::vram::{Role, Vram};
use vstd::prelude::*;

verus! {

/// Width and height of the large bitmap, as binary logarithms on top of 256
/// pixels: 512 by 1024, 1024 by 512, 512 by 256 or 512 by 512.
pub open spec fn spec_large_bitmap_shifts(size_key: u8) -> (u32, u32) {
    if size_key == 0 {
        (1, 2)
    } else if size_key == 1 {
        (2, 1)
    } else if size_key == 2 {
        (1, 0)
    } else {
        (1, 1)
    }
}

/// What the large bitmap shows at a position: a composited pixel, or nothing
/// where the position lies outside of a bitmap that does not repeat, or where
/// the bitmap's pixel has colour index 0.
pub open spec fn spec_large_pixel(
    vram: &Vram,
    role: Role,
    bg_control: BgControl,
    overflow: bool,
    pos: (i32, i32),
) -> Option<u32> {
    let shifts = spec_large_bitmap_shifts(bg_control.size_key());
    let x = pos.0 as u32 & spec_bitmap_coord_mask((shifts.0 + 1) as u32);
    let y = pos.1 as u32 & spec_bitmap_coord_mask((shifts.1 + 1) as u32);
    if !overflow && (pos.0 & spec_affine_area_mask((shifts.0 + 1) as u8)) | (pos.1
        & spec_affine_area_mask((shifts.1 + 1) as u8)) != 0 {
        None
    } else {
        let color_index = vram.bg_byte(role, y << shifts.0 | x >> 8);
        if color_index == 0 {
            None
        } else {
            Some(
                spec_bg_pixel(
                    vram.palette_16(role.palette_base() | (color_index as usize) << 1),
                    2,
                ),
            )
        }
    }
}

/// Width and height of the large bitmap, as binary logarithms on top of 256
/// pixels.
pub fn large_bitmap_shifts(size_key: u8) -> (r: (u32, u32))
    ensures
        r == spec_large_bitmap_shifts(size_key),
        r.0 <= 2,
        r.1 <= 2,
{
    if size_key == 0 {
        (1, 2)
    } else if size_key == 1 {
        (2, 1)
    } else if size_key == 2 {
        (1, 0)
    } else {
        (1, 1)
    }
}

impl Engine2d {
    /// What the large bitmap writes to dot `i` of the current scanline.
    pub open spec fn large_dot(&self, overflow: bool, vram: &Vram, i: int) -> Option<u32> {
        let data = self.affine_bg_data[0];
        if self.window.0[i].0 & (1u8 << 2u8) != 0 {
            spec_large_pixel(
                vram,
                self.role,
                self.bgs[2].control,
                overflow,
                spec_affine_pos(data.pos, data.params, i as nat),
            )
        } else {
            None
        }
    }

    /// Composites the large bitmap onto the current scanline as background 2
    /// and moves its reference point to the next one.
    /// `DISPLAY_AREA_OVERFLOW` says whether the bitmap repeats outside of its
    /// area.
    pub fn render_scanline_bg_large<const DISPLAY_AREA_OVERFLOW: bool>(&mut self, vram: &Vram)
        ensures
            forall|i: int|
                0 <= i < 256 ==> #[trigger] final(self).bg_obj_scanline.0[i] == spec_write_dot(
                    old(self).bg_obj_scanline.0[i],
                    old(self).large_dot(DISPLAY_AREA_OVERFLOW, vram, i),
                ),
            final(self).affine_bg_data[0] == spec_next_line(old(self).affine_bg_data[0]),
            final(self).affine_bg_data[1] == old(self).affine_bg_data[1],
            *final(self) == (Engine2d {
                bg_obj_scanline: final(self).bg_obj_scanline,
                affine_bg_data: final(self).affine_bg_data,
                ..*old(self)
            }),
    {
        let role = self.role;
        let bg_control = self.bgs[2].control;
        let data = self.affine_bg_data[0];
        let bg_mask: u8 = 1u8 << 2u8;
        let pixel_attrs: u32 = (bg_mask as u32) << 26;
        let (x_shift, y_shift) = large_bitmap_shifts(bg_control.size_key());
        let x_area_mask: i32 = affine_area_mask((x_shift + 1) as u8);
        let y_area_mask: i32 = affine_area_mask((y_shift + 1) as u8);
        let x_mask: u32 = bitmap_coord_mask(x_shift + 1);
        let y_mask: u32 = bitmap_coord_mask(y_shift + 1);
        let mut pos_x: i32 = data.pos[0];
        let mut pos_y: i32 = data.pos[1];
        for i in 0..256usize
            invariant
                role == self.role,
                bg_control == self.bgs[2].control,
                data == old(self).affine_bg_data[0],
                bg_mask == 1u8 << 2u8,
                pixel_attrs == (bg_mask as u32) << 26,
                (x_shift, y_shift) == spec_large_bitmap_shifts(bg_control.size_key()),
                x_shift <= 2,
                y_shift <= 2,
                x_area_mask == spec_affine_area_mask((x_shift + 1) as u8),
                y_area_mask == spec_affine_area_mask((y_shift + 1) as u8),
                x_mask == spec_bitmap_coord_mask((x_shift + 1) as u32),
                y_mask == spec_bitmap_coord_mask((y_shift + 1) as u32),
                (pos_x, pos_y) == spec_affine_pos(data.pos, data.params, i as nat),
                forall|j: int|
                    0 <= j < i ==> #[trigger] self.bg_obj_scanline.0[j] == spec_write_dot(
                        old(self).bg_obj_scanline.0[j],
                        old(self).large_dot(DISPLAY_AREA_OVERFLOW, vram, j),
                    ),
                forall|j: int|
                    i <= j < 256 ==> #[trigger] self.bg_obj_scanline.0[j] == old(
                        self,
                    ).bg_obj_scanline.0[j],
                *self == (Engine2d { bg_obj_scanline: self.bg_obj_scanline, ..*old(self) }),
        {
            if self.window.0[i].0 & bg_mask != 0 && (DISPLAY_AREA_OVERFLOW || (pos_x & x_area_mask)
                | (pos_y & y_area_mask) == 0) {
                let x: u32 = #[verifier::truncate] (pos_x as u32) & x_mask;
                let y: u32 = #[verifier::truncate] (pos_y as u32) & y_mask;
                let color_index: u8 = vram.read_bg_8(role, y << x_shift | x >> 8);
                if color_index != 0 {
                    let color: u16 = vram.read_palette_16(
                        role.palette_base() | (color_index as usize) << 1,
                    );
                    self.bg_obj_scanline.0[i] =
                    push_pixel(self.bg_obj_scanline.0[i], rgb_15_to_18(color as u32) | pixel_attrs);
                }
            }
            pos_x = pos_x.wrapping_add(data.params[0] as i32);
            pos_y = pos_y.wrapping_add(data.params[2] as i32);
        }
        self.advance_affine_line(AffineBgIndex::new(0));
    }
}

} // verus!
