//! The renderer of extended backgrounds: affine backgrounds that are either
//! a bitmap, of colours or of palette indices, or a map of tiles with
//! 16-bit entries.

use crate::color::rgb_15_to_18;
use crate::engine_2d::bg_affine::{
    affine_area_mask, affine_row_shift, affine_tile_mask, spec_affine_area_mask, spec_affine_pos,
    spec_affine_row_shift, spec_affine_tile_mask, spec_next_line,
};
use crate::engine_2d::bg_text::{
    bg_map_base, bg_tile_base, spec_bg_map_base, spec_bg_pixel, spec_bg_tile_base,
    spec_tile_color_256, spec_write_dot,
};
use crate::engine_2d::{AffineBgIndex, Engine2d};
use crate::pixel::push_pixel;
use crate::regs::{BgControl, Control};
use crate::vram::{Role, Vram};
use vstd::prelude::*;

verus! {

/// Width and height of an extended bitmap, as binary logarithms on top of
/// 128 pixels: 128 by 128, 256 by 256, 512 by 256 or 512 by 512.
pub open spec fn spec_extended_bitmap_shifts(size_key: u8) -> (u32, u32) {
    if size_key == 0 {
        (0, 0)
    } else if size_key == 1 {
        (1, 1)
    } else if size_key == 2 {
        (2, 1)
    } else {
        (2, 2)
    }
}

/// The bits of a coordinate that hold the pixel's place within a bitmap of
/// 128 pixels times two to the `shift`.
pub open spec fn spec_bitmap_coord_mask(shift: u32) -> u32 {
    if shift == 0 {
        0x7F00
    } else if shift == 1 {
        0xFF00
    } else if shift == 2 {
        0x1_FF00
    } else {
        0x3_FF00
    }
}

/// Whether a position lies outside a bitmap of the given shifts.
pub open spec fn spec_outside_bitmap(x_shift: u32, y_shift: u32, pos: (i32, i32)) -> bool {
    (pos.0 & spec_affine_area_mask(x_shift as u8)) | (pos.1 & spec_affine_area_mask(y_shift as u8))
        != 0
}

/// What an extended bitmap shows at a position: a composited pixel, or
/// nothing where the position lies outside of a bitmap that does not repeat,
/// or where the bitmap's pixel is transparent. A pixel of a bitmap of colours
/// is transparent unless its bit 15 is set, one of a bitmap of palette
/// indices if its index is 0.
pub open spec fn spec_extended_bitmap_pixel(
    vram: &Vram,
    role: Role,
    bg_control: BgControl,
    bg_index: u8,
    overflow: bool,
    pos: (i32, i32),
) -> Option<u32> {
    let data_base = bg_control.map_base() << 3;
    let shifts = spec_extended_bitmap_shifts(bg_control.size_key());
    let x = pos.0 as u32 & spec_bitmap_coord_mask(shifts.0);
    let y = pos.1 as u32 & spec_bitmap_coord_mask(shifts.1);
    if !overflow && spec_outside_bitmap(shifts.0, shifts.1, pos) {
        None
    } else if bg_control.use_direct_color_extended_bg() {
        let color = vram.bg_16(role, data_base.wrapping_add(y << shifts.0 | x >> 7));
        if color & 0x8000 != 0 {
            Some(spec_bg_pixel(color, bg_index))
        } else {
            None
        }
    } else {
        let color_index = vram.bg_byte(role, data_base.wrapping_add(y >> 1 << shifts.0 | x >> 8));
        if color_index == 0 {
            None
        } else {
            Some(
                spec_bg_pixel(
                    vram.palette_16(role.palette_base() | (color_index as usize) << 1),
                    bg_index,
                ),
            )
        }
    }
}

/// Address of the map entry, two bytes, of the tile that holds a position.
pub open spec fn spec_extended_entry_addr(map_base: u32, size_key: u8, pos: (i32, i32)) -> u32 {
    let tile_x = (pos.0 as u32 >> 11) & spec_affine_tile_mask(size_key);
    let tile_y = (pos.1 as u32 >> 11) & spec_affine_tile_mask(size_key);
    map_base.wrapping_add((tile_y << spec_affine_row_shift(size_key) | tile_x) << 1)
}

/// Address of the pixel that holds a position, in the tile that a map entry
/// names: bits 10 and 11 of the entry mirror the tile.
pub open spec fn spec_extended_pixel_addr(tile_base: u32, entry: u16, pos: (i32, i32)) -> u32 {
    let x_offset = if entry & 1u16 << 10 == 0 {
        pos.0 as u32 >> 8 & 7
    } else {
        !pos.0 as u32 >> 8 & 7
    };
    let y_offset = if entry & 1u16 << 11 == 0 {
        pos.1 as u32 >> 5 & 0x38
    } else {
        !pos.1 as u32 >> 5 & 0x38
    };
    tile_base.wrapping_add((entry as u32 & 0x3FF) << 6 | y_offset | x_offset)
}

/// What an extended tile background shows at a position.
pub open spec fn spec_extended_tile_pixel(
    vram: &Vram,
    role: Role,
    control: Control,
    bg_control: BgControl,
    bg_index: u8,
    overflow: bool,
    pos: (i32, i32),
) -> Option<u32> {
    let size_key = bg_control.size_key();
    if !overflow && (pos.0 | pos.1) & spec_affine_area_mask(size_key) != 0 {
        None
    } else {
        let entry = vram.bg_16(
            role,
            spec_extended_entry_addr(spec_bg_map_base(role, control, bg_control), size_key, pos),
        );
        let color_index = vram.bg_byte(
            role,
            spec_extended_pixel_addr(spec_bg_tile_base(role, control, bg_control), entry, pos),
        );
        if color_index == 0 {
            None
        } else {
            Some(
                spec_bg_pixel(
                    spec_tile_color_256(
                        vram,
                        role,
                        control.bg_ext_pal_enabled(),
                        bg_index,
                        entry,
                        color_index,
                    ),
                    bg_index,
                ),
            )
        }
    }
}

/// What an extended background shows at a position.
pub open spec fn spec_extended_pixel(
    vram: &Vram,
    role: Role,
    control: Control,
    bg_control: BgControl,
    bg_index: u8,
    overflow: bool,
    pos: (i32, i32),
) -> Option<u32> {
    if bg_control.use_bitmap_extended_bg() {
        spec_extended_bitmap_pixel(vram, role, bg_control, bg_index, overflow, pos)
    } else {
        spec_extended_tile_pixel(vram, role, control, bg_control, bg_index, overflow, pos)
    }
}

/// Width and height of an extended bitmap, as binary logarithms on top of
/// 128 pixels.
pub fn extended_bitmap_shifts(size_key: u8) -> (r: (u32, u32))
    ensures
        r == spec_extended_bitmap_shifts(size_key),
        r.0 <= 2,
        r.1 <= 2,
{
    if size_key == 0 {
        (0, 0)
    } else if size_key == 1 {
        (1, 1)
    } else if size_key == 2 {
        (2, 1)
    } else {
        (2, 2)
    }
}

/// The bits of a coordinate that hold the pixel's place within a bitmap of
/// 128 pixels times two to the `shift`.
pub fn bitmap_coord_mask(shift: u32) -> (r: u32)
    ensures
        r == spec_bitmap_coord_mask(shift),
{
    if shift == 0 {
        0x7F00
    } else if shift == 1 {
        0xFF00
    } else if shift == 2 {
        0x1_FF00
    } else {
        0x3_FF00
    }
}

impl Engine2d {
    /// What extended background `affine_index` (background 2 or 3) writes to
    /// dot `i` of the current scanline.
    pub open spec fn extended_dot(
        &self,
        affine_index: u8,
        overflow: bool,
        vram: &Vram,
        i: int,
    ) -> Option<u32> {
        let bg_index = (affine_index + 2) as u8;
        let data = self.affine_bg_data[affine_index as int];
        if self.window.0[i].0 & (1u8 << bg_index) != 0 {
            spec_extended_pixel(
                vram,
                self.role,
                self.control,
                self.bgs[bg_index as int].control,
                bg_index,
                overflow,
                spec_affine_pos(data.pos, data.params, i as nat),
            )
        } else {
            None
        }
    }

    /// Composites extended background `bg_index` onto the current scanline
    /// and moves its reference point to the next one.
    /// `DISPLAY_AREA_OVERFLOW` says whether the background repeats outside of
    /// its area.
    pub fn render_scanline_bg_extended<const DISPLAY_AREA_OVERFLOW: bool>(
        &mut self,
        bg_index: AffineBgIndex,
        vram: &Vram,
    )
        ensures
            forall|i: int|
                0 <= i < 256 ==> #[trigger] final(self).bg_obj_scanline.0[i] == spec_write_dot(
                    old(self).bg_obj_scanline.0[i],
                    old(self).extended_dot(bg_index@, DISPLAY_AREA_OVERFLOW, vram, i),
                ),
            final(self).affine_bg_data[bg_index@ as int] == spec_next_line(
                old(self).affine_bg_data[bg_index@ as int],
            ),
            final(self).affine_bg_data[1 - bg_index@] == old(self).affine_bg_data[1 - bg_index@],
            *final(self) == (Engine2d {
                bg_obj_scanline: final(self).bg_obj_scanline,
                affine_bg_data: final(self).affine_bg_data,
                ..*old(self)
            }),
    {
        let index: u8 = bg_index.get();
        let bg_number: u8 = index + 2;
        let role = self.role;
        let control = self.control;
        let bg_control = self.bgs[bg_number as usize].control;
        let data = self.affine_bg_data[index as usize];
        let bg_mask: u8 = 1u8 << bg_number;
        let pixel_attrs: u32 = (bg_mask as u32) << 26;
        let size_key: u8 = bg_control.size_key();
        let mut pos_x: i32 = data.pos[0];
        let mut pos_y: i32 = data.pos[1];
        if bg_control.use_bitmap_extended_bg() {
            let data_base: u32 = bg_control.map_base() << 3;
            let (x_shift, y_shift) = extended_bitmap_shifts(size_key);
            let x_area_mask: i32 = affine_area_mask(x_shift as u8);
            let y_area_mask: i32 = affine_area_mask(y_shift as u8);
            let x_mask: u32 = bitmap_coord_mask(x_shift);
            let y_mask: u32 = bitmap_coord_mask(y_shift);
            let direct_color: bool = bg_control.use_direct_color_extended_bg();
            for i in 0..256usize
                invariant
                    index == bg_index@,
                    index < 2,
                    bg_number == index + 2,
                    role == self.role,
                    control == self.control,
                    bg_control == self.bgs[bg_number as int].control,
                    bg_control.use_bitmap_extended_bg(),
                    direct_color == bg_control.use_direct_color_extended_bg(),
                    data == old(self).affine_bg_data[index as int],
                    data_base == bg_control.map_base() << 3,
                    bg_mask == 1u8 << bg_number,
                    pixel_attrs == (bg_mask as u32) << 26,
                    (x_shift, y_shift) == spec_extended_bitmap_shifts(bg_control.size_key()),
                    x_shift <= 2,
                    x_area_mask == spec_affine_area_mask(x_shift as u8),
                    y_area_mask == spec_affine_area_mask(y_shift as u8),
                    x_mask == spec_bitmap_coord_mask(x_shift),
                    y_mask == spec_bitmap_coord_mask(y_shift),
                    (pos_x, pos_y) == spec_affine_pos(data.pos, data.params, i as nat),
                    forall|j: int|
                        0 <= j < i ==> #[trigger] self.bg_obj_scanline.0[j] == spec_write_dot(
                            old(self).bg_obj_scanline.0[j],
                            old(self).extended_dot(index, DISPLAY_AREA_OVERFLOW, vram, j),
                        ),
                    forall|j: int|
                        i <= j < 256 ==> #[trigger] self.bg_obj_scanline.0[j] == old(
                            self,
                        ).bg_obj_scanline.0[j],
                    *self == (Engine2d { bg_obj_scanline: self.bg_obj_scanline, ..*old(self) }),
            {
                if self.window.0[i].0 & bg_mask != 0 && (DISPLAY_AREA_OVERFLOW || (pos_x
                    & x_area_mask) | (pos_y & y_area_mask) == 0) {
                    let x: u32 = #[verifier::truncate] (pos_x as u32) & x_mask;
                    let y: u32 = #[verifier::truncate] (pos_y as u32) & y_mask;
                    if direct_color {
                        let color: u16 = vram.read_bg_16(
                            role,
                            data_base.wrapping_add(y << x_shift | x >> 7),
                        );
                        if color & 0x8000 != 0 {
                            self.bg_obj_scanline.0[i] =
                            push_pixel(
                                self.bg_obj_scanline.0[i],
                                rgb_15_to_18(color as u32) | pixel_attrs,
                            );
                        }
                    } else {
                        let color_index: u8 = vram.read_bg_8(
                            role,
                            data_base.wrapping_add(y >> 1 << x_shift | x >> 8),
                        );
                        if color_index != 0 {
                            let color: u16 = vram.read_palette_16(
                                role.palette_base() | (color_index as usize) << 1,
                            );
                            self.bg_obj_scanline.0[i] =
                            push_pixel(
                                self.bg_obj_scanline.0[i],
                                rgb_15_to_18(color as u32) | pixel_attrs,
                            );
                        }
                    }
                }
                pos_x = pos_x.wrapping_add(data.params[0] as i32);
                pos_y = pos_y.wrapping_add(data.params[2] as i32);
            }
        } else {
            let map_base: u32 = bg_map_base(role, control, bg_control);
            let tile_base: u32 = bg_tile_base(role, control, bg_control);
            let area_mask: i32 = affine_area_mask(size_key);
            let tile_mask: u32 = affine_tile_mask(size_key);
            let row_shift: u32 = affine_row_shift(size_key);
            let ext_pal: bool = control.bg_ext_pal_enabled();
            for i in 0..256usize
                invariant
                    index == bg_index@,
                    index < 2,
                    bg_number == index + 2,
                    role == self.role,
                    control == self.control,
                    bg_control == self.bgs[bg_number as int].control,
                    !bg_control.use_bitmap_extended_bg(),
                    ext_pal == control.bg_ext_pal_enabled(),
                    data == old(self).affine_bg_data[index as int],
                    map_base == spec_bg_map_base(role, control, bg_control),
                    tile_base == spec_bg_tile_base(role, control, bg_control),
                    bg_mask == 1u8 << bg_number,
                    pixel_attrs == (bg_mask as u32) << 26,
                    size_key == bg_control.size_key(),
                    area_mask == spec_affine_area_mask(size_key),
                    tile_mask == spec_affine_tile_mask(size_key),
                    row_shift == spec_affine_row_shift(size_key),
                    row_shift < 8,
                    (pos_x, pos_y) == spec_affine_pos(data.pos, data.params, i as nat),
                    forall|j: int|
                        0 <= j < i ==> #[trigger] self.bg_obj_scanline.0[j] == spec_write_dot(
                            old(self).bg_obj_scanline.0[j],
                            old(self).extended_dot(index, DISPLAY_AREA_OVERFLOW, vram, j),
                        ),
                    forall|j: int|
                        i <= j < 256 ==> #[trigger] self.bg_obj_scanline.0[j] == old(
                            self,
                        ).bg_obj_scanline.0[j],
                    *self == (Engine2d { bg_obj_scanline: self.bg_obj_scanline, ..*old(self) }),
            {
                if self.window.0[i].0 & bg_mask != 0 && (DISPLAY_AREA_OVERFLOW || (pos_x | pos_y)
                    & area_mask == 0) {
                    let tile_x: u32 = (#[verifier::truncate] (pos_x as u32) >> 11) & tile_mask;
                    let tile_y: u32 = (#[verifier::truncate] (pos_y as u32) >> 11) & tile_mask;
                    let entry: u16 = vram.read_bg_16(
                        role,
                        map_base.wrapping_add((tile_y << row_shift | tile_x) << 1),
                    );
                    let x_offset: u32 = if entry & 1u16 << 10 == 0 {
                        #[verifier::truncate] (pos_x as u32) >> 8 & 7
                    } else {
                        #[verifier::truncate] (!pos_x as u32) >> 8 & 7
                    };
                    let y_offset: u32 = if entry & 1u16 << 11 == 0 {
                        #[verifier::truncate] (pos_y as u32) >> 5 & 0x38
                    } else {
                        #[verifier::truncate] (!pos_y as u32) >> 5 & 0x38
                    };
                    let color_index: u8 = vram.read_bg_8(
                        role,
                        tile_base.wrapping_add((entry as u32 & 0x3FF) << 6 | y_offset | x_offset),
                    );
                    if color_index != 0 {
                        let color: u16 = if ext_pal {
                            vram.read_bg_ext_pal_16(
                                role,
                                bg_number,
                                (((entry >> 12) as usize) << 8) | color_index as usize,
                            )
                        } else {
                            vram.read_palette_16(role.palette_base() | (color_index as usize) << 1)
                        };
                        self.bg_obj_scanline.0[i] =
                        push_pixel(
                            self.bg_obj_scanline.0[i],
                            rgb_15_to_18(color as u32) | pixel_attrs,
                        );
                    }
                }
                pos_x = pos_x.wrapping_add(data.params[0] as i32);
                pos_y = pos_y.wrapping_add(data.params[2] as i32);
            }
        }
        self.advance_affine_line(bg_index);
    }
}

} // verus!
