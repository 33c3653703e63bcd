//! The renderer of affine backgrounds: square maps of 8 by 8 tiles of 256
//! colours, seen through a 2 by 2 matrix.
//!
//! Positions are pairs of 8-bit fixed-point numbers. A scanline starts at the
//! background's reference point; each dot adds the matrix's x column to the
//! position, and each scanline adds its y column to the reference point.

use crate::color::rgb_15_to_18;
use crate::engine_2d::bg_text::{
    bg_map_base, bg_tile_base, lemma_text_selects_cell, lemma_tile_base_aligned,
    lemma_tile_pixel_bits, spec_bg_map_base, spec_bg_pixel, spec_bg_tile_base,
    spec_text_cell_addr, spec_text_pixel, spec_text_row_addr_256, spec_tile_column,
    spec_tile_pixel, spec_write_dot,
};
use crate::engine_2d::{AffineBgIndex, Engine2d};
use crate::pixel::push_pixel;
use crate::regs::{AffineBgData, BgControl, Control};
use crate::bytes::{lemma_le_64_bytes, nth_byte};
use crate::vram::{Role, Vram};
use vstd::prelude::*;

verus! {

/// The position of dot `i` of a scanline that starts at `pos`.
pub open spec fn spec_affine_pos(pos: [i32; 2], params: [i16; 4], i: nat) -> (i32, i32)
    decreases i,
{
    if i == 0 {
        (pos[0], pos[1])
    } else {
        let before = spec_affine_pos(pos, params, (i - 1) as nat);
        (before.0.wrapping_add(params[0] as i32), before.1.wrapping_add(params[2] as i32))
    }
}

/// The affine state after a scanline: the reference point moved by the
/// matrix's y column.
pub open spec fn spec_next_line(data: AffineBgData) -> AffineBgData {
    AffineBgData {
        params: data.params,
        pos: [
            data.pos[0].wrapping_add(data.params[1] as i32),
            data.pos[1].wrapping_add(data.params[3] as i32),
        ],
    }
}

/// The bits of a coordinate that are set only outside a map of 128 pixels
/// times two to the `size_key`.
pub open spec fn spec_affine_area_mask(size_key: u8) -> i32 {
    if size_key == 0 {
        !0x7FFFi32
    } else if size_key == 1 {
        !0xFFFFi32
    } else if size_key == 2 {
        !0x1_FFFFi32
    } else {
        !0x3_FFFFi32
    }
}

/// The highest tile coordinate of a map of 16 tiles times two to the
/// `size_key`.
pub open spec fn spec_affine_tile_mask(size_key: u8) -> u32 {
    if size_key == 0 {
        15
    } else if size_key == 1 {
        31
    } else if size_key == 2 {
        63
    } else {
        127
    }
}

/// The binary logarithm of the number of tiles in a row of the map.
pub open spec fn spec_affine_row_shift(size_key: u8) -> u32 {
    if size_key == 0 {
        4
    } else if size_key == 1 {
        5
    } else if size_key == 2 {
        6
    } else {
        7
    }
}

/// Address of the map entry, one byte, of the tile that holds a position.
pub open spec fn spec_affine_entry_addr(map_base: u32, size_key: u8, pos: (i32, i32)) -> u32 {
    let tile_x = (pos.0 as u32 >> 11) & spec_affine_tile_mask(size_key);
    let tile_y = (pos.1 as u32 >> 11) & spec_affine_tile_mask(size_key);
    map_base.wrapping_add(tile_y << spec_affine_row_shift(size_key) | tile_x)
}

/// Address of the pixel of tile `tile` that holds a position.
pub open spec fn spec_affine_pixel_addr(tile_base: u32, tile: u32, pos: (i32, i32)) -> u32 {
    tile_base.wrapping_add(tile << 6 | (pos.1 as u32 >> 5 & 0x38) | (pos.0 as u32 >> 8 & 7))
}

/// What an affine background shows at a position: a composited pixel, or
/// nothing where the position lies outside of a map that does not repeat, or
/// where the tile's pixel has colour index 0.
pub open spec fn spec_affine_pixel(
    vram: &Vram,
    role: Role,
    control: Control,
    bg_control: BgControl,
    bg_index: u8,
    overflow: bool,
    pos: (i32, i32),
) -> Option<u32> {
    let size_key = bg_control.size_key();
    if !overflow && (pos.0 | pos.1) & spec_affine_area_mask(size_key) != 0 {
        None
    } else {
        let tile = vram.bg_byte(
            role,
            spec_affine_entry_addr(spec_bg_map_base(role, control, bg_control), size_key, pos),
        );
        let color_index = vram.bg_byte(
            role,
            spec_affine_pixel_addr(spec_bg_tile_base(role, control, bg_control), tile as u32, pos),
        );
        if color_index == 0 {
            None
        } else {
            Some(
                spec_bg_pixel(
                    vram.palette_16(role.palette_base() | (color_index as usize) << 1),
                    bg_index,
                ),
            )
        }
    }
}

/// The bits of a coordinate that are set only outside a map of 128 pixels
/// times two to the `size_key`.
pub fn affine_area_mask(size_key: u8) -> (r: i32)
    ensures
        r == spec_affine_area_mask(size_key),
{
    if size_key == 0 {
        !0x7FFFi32
    } else if size_key == 1 {
        !0xFFFFi32
    } else if size_key == 2 {
        !0x1_FFFFi32
    } else {
        !0x3_FFFFi32
    }
}

/// The highest tile coordinate of a map of 16 tiles times two to the
/// `size_key`.
pub fn affine_tile_mask(size_key: u8) -> (r: u32)
    ensures
        r == spec_affine_tile_mask(size_key),
{
    if size_key == 0 {
        15
    } else if size_key == 1 {
        31
    } else if size_key == 2 {
        63
    } else {
        127
    }
}

/// The binary logarithm of the number of tiles in a row of the map.
pub fn affine_row_shift(size_key: u8) -> (r: u32)
    ensures
        r == spec_affine_row_shift(size_key),
        r < 8,
{
    if size_key == 0 {
        4
    } else if size_key == 1 {
        5
    } else if size_key == 2 {
        6
    } else {
        7
    }
}

impl Engine2d {
    /// What affine background `affine_index` (background 2 or 3) writes to
    /// dot `i` of the current scanline.
    pub open spec fn affine_dot(
        &self,
        affine_index: u8,
        overflow: bool,
        vram: &Vram,
        i: int,
    ) -> Option<u32> {
        let bg_index = (affine_index + 2) as u8;
        let data = self.affine_bg_data[affine_index as int];
        if self.window.0[i].0 & (1u8 << bg_index) != 0 {
            spec_affine_pixel(
                vram,
                self.role,
                self.control,
                self.bgs[bg_index as int].control,
                bg_index,
                overflow,
                spec_affine_pos(data.pos, data.params, i as nat),
            )
        } else {
            None
        }
    }

    /// Moves the reference point of an affine background to the next
    /// scanline.
    pub fn advance_affine_line(&mut self, affine_index: AffineBgIndex)
        ensures
            final(self).affine_bg_data[affine_index@ as int] == spec_next_line(
                old(self).affine_bg_data[affine_index@ as int],
            ),
            final(self).affine_bg_data[1 - affine_index@] == old(self).affine_bg_data[1
                - affine_index@],
            *final(self) == (Engine2d { affine_bg_data: final(self).affine_bg_data, ..*old(self) }),
    {
        let index: usize = affine_index.get() as usize;
        let data = self.affine_bg_data[index];
        self.affine_bg_data[index] =
        AffineBgData {
            params: data.params,
            pos: [
                data.pos[0].wrapping_add(data.params[1] as i32),
                data.pos[1].wrapping_add(data.params[3] as i32),
            ],
        };
    }

    /// Composites affine background `bg_index` onto the current scanline and
    /// moves its reference point to the next one. `DISPLAY_AREA_OVERFLOW`
    /// says whether the map repeats outside of its area.
    pub fn render_scanline_bg_affine<const DISPLAY_AREA_OVERFLOW: bool>(
        &mut self,
        bg_index: AffineBgIndex,
        vram: &Vram,
    )
        ensures
            forall|i: int|
                0 <= i < 256 ==> #[trigger] final(self).bg_obj_scanline.0[i] == spec_write_dot(
                    old(self).bg_obj_scanline.0[i],
                    old(self).affine_dot(bg_index@, DISPLAY_AREA_OVERFLOW, vram, i),
                ),
            final(self).affine_bg_data[bg_index@ as int] == spec_next_line(
                old(self).affine_bg_data[bg_index@ as int],
            ),
            final(self).affine_bg_data[1 - bg_index@] == old(self).affine_bg_data[1 - bg_index@],
            *final(self) == (Engine2d {
                bg_obj_scanline: final(self).bg_obj_scanline,
                affine_bg_data: final(self).affine_bg_data,
                ..*old(self)
            }),
    {
        let index: u8 = bg_index.get();
        let bg_number: u8 = index + 2;
        let role = self.role;
        let control = self.control;
        let bg_control = self.bgs[bg_number as usize].control;
        let data = self.affine_bg_data[index as usize];
        let map_base: u32 = bg_map_base(role, control, bg_control);
        let tile_base: u32 = bg_tile_base(role, control, bg_control);
        let bg_mask: u8 = 1u8 << bg_number;
        let pixel_attrs: u32 = (bg_mask as u32) << 26;
        let size_key: u8 = bg_control.size_key();
        let area_mask: i32 = affine_area_mask(size_key);
        let tile_mask: u32 = affine_tile_mask(size_key);
        let row_shift: u32 = affine_row_shift(size_key);
        let mut pos_x: i32 = data.pos[0];
        let mut pos_y: i32 = data.pos[1];
        for i in 0..256usize
            invariant
                index == bg_index@,
                index < 2,
                bg_number == index + 2,
                role == self.role,
                control == self.control,
                bg_control == self.bgs[bg_number as int].control,
                data == old(self).affine_bg_data[index as int],
                map_base == spec_bg_map_base(role, control, bg_control),
                tile_base == spec_bg_tile_base(role, control, bg_control),
                bg_mask == 1u8 << bg_number,
                pixel_attrs == (bg_mask as u32) << 26,
                size_key == bg_control.size_key(),
                area_mask == spec_affine_area_mask(size_key),
                tile_mask == spec_affine_tile_mask(size_key),
                row_shift == spec_affine_row_shift(size_key),
                row_shift < 8,
                (pos_x, pos_y) == spec_affine_pos(data.pos, data.params, i as nat),
                forall|j: int|
                    0 <= j < i ==> #[trigger] self.bg_obj_scanline.0[j] == spec_write_dot(
                        old(self).bg_obj_scanline.0[j],
                        old(self).affine_dot(index, DISPLAY_AREA_OVERFLOW, vram, j),
                    ),
                forall|j: int|
                    i <= j < 256 ==> #[trigger] self.bg_obj_scanline.0[j] == old(
                        self,
                    ).bg_obj_scanline.0[j],
                *self == (Engine2d { bg_obj_scanline: self.bg_obj_scanline, ..*old(self) }),
        {
            if self.window.0[i].0 & bg_mask != 0 && (DISPLAY_AREA_OVERFLOW || (pos_x | pos_y)
                & area_mask == 0) {
                let tile_x: u32 = (#[verifier::truncate] (pos_x as u32) >> 11) & tile_mask;
                let tile_y: u32 = (#[verifier::truncate] (pos_y as u32) >> 11) & tile_mask;
                let tile: u8 = vram.read_bg_8(
                    role,
                    map_base.wrapping_add(tile_y << row_shift | tile_x),
                );
                let color_index: u8 = vram.read_bg_8(
                    role,
                    tile_base.wrapping_add(
                        (tile as u32) << 6 | (#[verifier::truncate] (pos_y as u32) >> 5 & 0x38) | (
                        #[verifier::truncate] (pos_x as u32) >> 8 & 7),
                    ),
                );
                if color_index != 0 {
                    let color: u16 = vram.read_palette_16(
                        role.palette_base() | (color_index as usize) << 1,
                    );
                    self.bg_obj_scanline.0[i] =
                    push_pixel(self.bg_obj_scanline.0[i], rgb_15_to_18(color as u32) | pixel_attrs);
                }
            }
            pos_x = pos_x.wrapping_add(data.params[0] as i32);
            pos_y = pos_y.wrapping_add(data.params[2] as i32);
        }
        self.advance_affine_line(bg_index);
    }
}

/// Under a matrix whose x column is one pixel to the right, the dots of a
/// scanline lie one pixel apart on the line of the scanline's first dot.
pub proof fn lemma_unit_step_pos(pos: [i32; 2], params: [i16; 4], x: u32, y: u32, i: nat)
    requires
        params[0] == 0x100,
        params[2] == 0,
        pos[0] == x * 256,
        pos[1] == y * 256,
        x + i < 0x80_0000,
        y < 0x80_0000,
    ensures
        spec_affine_pos(pos, params, i) == (((x + i) * 256) as i32, (y * 256) as i32),
    decreases i,
{
    if i > 0 {
        lemma_unit_step_pos(pos, params, x, y, (i - 1) as nat);
    }
}

/// The bits of a whole position are those of its tile's cell and of its
/// pixel within the tile.
proof fn lemma_affine_cell_bits(
    pos_x: u32,
    pos_y: u32,
    x: u32,
    y: u32,
    tile_mask: u32,
    row_shift: u32,
    tiles: u32,
    tile: u8,
)
    by (bit_vector)
    requires
        pos_x == x * 256,
        pos_y == y * 256,
        x < 0x100_0000,
        y < 0x100_0000,
        (tile_mask == 15 && row_shift == 4 && tiles == 16) || (tile_mask == 31 && row_shift == 5
            && tiles == 32) || (tile_mask == 63 && row_shift == 6 && tiles == 64) || (tile_mask
            == 127 && row_shift == 7 && tiles == 128),
    ensures
        (pos_x >> 11) & tile_mask == (x >> 3) % tiles,
        (pos_y >> 11) & tile_mask == (y >> 3) % tiles,
        (((pos_y >> 11) & tile_mask) << row_shift | ((pos_x >> 11) & tile_mask)) == ((y >> 3)
            % tiles) * tiles + (x >> 3) % tiles,
        ((tile as u32) << 6 | (pos_y >> 5 & 0x38) | (pos_x >> 8 & 7)) == (tile as u32) * 64 + (y
            & 7) * 8 + (x & 7),
        (tile as u16) & 1u16 << 10 == 0,
        (tile as u16) & 1u16 << 11 == 0,
        (tile as u16) as u32 & 0x3FF == tile as u32,
{
}

/// An affine background under the identity matrix picks the pixels that a
/// text background of 256 colours picks: at a whole position, of the same
/// tile data and for a tile that is not mirrored, both read the same byte.
pub proof fn lemma_identity_matches_text(
    vram: &Vram,
    role: Role,
    control: Control,
    bg_control: BgControl,
    tile: u8,
    x: u32,
    y: u32,
)
    requires
        x < 0x80_0000,
        y < 0x80_0000,
    ensures
        vram.bg_byte(
            role,
            spec_affine_pixel_addr(
                spec_bg_tile_base(role, control, bg_control),
                tile as u32,
                ((x * 256) as i32, (y * 256) as i32),
            ),
        ) == nth_byte(
            vram.bg_64(
                role,
                spec_text_row_addr_256(
                    spec_bg_tile_base(role, control, bg_control),
                    tile as u16,
                    y,
                ),
            ),
            spec_tile_column(tile as u16, x),
        ),
{
    let tile_base = spec_bg_tile_base(role, control, bg_control);
    let pos = ((x * 256) as i32, (y * 256) as i32);
    let mask = role.bg_vram_mask();
    lemma_tile_base_aligned(role, control, bg_control);
    lemma_affine_cell_bits(pos.0 as u32, pos.1 as u32, x, y, 15, 4, 16, tile);
    lemma_tile_pixel_bits(tile_base, tile as u16, x, y, mask);
    let row = spec_text_row_addr_256(tile_base, tile as u16, y);
    lemma_le_64_bytes(vram.bg_mem(role), (row & mask & !7u32) as int, x & 7);
}

/// Dot by dot, a scanline of an affine background under a matrix whose x
/// column is one pixel to the right reads the pixels that a scanline of a
/// text background of 256 colours reads that is scrolled to the reference
/// point: for the dot `i` and a tile that both show there, the same byte.
pub proof fn lemma_identity_scanline_matches_text(
    vram: &Vram,
    role: Role,
    control: Control,
    bg_control: BgControl,
    data: AffineBgData,
    tile: u8,
    x: u32,
    y: u32,
    i: nat,
)
    requires
        data.params[0] == 0x100,
        data.params[2] == 0,
        data.pos[0] == x * 256,
        data.pos[1] == y * 256,
        x + i < 0x80_0000,
        y < 0x80_0000,
    ensures
        vram.bg_byte(
            role,
            spec_affine_pixel_addr(
                spec_bg_tile_base(role, control, bg_control),
                tile as u32,
                spec_affine_pos(data.pos, data.params, i),
            ),
        ) == nth_byte(
            vram.bg_64(
                role,
                spec_text_row_addr_256(
                    spec_bg_tile_base(role, control, bg_control),
                    tile as u16,
                    y,
                ),
            ),
            spec_tile_column(tile as u16, (x + i) as u32),
        ),
{
    lemma_unit_step_pos(data.pos, data.params, x, y, i);
    lemma_identity_matches_text(vram, role, control, bg_control, tile, (x + i) as u32, y);
}

/// The number of tiles along a side of the map of an affine background.
pub open spec fn spec_affine_map_tiles(size_key: u8) -> u32 {
    (spec_affine_tile_mask(size_key) + 1) as u32
}

/// Address of the entry of the cell in column `column` and row `row` of an
/// affine map: one byte per cell, row after row.
pub open spec fn spec_affine_cell_addr(map_base: u32, size_key: u8, column: u32, row: u32) -> u32 {
    map_base.wrapping_add((row * spec_affine_map_tiles(size_key) + column) as u32)
}

/// What an affine background that repeats shows at the whole pixel (`x`,
/// `y`) of its plane: the pixel (`x mod 8`, `y mod 8`) of the tile that the
/// cell (`x / 8 mod n`, `y / 8 mod n`) names in a map of `n` by `n` cells.
pub open spec fn spec_affine_cell_pixel(
    vram: &Vram,
    role: Role,
    control: Control,
    bg_control: BgControl,
    bg_index: u8,
    x: u32,
    y: u32,
) -> Option<u32> {
    let tiles = spec_affine_map_tiles(bg_control.size_key());
    let tile = vram.bg_byte(
        role,
        spec_affine_cell_addr(
            spec_bg_map_base(role, control, bg_control),
            bg_control.size_key(),
            ((x >> 3) % tiles) as u32,
            ((y >> 3) % tiles) as u32,
        ),
    );
    spec_tile_pixel(
        vram,
        role,
        spec_bg_tile_base(role, control, bg_control),
        tile as u32,
        x & 7,
        y & 7,
        bg_index,
    )
}

/// A step of one pixel to the right, in the bits of the position.
proof fn lemma_step_bits(before: i32, after: i32, bits: u32)
    by (bit_vector)
    requires
        before as u32 == bits,
        bits <= 0xFFFF_FE00,
        after == before + 256 || after == before + 256 - 0x1_0000_0000,
    ensures
        after as u32 == bits + 256,
{
}

/// Under a matrix whose x column is one pixel to the right, dot `i` of a
/// scanline that starts at the whole pixel (`x`, `y`) lies at the whole pixel
/// (`x + i`, `y`), also where the position leaves the range of its signed
/// number on the way.
pub proof fn lemma_unit_step_pos_bits(pos: [i32; 2], params: [i16; 4], x: u32, y: u32, i: nat)
    requires
        params[0] == 0x100,
        params[2] == 0,
        pos[0] == x * 256,
        pos[1] == y * 256,
        x < 0x80_0000,
        y < 0x80_0000,
        i <= 256,
    ensures
        spec_affine_pos(pos, params, i).0 as u32 == (x + i) * 256,
        spec_affine_pos(pos, params, i).1 as u32 == y * 256,
        spec_affine_pos(pos, params, i).1 == pos[1],
    decreases i,
{
    if i > 0 {
        lemma_unit_step_pos_bits(pos, params, x, y, (i - 1) as nat);
        let before = spec_affine_pos(pos, params, (i - 1) as nat);
        let after = spec_affine_pos(pos, params, i);
        lemma_step_bits(before.0, after.0, ((x + i - 1) * 256) as u32);
    }
}

/// An affine background that repeats shows at a whole position the pixel of
/// the cell of its map that the position lies in.
pub proof fn lemma_affine_selects_cell(
    vram: &Vram,
    role: Role,
    control: Control,
    bg_control: BgControl,
    bg_index: u8,
    pos: (i32, i32),
    x: u32,
    y: u32,
)
    requires
        pos.0 as u32 == x * 256,
        pos.1 as u32 == y * 256,
        x < 0x100_0000,
        y < 0x100_0000,
    ensures
        spec_affine_pixel(vram, role, control, bg_control, bg_index, true, pos)
            == spec_affine_cell_pixel(vram, role, control, bg_control, bg_index, x, y),
{
    let size_key = bg_control.size_key();
    let map_base = spec_bg_map_base(role, control, bg_control);
    let tile = vram.bg_byte(role, spec_affine_entry_addr(map_base, size_key, pos));
    lemma_affine_cell_bits(
        pos.0 as u32,
        pos.1 as u32,
        x,
        y,
        spec_affine_tile_mask(size_key),
        spec_affine_row_shift(size_key),
        spec_affine_map_tiles(size_key),
        tile,
    );
}

impl Engine2d {
    /// Under the identity matrix, with the reference point at the whole
    /// pixel (`x`, `y`), an affine background that repeats writes to dot `i`
    /// what the cell (`(x + i) / 8 mod n`, `y / 8 mod n`) of its map of `n`
    /// by `n` cells shows at the pixel (`(x + i) mod 8`, `y mod 8`) of its
    /// tile: the dot is written if and only if that pixel's colour index is
    /// not 0, wherever the window shows the background.
    pub proof fn lemma_identity_dot_selects_cell(
        &self,
        affine_index: u8,
        vram: &Vram,
        x: u32,
        y: u32,
        i: int,
    )
        requires
            affine_index < 2,
            0 <= i < 256,
            self.affine_bg_data[affine_index as int].params[0] == 0x100,
            self.affine_bg_data[affine_index as int].params[2] == 0,
            self.affine_bg_data[affine_index as int].pos[0] == x * 256,
            self.affine_bg_data[affine_index as int].pos[1] == y * 256,
            x < 0x80_0000,
            y < 0x80_0000,
            self.window.0[i].0 & (1u8 << ((affine_index + 2) as u8)) != 0,
        ensures
            self.affine_dot(affine_index, true, vram, i) == spec_affine_cell_pixel(
                vram,
                self.role,
                self.control,
                self.bgs[affine_index + 2].control,
                (affine_index + 2) as u8,
                (x + i) as u32,
                y,
            ),
    {
        let data = self.affine_bg_data[affine_index as int];
        lemma_unit_step_pos_bits(data.pos, data.params, x, y, i as nat);
        lemma_affine_selects_cell(
            vram,
            self.role,
            self.control,
            self.bgs[affine_index + 2].control,
            (affine_index + 2) as u8,
            spec_affine_pos(data.pos, data.params, i as nat),
            (x + i) as u32,
            y,
        );
    }
}

/// An affine background that repeats and a text background of 256 colours
/// and 32 by 32 cells show the same at a whole pixel of their planes if their
/// cells for that pixel name the same tile of the same tile data, the cell of
/// the text background does not mirror the tile, and the extended palettes
/// are off: the same cell coordinates modulo the sizes of the maps, the same
/// pixel of the tile, the same colour.
pub proof fn lemma_affine_cell_matches_text_cell(
    vram: &Vram,
    role: Role,
    control: Control,
    text_control: BgControl,
    affine_control: BgControl,
    bg_index: u8,
    x: u32,
    y: u32,
)
    requires
        text_control.size_key() == 0,
        text_control.use_256_colors(),
        !control.bg_ext_pal_enabled(),
        spec_bg_tile_base(role, control, text_control) == spec_bg_tile_base(
            role,
            control,
            affine_control,
        ),
        vram.bg_16(
            role,
            spec_text_cell_addr(
                spec_bg_map_base(role, control, text_control),
                ((x >> 3) % 32) as u32,
                ((y >> 3) % 32) as u32,
            ),
        ) == vram.bg_byte(
            role,
            spec_affine_cell_addr(
                spec_bg_map_base(role, control, affine_control),
                affine_control.size_key(),
                ((x >> 3) % spec_affine_map_tiles(affine_control.size_key())) as u32,
                ((y >> 3) % spec_affine_map_tiles(affine_control.size_key())) as u32,
            ),
        ) as u16,
    ensures
        spec_text_pixel(vram, role, control, text_control, bg_index, x, y)
            == spec_affine_cell_pixel(vram, role, control, affine_control, bg_index, x, y),
{
    let tile = vram.bg_byte(
        role,
        spec_affine_cell_addr(
            spec_bg_map_base(role, control, affine_control),
            affine_control.size_key(),
            ((x >> 3) % spec_affine_map_tiles(affine_control.size_key())) as u32,
            ((y >> 3) % spec_affine_map_tiles(affine_control.size_key())) as u32,
        ),
    );
    lemma_affine_cell_bits(0, 0, 0, 0, 15, 4, 16, tile);
    lemma_text_selects_cell(vram, role, control, text_control, bg_index, x, y);
}

} // verus!
