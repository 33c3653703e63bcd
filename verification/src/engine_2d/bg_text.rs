//! The renderer of text backgrounds: maps of 8 by 8 tiles of 16 or 256
//! colours, scrolled horizontally and vertically.

use crate::color::{rgb_15_to_18, spec_rgb_15_to_18};
use crate::engine_2d::{BgIndex, Engine2d};
use crate::pixel::{push_pixel, spec_push_pixel};
use crate::regs::{BgControl, Control};
use crate::bytes::{nth_byte, nth_nibble};
use crate::vram::{Role, Vram};
use vstd::prelude::*;

verus! {

/// Offset of a background's tile data in background memory.
pub open spec fn spec_bg_tile_base(role: Role, control: Control, bg_control: BgControl) -> u32 {
    if role.is_a() {
        control.a_tile_base().wrapping_add(bg_control.tile_base())
    } else {
        bg_control.tile_base()
    }
}

/// Offset of a background's map in background memory.
pub open spec fn spec_bg_map_base(role: Role, control: Control, bg_control: BgControl) -> u32 {
    if role.is_a() {
        control.a_map_base() | bg_control.map_base()
    } else {
        bg_control.map_base()
    }
}

/// Offset of a background's tile data in background memory.
pub fn bg_tile_base(role: Role, control: Control, bg_control: BgControl) -> (r: u32)
    ensures
        r == spec_bg_tile_base(role, control, bg_control),
{
    if role.is_a() {
        control.a_tile_base().wrapping_add(bg_control.tile_base())
    } else {
        bg_control.tile_base()
    }
}

/// Offset of a background's map in background memory.
pub fn bg_map_base(role: Role, control: Control, bg_control: BgControl) -> (r: u32)
    ensures
        r == spec_bg_map_base(role, control, bg_control),
{
    if role.is_a() {
        control.a_map_base() | bg_control.map_base()
    } else {
        bg_control.map_base()
    }
}

/// Address of the map row of a text background that holds line `y`. A map is
/// made of one, two or four blocks of 32 by 32 entries of two bytes: the
/// blocks of a map two blocks high follow each other, and in a map two
/// blocks wide and high the lower pair follows the upper.
pub open spec fn spec_text_map_row(
    role: Role,
    control: Control,
    bg_control: BgControl,
    y: u32,
) -> u32 {
    let base = spec_bg_map_base(role, control, bg_control);
    let size_key = bg_control.size_key();
    if size_key == 0 || size_key == 1 {
        base | (y & 0xF8) << 3
    } else {
        let row = if size_key == 2 {
            base.wrapping_add((y & 0x1F8) << 3)
        } else {
            (base | (y & 0xF8) << 3).wrapping_add((y & 0x100) << 4)
        };
        if role.is_a() {
            row & role.bg_vram_mask()
        } else {
            row
        }
    }
}

/// Offset in a map row, as it lies in its one or two blocks, of the entry
/// that holds column `x`.
pub open spec fn spec_text_entry_offset(bg_control: BgControl, x: u32) -> u32 {
    (x >> 2) & (if bg_control.size_key() & 1 == 0 {
        62u32
    } else {
        126u32
    })
}

/// The map entry at offset `offset` of the row at `row`: in the row's own
/// block for the first 32 entries, in the block 2 KiB above for the others.
pub open spec fn spec_text_entry(vram: &Vram, role: Role, row: u32, offset: u32) -> u16 {
    if offset < 64 {
        vram.bg_16(role, row.wrapping_add(offset))
    } else {
        vram.bg_16(
            role,
            (row.wrapping_add(0x800) & role.bg_vram_mask()).wrapping_add((offset - 64) as u32),
        )
    }
}

/// The row of a tile that holds line `y`, counted from the tile's top as it
/// lies in memory: bit 11 of the entry mirrors the tile vertically.
pub open spec fn spec_tile_row(entry: u16, y: u32) -> u32 {
    if entry & 1u16 << 11 == 0 {
        y & 7
    } else {
        7 ^ (y & 7)
    }
}

/// The column of a tile that holds column `x`, counted from the tile's left
/// as it lies in memory: bit 10 of the entry mirrors the tile horizontally.
pub open spec fn spec_tile_column(entry: u16, x: u32) -> u32 {
    if entry & 1u16 << 10 == 0 {
        x & 7
    } else {
        7 ^ (x & 7)
    }
}

/// Address of the eight pixels of a 256-colour tile that line `y` shows.
pub open spec fn spec_text_row_addr_256(tile_base: u32, entry: u16, y: u32) -> u32 {
    tile_base.wrapping_add((entry as u32 & 0x3FF) << 6 | spec_tile_row(entry, y) << 3)
}

/// Address of the eight pixels of a 16-colour tile that line `y` shows.
pub open spec fn spec_text_row_addr_16(tile_base: u32, entry: u16, y: u32) -> u32 {
    tile_base.wrapping_add((entry as u32 & 0x3FF) << 5 | spec_tile_row(entry, y) << 2)
}

/// The slot of extended palettes that a text background uses.
pub open spec fn spec_text_ext_pal_slot(bg_index: u8, bg_control: BgControl) -> u8 {
    bg_index | (if bg_index < 2 {
        bg_control.bg01_ext_pal_slot() << 1
    } else {
        0u8
    })
}

/// The 15-bit colour of a 256-colour tile's pixel of colour index
/// `color_index`: from the palette that the entry selects in the
/// background's slot where extended palettes are enabled, from the
/// engine's background palette otherwise.
pub open spec fn spec_tile_color_256(
    vram: &Vram,
    role: Role,
    ext_pal: bool,
    slot: u8,
    entry: u16,
    color_index: u8,
) -> u16 {
    if ext_pal {
        vram.bg_ext_pal_16(role, slot, (((entry >> 12) as usize) << 8) | color_index as usize)
    } else {
        vram.palette_16(role.palette_base() | (color_index as usize) << 1)
    }
}

/// The 15-bit colour of a 16-colour tile's pixel: colour `color_index` of
/// the palette that the entry selects among the sixteen of the engine's
/// background palette.
pub open spec fn spec_tile_color_16(vram: &Vram, role: Role, entry: u16, color_index: u8) -> u16 {
    vram.palette_16(
        role.palette_base() | ((entry >> 12) as usize) << 5 | (color_index as usize) << 1,
    )
}

/// The composited pixel of a colour that background `bg_index` shows.
pub open spec fn spec_bg_pixel(color: u16, bg_index: u8) -> u32 {
    spec_rgb_15_to_18(color as u32) | ((1u8 << bg_index) as u32) << 26
}

/// What a text background shows at column `x` of line `y` of its map: a
/// composited pixel, or nothing where the tile's pixel has colour index 0.
pub open spec fn spec_text_pixel(
    vram: &Vram,
    role: Role,
    control: Control,
    bg_control: BgControl,
    bg_index: u8,
    x: u32,
    y: u32,
) -> Option<u32> {
    let row = spec_text_map_row(role, control, bg_control, y);
    let entry = spec_text_entry(vram, role, row, spec_text_entry_offset(bg_control, x));
    let tile_base = spec_bg_tile_base(role, control, bg_control);
    let column = spec_tile_column(entry, x);
    if bg_control.use_256_colors() {
        let color_index = nth_byte(
            vram.bg_64(role, spec_text_row_addr_256(tile_base, entry, y)),
            column,
        );
        if color_index == 0 {
            None
        } else {
            Some(
                spec_bg_pixel(
                    spec_tile_color_256(
                        vram,
                        role,
                        control.bg_ext_pal_enabled(),
                        spec_text_ext_pal_slot(bg_index, bg_control),
                        entry,
                        color_index,
                    ),
                    bg_index,
                ),
            )
        }
    } else {
        let color_index = nth_nibble(
            vram.bg_32(role, spec_text_row_addr_16(tile_base, entry, y)),
            column,
        );
        if color_index == 0 {
            None
        } else {
            Some(spec_bg_pixel(spec_tile_color_16(vram, role, entry, color_index), bg_index))
        }
    }
}

/// A pair after a layer had its turn at the dot: written over where the layer
/// shows a pixel there, untouched where it shows none.
pub open spec fn spec_write_dot(pair: u64, pixel: Option<u32>) -> u64 {
    match pixel {
        Some(p) => spec_push_pixel(pair, p),
        None => pair,
    }
}

/// Columns of one tile share their map entry.
proof fn lemma_same_tile(x: u32)
    by (bit_vector)
    requires
        x < 0x8000_0000,
    ensures
        ((x + 1) as u32) & 7 != 0 ==> ((x + 1) as u32 >> 2) & 62 == (x >> 2) & 62 && ((x
            + 1) as u32 >> 2) & 126 == (x >> 2) & 126,
{
}

/// The shift that brings a pixel of a tile row to the lowest bits.
proof fn lemma_pixel_shift(column: u32, x: u32)
    by (bit_vector)
    requires
        column == x & 7 || column == 7 ^ (x & 7),
    ensures
        column < 8,
        column << 3 == 8 * column,
        column << 2 == 4 * column,
        column << 3 < 64,
        column << 2 < 32,
{
}

impl Engine2d {
    /// What text background `bg_index` writes to dot `i` of scanline `line`:
    /// the pixel of its map at the dot's place plus the scroll offsets, where
    /// there is one and the window shows the background.
    pub open spec fn text_dot(&self, bg_index: u8, line: u16, vram: &Vram, i: int) -> Option<u32> {
        let bg = self.bgs[bg_index as int];
        if self.window.0[i].0 & (1u8 << bg_index) != 0 {
            spec_text_pixel(
                vram,
                self.role,
                self.control,
                bg.control,
                bg_index,
                (bg.scroll[0] + i) as u32,
                (bg.scroll[1] + line) as u32,
            )
        } else {
            None
        }
    }

    /// Reads the map entry of a text background for column `x` of the map
    /// row at `row`.
    fn read_text_entry(vram: &Vram, role: Role, bg_control: BgControl, row: u32, x: u32) -> (r: u16)
        ensures
            r == spec_text_entry(vram, role, row, spec_text_entry_offset(bg_control, x)),
    {
        let offset: u32 = (x >> 2) & (if bg_control.size_key() & 1 == 0 {
            62u32
        } else {
            126u32
        });
        if offset < 64 {
            vram.read_bg_16(role, row.wrapping_add(offset))
        } else {
            vram.read_bg_16(
                role,
                (row.wrapping_add(0x800) & role.bg_vram_mask()).wrapping_add(offset - 64),
            )
        }
    }

    /// Composites text background `bg_index` onto scanline `line`: every dot
    /// at which the background shows a pixel gets that pixel on top, and what
    /// was on top before right below it.
    pub fn render_scanline_bg_text(&mut self, bg_index: BgIndex, line: u16, vram: &Vram)
        ensures
            forall|i: int|
                0 <= i < 256 ==> #[trigger] final(self).bg_obj_scanline.0[i] == spec_write_dot(
                    old(self).bg_obj_scanline.0[i],
                    old(self).text_dot(bg_index@, line, vram, i),
                ),
            *final(self) == (Engine2d {
                bg_obj_scanline: final(self).bg_obj_scanline,
                ..*old(self)
            }),
    {
        let index: u8 = bg_index.get();
        let role = self.role;
        let control = self.control;
        let bg = self.bgs[index as usize];
        let y: u32 = bg.scroll[1] as u32 + line as u32;
        let tile_base: u32 = bg_tile_base(role, control, bg.control);
        let map_base: u32 = bg_map_base(role, control, bg.control);
        let size_key: u8 = bg.control.size_key();
        let row: u32 = if size_key == 0 || size_key == 1 {
            map_base | (y & 0xF8) << 3
        } else {
            let row: u32 = if size_key == 2 {
                map_base.wrapping_add((y & 0x1F8) << 3)
            } else {
                (map_base | (y & 0xF8) << 3).wrapping_add((y & 0x100) << 4)
            };
            if role.is_a() {
                row & role.bg_vram_mask()
            } else {
                row
            }
        };
        let x_start: u32 = bg.scroll[0] as u32;
        let bg_mask: u8 = 1u8 << index;
        let pixel_attrs: u32 = (bg_mask as u32) << 26;
        if bg.control.use_256_colors() {
            let ext_pal: bool = control.bg_ext_pal_enabled();
            let slot: u8 = index | (if index < 2 {
                bg.control.bg01_ext_pal_slot() << 1
            } else {
                0u8
            });
            let mut entry: u16 = 0;
            let mut pixels: u64 = 0;
            let mut x: u32 = x_start;
            if x & 7 != 0 {
                entry = Self::read_text_entry(vram, role, bg.control, row, x);
                let y_in_tile: u32 = if entry & 1u16 << 11 == 0 {
                    y & 7
                } else {
                    7 ^ (y & 7)
                };
                pixels =
                vram.read_bg_64(
                    role,
                    tile_base.wrapping_add((entry as u32 & 0x3FF) << 6 | y_in_tile << 3),
                );
            }
            for i in 0..256usize
                invariant
                    x == x_start + i,
                    x_start == bg.scroll[0],
                    y == bg.scroll[1] + line,
                    bg == old(self).bgs[index as int],
                    index == bg_index@,
                    index < 4,
                    role == self.role,
                    control == self.control,
                    bg.control.use_256_colors(),
                    ext_pal == control.bg_ext_pal_enabled(),
                    slot == spec_text_ext_pal_slot(index, bg.control),
                    bg_mask == 1u8 << index,
                    pixel_attrs == (bg_mask as u32) << 26,
                    tile_base == spec_bg_tile_base(role, control, bg.control),
                    row == spec_text_map_row(role, control, bg.control, y),
                    x & 7 != 0 ==> entry == spec_text_entry(
                        vram,
                        role,
                        row,
                        spec_text_entry_offset(bg.control, x),
                    ) && pixels == vram.bg_64(role, spec_text_row_addr_256(tile_base, entry, y)),
                    forall|j: int|
                        0 <= j < i ==> #[trigger] self.bg_obj_scanline.0[j] == spec_write_dot(
                            old(self).bg_obj_scanline.0[j],
                            old(self).text_dot(index, line, vram, j),
                        ),
                    forall|j: int|
                        i <= j < 256 ==> #[trigger] self.bg_obj_scanline.0[j] == old(
                            self,
                        ).bg_obj_scanline.0[j],
                    *self == (Engine2d { bg_obj_scanline: self.bg_obj_scanline, ..*old(self) }),
            {
                if x & 7 == 0 {
                    entry = Self::read_text_entry(vram, role, bg.control, row, x);
                    let y_in_tile: u32 = if entry & 1u16 << 11 == 0 {
                        y & 7
                    } else {
                        7 ^ (y & 7)
                    };
                    pixels =
                    vram.read_bg_64(
                        role,
                        tile_base.wrapping_add((entry as u32 & 0x3FF) << 6 | y_in_tile << 3),
                    );
                }
                let column: u32 = if entry & 1u16 << 10 == 0 {
                    x & 7
                } else {
                    7 ^ (x & 7)
                };
                proof {
                    lemma_pixel_shift(column, x);
                }
                let color_index: u8 = #[verifier::truncate]
                ((pixels >> (column << 3)) as u8);
                if color_index != 0 && self.window.0[i].0 & bg_mask != 0 {
                    let color: u16 = if ext_pal {
                        vram.read_bg_ext_pal_16(
                            role,
                            slot,
                            (((entry >> 12) as usize) << 8) | color_index as usize,
                        )
                    } else {
                        vram.read_palette_16(role.palette_base() | (color_index as usize) << 1)
                    };
                    self.bg_obj_scanline.0[i] =
                    push_pixel(self.bg_obj_scanline.0[i], rgb_15_to_18(color as u32) | pixel_attrs);
                }
                proof {
                    lemma_same_tile(x);
                }
                x += 1;
            }
        } else {
            let mut entry: u16 = 0;
            let mut pixels: u32 = 0;
            let mut x: u32 = x_start;
            if x & 7 != 0 {
                entry = Self::read_text_entry(vram, role, bg.control, row, x);
                let y_in_tile: u32 = if entry & 1u16 << 11 == 0 {
                    y & 7
                } else {
                    7 ^ (y & 7)
                };
                pixels =
                vram.read_bg_32(
                    role,
                    tile_base.wrapping_add((entry as u32 & 0x3FF) << 5 | y_in_tile << 2),
                );
            }
            for i in 0..256usize
                invariant
                    x == x_start + i,
                    x_start == bg.scroll[0],
                    y == bg.scroll[1] + line,
                    bg == old(self).bgs[index as int],
                    index == bg_index@,
                    index < 4,
                    role == self.role,
                    control == self.control,
                    !bg.control.use_256_colors(),
                    bg_mask == 1u8 << index,
                    pixel_attrs == (bg_mask as u32) << 26,
                    tile_base == spec_bg_tile_base(role, control, bg.control),
                    row == spec_text_map_row(role, control, bg.control, y),
                    x & 7 != 0 ==> entry == spec_text_entry(
                        vram,
                        role,
                        row,
                        spec_text_entry_offset(bg.control, x),
                    ) && pixels == vram.bg_32(role, spec_text_row_addr_16(tile_base, entry, y)),
                    forall|j: int|
                        0 <= j < i ==> #[trigger] self.bg_obj_scanline.0[j] == spec_write_dot(
                            old(self).bg_obj_scanline.0[j],
                            old(self).text_dot(index, line, vram, j),
                        ),
                    forall|j: int|
                        i <= j < 256 ==> #[trigger] self.bg_obj_scanline.0[j] == old(
                            self,
                        ).bg_obj_scanline.0[j],
                    *self == (Engine2d { bg_obj_scanline: self.bg_obj_scanline, ..*old(self) }),
            {
                if x & 7 == 0 {
                    entry = Self::read_text_entry(vram, role, bg.control, row, x);
                    let y_in_tile: u32 = if entry & 1u16 << 11 == 0 {
                        y & 7
                    } else {
                        7 ^ (y & 7)
                    };
                    pixels =
                    vram.read_bg_32(
                        role,
                        tile_base.wrapping_add((entry as u32 & 0x3FF) << 5 | y_in_tile << 2),
                    );
                }
                let column: u32 = if entry & 1u16 << 10 == 0 {
                    x & 7
                } else {
                    7 ^ (x & 7)
                };
                proof {
                    lemma_pixel_shift(column, x);
                }
                let color_index: u8 = #[verifier::truncate]
                (((pixels >> (column << 2)) & 0xF) as u8);
                if color_index != 0 && self.window.0[i].0 & bg_mask != 0 {
                    let color: u16 = vram.read_palette_16(
                        role.palette_base() | ((entry >> 12) as usize) << 5 | (
                        color_index as usize) << 1,
                    );
                    self.bg_obj_scanline.0[i] =
                    push_pixel(self.bg_obj_scanline.0[i], rgb_15_to_18(color as u32) | pixel_attrs);
                }
                proof {
                    lemma_same_tile(x);
                }
                x += 1;
            }
        }
    }
}

/// The width of the map of a text background in pixels.
pub open spec fn spec_text_map_width(bg_control: BgControl) -> u32 {
    if bg_control.size_key() & 1 == 0 {
        256
    } else {
        512
    }
}

/// Columns that lie a map's width apart share their map entry and their
/// place in the tile.
proof fn lemma_map_wraps(x: u32)
    by (bit_vector)
    ensures
        x <= 0xFFFF_FEFF ==> ((x + 256) as u32 >> 2) & 62 == (x >> 2) & 62 && ((x + 256) as u32) & 7
            == x & 7,
        x <= 0xFFFF_FDFF ==> ((x + 512) as u32 >> 2) & 126 == (x >> 2) & 126 && ((x
            + 512) as u32) & 7 == x & 7,
{
}

/// A text background repeats horizontally with the width of its map.
pub proof fn lemma_text_pixel_periodic(
    vram: &Vram,
    role: Role,
    control: Control,
    bg_control: BgControl,
    bg_index: u8,
    x: u32,
    y: u32,
)
    requires
        x + spec_text_map_width(bg_control) <= u32::MAX,
    ensures
        spec_text_pixel(
            vram,
            role,
            control,
            bg_control,
            bg_index,
            (x + spec_text_map_width(bg_control)) as u32,
            y,
        ) == spec_text_pixel(vram, role, control, bg_control, bg_index, x, y),
{
    lemma_map_wraps(x);
}

impl Engine2d {
    /// Scrolling a text background horizontally by the width of its map
    /// changes nothing: two engines that differ in that alone write the same
    /// to every dot.
    pub proof fn lemma_text_scroll_periodic(
        &self,
        other: Engine2d,
        bg_index: u8,
        line: u16,
        vram: &Vram,
        i: int,
    )
        requires
            bg_index < 4,
            0 <= i < 256,
            other.role == self.role,
            other.control == self.control,
            other.window == self.window,
            other.bgs[bg_index as int].control == self.bgs[bg_index as int].control,
            other.bgs[bg_index as int].scroll[1] == self.bgs[bg_index as int].scroll[1],
            other.bgs[bg_index as int].scroll[0] == self.bgs[bg_index as int].scroll[0]
                + spec_text_map_width(self.bgs[bg_index as int].control),
        ensures
            other.text_dot(bg_index, line, vram, i) == self.text_dot(bg_index, line, vram, i),
    {
        let bg = self.bgs[bg_index as int];
        lemma_text_pixel_periodic(
            vram,
            self.role,
            self.control,
            bg.control,
            bg_index,
            (bg.scroll[0] + i) as u32,
            (bg.scroll[1] + line) as u32,
        );
    }
}

/// Address of the entry of the cell in column `column` and row `row` of a
/// text map of 32 by 32 cells: two bytes per cell, row after row.
pub open spec fn spec_text_cell_addr(map_base: u32, column: u32, row: u32) -> u32 {
    map_base.wrapping_add(((row * 32 + column) * 2) as u32)
}

/// Address of the pixel in column `px` and row `py` of the 256-colour tile
/// of number `tile`: 64 bytes per tile, eight per row.
pub open spec fn spec_tile_pixel_addr(tile_base: u32, tile: u32, px: u32, py: u32) -> u32 {
    tile_base.wrapping_add((tile * 64 + py * 8 + px) as u32)
}

/// What a map of tiles of 256 colours shows where its cell names the tile
/// `tile` and the pixel (`px`, `py`) of the tile is meant: the colour that
/// the engine's background palette holds for the pixel's colour index, or
/// nothing for a colour index of 0.
pub open spec fn spec_tile_pixel(
    vram: &Vram,
    role: Role,
    tile_base: u32,
    tile: u32,
    px: u32,
    py: u32,
    bg_index: u8,
) -> Option<u32> {
    let color_index = vram.bg_byte(role, spec_tile_pixel_addr(tile_base, tile, px, py));
    if color_index == 0 {
        None
    } else {
        Some(
            spec_bg_pixel(
                vram.palette_16(role.palette_base() | (color_index as usize) << 1),
                bg_index,
            ),
        )
    }
}

/// The map of a background starts at a multiple of 2 KiB.
pub proof fn lemma_map_base_aligned(role: Role, control: Control, bg_control: BgControl)
    ensures
        spec_bg_map_base(role, control, bg_control) & 0x7FF == 0,
        spec_bg_map_base(role, control, bg_control) <= 0x7_F800,
{
    let word = control.0;
    let bg_word = bg_control.0;
    assert(((word >> 11 & 0x7_0000) | ((bg_word as u32 >> 8 & 0x1F) << 11)) & 0x7FF == 0 && ((word
        >> 11 & 0x7_0000) | ((bg_word as u32 >> 8 & 0x1F) << 11)) <= 0x7_F800 && ((bg_word as u32
        >> 8 & 0x1F) << 11) & 0x7FF == 0 && ((bg_word as u32 >> 8 & 0x1F) << 11) <= 0x7_F800)
        by (bit_vector);
}

/// The tile data of a background start at a multiple of 16 KiB.
pub proof fn lemma_tile_base_aligned(role: Role, control: Control, bg_control: BgControl)
    ensures
        spec_bg_tile_base(role, control, bg_control) & 7 == 0,
        spec_bg_tile_base(role, control, bg_control) <= 0xA_C000,
{
    let word = control.0;
    let bg_word = bg_control.0;
    assert((word >> 8 & 0x7_0000) + ((bg_word as u32 >> 2 & 0xF) << 14) <= 0xA_C000 && ((word >> 8
        & 0x7_0000) + ((bg_word as u32 >> 2 & 0xF) << 14)) as u32 & 7 == 0 && ((bg_word as u32
        >> 2 & 0xF) << 14) & 7 == 0 && (bg_word as u32 >> 2 & 0xF) << 14 <= 0x3_C000)
        by (bit_vector);
}

/// The entry of a text map of 32 by 32 cells for a pixel of the plane lies
/// at the cell of the pixel's tile.
proof fn lemma_text_cell_bits(map_base: u32, x: u32, y: u32)
    by (bit_vector)
    requires
        map_base & 0x7FF == 0,
        map_base <= 0x7_F800,
    ensures
        (x >> 2) & 62 < 64,
        (map_base | (y & 0xF8) << 3) + ((x >> 2) & 62) == map_base + (((y >> 3) % 32) * 32 + (x
            >> 3) % 32) * 2,
        map_base + (((y >> 3) % 32) * 32 + (x >> 3) % 32) * 2 <= 0x7_FFFF,
{
}

/// The pixel of a tile that is not mirrored lies in the tile's row of that
/// line, at the place of that column.
pub(crate) proof fn lemma_tile_pixel_bits(tile_base: u32, entry: u16, x: u32, y: u32, mask: u32)
    by (bit_vector)
    requires
        tile_base & 7 == 0,
        tile_base <= 0xA_C000,
        entry & 1u16 << 10 == 0,
        entry & 1u16 << 11 == 0,
        mask == 0x7_FFFF || mask == 0x1_FFFF,
    ensures
        x & 7 < 8,
        y & 7 < 8,
        entry as u32 & 0x3FF <= 0x3FF,
        ((entry as u32 & 0x3FF) << 6 | (y & 7) << 3) <= 0xFFFF,
        ((tile_base + ((entry as u32 & 0x3FF) * 64 + (y & 7) * 8 + (x & 7))) as u32) & mask == (((
        tile_base + ((entry as u32 & 0x3FF) << 6 | (y & 7) << 3)) as u32) & mask & !7u32) + (x
            & 7),
{
}

/// A text background of 256 colours and 32 by 32 cells shows at the pixel
/// (`x`, `y`) of its plane the pixel (`x mod 8`, `y mod 8`) of the tile that
/// the cell (`x / 8 mod 32`, `y / 8 mod 32`) of its map names, where that
/// cell does not mirror its tile and the extended palettes are off.
pub proof fn lemma_text_selects_cell(
    vram: &Vram,
    role: Role,
    control: Control,
    bg_control: BgControl,
    bg_index: u8,
    x: u32,
    y: u32,
)
    requires
        bg_control.size_key() == 0,
        bg_control.use_256_colors(),
        !control.bg_ext_pal_enabled(),
        vram.bg_16(
            role,
            spec_text_cell_addr(
                spec_bg_map_base(role, control, bg_control),
                ((x >> 3) % 32) as u32,
                ((y >> 3) % 32) as u32,
            ),
        ) & 1u16 << 10 == 0,
        vram.bg_16(
            role,
            spec_text_cell_addr(
                spec_bg_map_base(role, control, bg_control),
                ((x >> 3) % 32) as u32,
                ((y >> 3) % 32) as u32,
            ),
        ) & 1u16 << 11 == 0,
    ensures
        spec_text_pixel(vram, role, control, bg_control, bg_index, x, y) == spec_tile_pixel(
            vram,
            role,
            spec_bg_tile_base(role, control, bg_control),
            vram.bg_16(
                role,
                spec_text_cell_addr(
                    spec_bg_map_base(role, control, bg_control),
                    ((x >> 3) % 32) as u32,
                    ((y >> 3) % 32) as u32,
                ),
            ) as u32 & 0x3FF,
            x & 7,
            y & 7,
            bg_index,
        ),
{
    let map_base = spec_bg_map_base(role, control, bg_control);
    let tile_base = spec_bg_tile_base(role, control, bg_control);
    let mask = role.bg_vram_mask();
    lemma_map_base_aligned(role, control, bg_control);
    lemma_tile_base_aligned(role, control, bg_control);
    lemma_text_cell_bits(map_base, x, y);
    let size_key = bg_control.size_key();
    assert(size_key & 1 == 0) by (bit_vector)
        requires
            size_key == 0,
    ;
    let entry = vram.bg_16(
        role,
        spec_text_cell_addr(map_base, ((x >> 3) % 32) as u32, ((y >> 3) % 32) as u32),
    );
    lemma_tile_pixel_bits(tile_base, entry, x, y, mask);
    let row = spec_text_row_addr_256(tile_base, entry, y);
    crate::bytes::lemma_le_64_bytes(vram.bg_mem(role), (row & mask & !7u32) as int, x & 7);
}

} // verus!
