//! The sprite engine: from object attribute memory to one scanline of sprite
//! pixels and the sprite window.
//!
//! Sprites are drawn priority by priority, from 3 to 0, and within a priority
//! from sprite 127 to sprite 0, each over what was drawn before: of the sprites
//! that cover a dot, the one of the lowest priority shows, and among those of
//! that priority the one of the lowest number.

use crate::engine_2d::window::obj_window_bit;
use crate::engine_2d::Engine2d;
use crate::oam::{OamAttr0, OamAttr1, OamAttr2};
use crate::pixel::{ObjPixel, NO_OBJ_PRIORITY};
use crate::regs::Control;
use crate::bytes::{nth_byte, nth_nibble};
use crate::vram::{Role, Vram};
use vstd::prelude::*;

verus! {

/// Eight pixels times two to the `shift`, for the shifts that occur.
pub open spec fn spec_size_px(shift: u8) -> u32 {
    if shift == 0 {
        8
    } else if shift == 1 {
        16
    } else if shift == 2 {
        32
    } else {
        64
    }
}

/// Width and height of a sprite, as binary logarithms on top of 8 pixels, by
/// its size class and shape (square, wide, tall; the fourth shape is 8 by 8
/// whatever the size class).
pub open spec fn spec_obj_size_shift(attr_0: OamAttr0, attr_1: OamAttr1) -> (u8, u8) {
    let size = attr_1.size();
    let shape = attr_0.shape();
    if shape == 0 {
        if size == 0 {
            (0, 0)
        } else if size == 1 {
            (1, 1)
        } else if size == 2 {
            (2, 2)
        } else {
            (3, 3)
        }
    } else if shape == 1 {
        if size == 0 {
            (1, 0)
        } else if size == 1 {
            (2, 0)
        } else if size == 2 {
            (2, 1)
        } else {
            (3, 2)
        }
    } else if shape == 2 {
        if size == 0 {
            (0, 1)
        } else if size == 1 {
            (0, 2)
        } else if size == 2 {
            (1, 2)
        } else {
            (2, 3)
        }
    } else {
        (0, 0)
    }
}

/// The distance between the tiles of consecutive numbers under 1D mapping,
/// as a binary logarithm.
pub open spec fn spec_obj_boundary_shift(boundary: u8) -> u32 {
    if boundary == 0 {
        5
    } else if boundary == 1 {
        6
    } else if boundary == 2 {
        7
    } else {
        8
    }
}

/// The row of a sprite that a scanline shows.
pub struct SpriteRow {
    pub attr_0: OamAttr0,
    pub attr_2: OamAttr2,
    /// The dot of the sprite's first column.
    pub x_start: i32,
    /// The row, counted from the sprite's top as it lies in memory.
    pub y_in_obj: u32,
    /// The sprite's width, as a binary logarithm on top of 8 pixels.
    pub width_shift: u8,
    /// Whether the sprite is mirrored horizontally.
    pub x_flip: bool,
    /// Whether the sprite is drawn into the sprite window.
    pub window: bool,
}

/// Address of the first tile row of a sprite row. Under 1D mapping the tiles
/// of a sprite follow each other row by row; under 2D mapping the rows of
/// tiles lie 32 tiles apart.
pub open spec fn spec_obj_row_base(role: Role, control: Control, row: SpriteRow) -> u32 {
    let depth_shift = if row.attr_0.use_256_colors() {
        3u32
    } else {
        2u32
    };
    let tile_number = row.attr_2.tile_number() as u32;
    let offset = if control.obj_tile_1d_mapping() {
        (tile_number << spec_obj_boundary_shift(control.obj_tile_1d_boundary())).wrapping_add(
            ((row.y_in_obj & !7u32) << row.width_shift | (row.y_in_obj & 7)) << depth_shift,
        )
    } else {
        (tile_number << 5).wrapping_add(
            (row.y_in_obj >> 3 << 10).wrapping_add((row.y_in_obj & 7) << depth_shift),
        )
    };
    (if role.is_a() {
        control.a_tile_base()
    } else {
        0
    }).wrapping_add(offset)
}

/// The column of a sprite, counted from its left as it lies in memory, that
/// dot `x` shows; none where the sprite does not reach the dot.
pub open spec fn spec_obj_column(row: SpriteRow, x: int) -> Option<u32> {
    let width = spec_size_px(row.width_shift);
    let rel = x - row.x_start;
    if 0 <= x < 256 && 0 <= rel < width {
        Some(
            if row.x_flip {
                (width - 1 - rel) as u32
            } else {
                rel as u32
            },
        )
    } else {
        None
    }
}

/// The colour index of column `column` of a sprite row.
pub open spec fn spec_obj_color_index(
    vram: &Vram,
    role: Role,
    row_base: u32,
    use_256_colors: bool,
    column: u32,
) -> u8 {
    if use_256_colors {
        nth_byte(vram.obj_64(role, row_base.wrapping_add(column >> 3 << 6)), column & 7)
    } else {
        nth_nibble(vram.obj_32(role, row_base.wrapping_add(column >> 3 << 5)), column & 7)
    }
}

/// The colour index that a sprite row shows at dot `x`; none where it does
/// not reach the dot or is transparent there.
pub open spec fn spec_sprite_color_index(
    vram: &Vram,
    role: Role,
    control: Control,
    row: SpriteRow,
    x: int,
) -> Option<u8> {
    match spec_obj_column(row, x) {
        None => None,
        Some(column) => {
            let color_index = spec_obj_color_index(
                vram,
                role,
                spec_obj_row_base(role, control, row),
                row.attr_0.use_256_colors(),
                column,
            );
            if color_index == 0 {
                None
            } else {
                Some(color_index)
            }
        },
    }
}

/// The palette of a sprite, as what it adds to a colour index: one of the
/// sixteen palettes of 16 colours, or for a sprite of 256 colours one of
/// the sixteen extended palettes, where those are enabled.
pub open spec fn spec_obj_pal_base(control: Control, attr_0: OamAttr0, attr_2: OamAttr2) -> u16 {
    if attr_0.use_256_colors() {
        if control.obj_ext_pal_enabled() {
            (attr_2.palette_number() as u16) << 8
        } else {
            0
        }
    } else {
        (attr_2.palette_number() as u16) << 4
    }
}

/// The sprite pixel of a colour index of a sprite: the sprite's priority,
/// forced blending for a semi-transparent sprite, and the index within the
/// sprite's palette.
pub open spec fn spec_sprite_pixel(
    control: Control,
    attr_0: OamAttr0,
    attr_2: OamAttr2,
    color_index: u8,
) -> ObjPixel {
    let plain = ObjPixel(0).with_priority(attr_2.bg_priority()).with_force_blending(
        attr_0.mode() == 1,
    ).with_use_raw_color(false);
    let attrs = if attr_0.use_256_colors() && control.obj_ext_pal_enabled() {
        plain.with_use_ext_pal(true)
    } else {
        plain
    };
    attrs.with_pal_color(spec_obj_pal_base(control, attr_0, attr_2) | color_index as u16)
}

/// What a sprite row writes to the sprite pixel of dot `x`: nothing where it
/// shows no colour, and nothing at all where it is drawn into the sprite
/// window or is a bitmap sprite.
pub open spec fn spec_sprite_dot(
    vram: &Vram,
    role: Role,
    control: Control,
    row: SpriteRow,
    x: int,
) -> Option<ObjPixel> {
    if row.window || row.attr_0.mode() == 3 {
        None
    } else {
        match spec_sprite_color_index(vram, role, control, row, x) {
            None => None,
            Some(color_index) => Some(
                spec_sprite_pixel(control, row.attr_0, row.attr_2, color_index),
            ),
        }
    }
}

/// Whether a sprite row adds dot `x` to the sprite window: where it is
/// drawn into the window and shows a colour.
pub open spec fn spec_sprite_window_dot(
    vram: &Vram,
    role: Role,
    control: Control,
    row: SpriteRow,
    x: int,
) -> bool {
    row.window && spec_sprite_color_index(vram, role, control, row, x) is Some
}

/// The row that sprite `obj_i` of an engine shows on a scanline, if it is
/// drawn in the turn of priority `priority`: it has that priority, is neither
/// rotated or scaled nor hidden, covers the scanline, and is not wholly left
/// of the screen.
pub open spec fn spec_sprite_row(
    vram: &Vram,
    role: Role,
    priority: u8,
    obj_i: u32,
    scanline: u32,
) -> Option<SpriteRow> {
    let oam_start = role.palette_base() + obj_i * 8;
    let attr_0 = OamAttr0(vram.oam_16((oam_start) as usize));
    let attr_1 = OamAttr1(vram.oam_16((oam_start + 2) as usize));
    let attr_2 = OamAttr2(vram.oam_16((oam_start + 4) as usize));
    let shifts = spec_obj_size_shift(attr_0, attr_1);
    let y_in_obj = (scanline as u8).wrapping_sub(attr_0.y_start()) as u32;
    let height = spec_size_px(shifts.1);
    if attr_2.bg_priority() != priority || attr_0.rot_scale() || attr_0.disabled() || y_in_obj
        >= height || attr_1.x_start() <= -spec_size_px(shifts.0) {
        None
    } else {
        Some(
            SpriteRow {
                attr_0,
                attr_2,
                x_start: attr_1.x_start() as i32,
                y_in_obj: if attr_1.y_flip() {
                    y_in_obj ^ ((height - 1) as u32)
                } else {
                    y_in_obj
                },
                width_shift: shifts.0,
                x_flip: attr_1.x_flip(),
                window: attr_0.mode() == 2,
            },
        )
    }
}

/// The sprite drawn in step `step` of a scanline's 512 steps: the steps go
/// through the priorities from 3 to 0 and, within each, through the sprites
/// from 127 to 0.
pub open spec fn spec_step_row(vram: &Vram, role: Role, scanline: u32, step: nat) -> Option<
    SpriteRow,
> {
    spec_sprite_row(
        vram,
        role,
        (3 - step / 128) as u8,
        (127 - step % 128) as u32,
        scanline,
    )
}

/// What the sprite of step `step` writes to the sprite pixel of dot `x`.
pub open spec fn spec_step_pixel(
    vram: &Vram,
    role: Role,
    control: Control,
    scanline: u32,
    x: int,
    step: nat,
) -> Option<ObjPixel> {
    match spec_step_row(vram, role, scanline, step) {
        None => None,
        Some(row) => spec_sprite_dot(vram, role, control, row, x),
    }
}

/// The sprite pixel of dot `x` after the first `steps` steps.
pub open spec fn spec_obj_dot_after(
    vram: &Vram,
    role: Role,
    control: Control,
    scanline: u32,
    x: int,
    steps: nat,
) -> ObjPixel
    decreases steps,
{
    if steps == 0 {
        ObjPixel(0).with_priority(NO_OBJ_PRIORITY)
    } else {
        match spec_step_pixel(vram, role, control, scanline, x, (steps - 1) as nat) {
            None => spec_obj_dot_after(vram, role, control, scanline, x, (steps - 1) as nat),
            Some(pixel) => pixel,
        }
    }
}

/// Whether the sprite window covers dot `x` after the first `steps` steps.
pub open spec fn spec_obj_window_after(
    vram: &Vram,
    role: Role,
    control: Control,
    scanline: u32,
    x: int,
    steps: nat,
) -> bool
    decreases steps,
{
    if steps == 0 {
        false
    } else {
        let before = spec_obj_window_after(vram, role, control, scanline, x, (steps - 1) as nat);
        match spec_step_row(vram, role, scanline, (steps - 1) as nat) {
            None => before,
            Some(row) => before || spec_sprite_window_dot(vram, role, control, row, x),
        }
    }
}

/// Eight pixels times two to the `shift`.
pub fn size_px(shift: u8) -> (r: u32)
    ensures
        r == spec_size_px(shift),
        8 <= r <= 64,
{
    if shift == 0 {
        8
    } else if shift == 1 {
        16
    } else if shift == 2 {
        32
    } else {
        64
    }
}

/// Width and height of a sprite, as binary logarithms on top of 8 pixels.
pub fn obj_size_shift(attr_0: OamAttr0, attr_1: OamAttr1) -> (r: (u8, u8))
    ensures
        r == spec_obj_size_shift(attr_0, attr_1),
        r.0 <= 3,
        r.1 <= 3,
{
    let size = attr_1.size();
    let shape = attr_0.shape();
    if shape == 0 {
        if size == 0 {
            (0, 0)
        } else if size == 1 {
            (1, 1)
        } else if size == 2 {
            (2, 2)
        } else {
            (3, 3)
        }
    } else if shape == 1 {
        if size == 0 {
            (1, 0)
        } else if size == 1 {
            (2, 0)
        } else if size == 2 {
            (2, 1)
        } else {
            (3, 2)
        }
    } else if shape == 2 {
        if size == 0 {
            (0, 1)
        } else if size == 1 {
            (0, 2)
        } else if size == 2 {
            (1, 2)
        } else {
            (2, 3)
        }
    } else {
        (0, 0)
    }
}

/// Neighbouring columns share their tile unless a tile begins between them.
proof fn lemma_same_obj_tile(column: u32)
    by (bit_vector)
    requires
        column < 64,
    ensures
        (column + 1) as u32 & 7 != 0 ==> (column + 1) as u32 >> 3 == column >> 3,
        column > 0 && (column - 1) as u32 & 7 != 7 ==> (column - 1) as u32 >> 3 == column >> 3,
        (column & 7) << 3 == 8 * (column & 7),
        (column & 7) << 2 == 4 * (column & 7),
        (column & 7) << 3 < 64,
        (column & 7) << 2 < 32,
{
}

/// Setting one bit of a byte leaves the others as they were.
proof fn lemma_set_bit(byte: u8, k: u8, j: u8)
    by (bit_vector)
    requires
        k < 8,
        j < 8,
    ensures
        ((byte | 1u8 << k) & 1u8 << j != 0) == (j == k || byte & 1u8 << j != 0),
        0u8 & 1u8 << j == 0,
{
}

impl Engine2d {
    /// Draws one row of a sprite that is neither rotated nor scaled over the
    /// sprite pixels, or, with `WINDOW`, adds it to the sprite window.
    /// `attrs` holds the sprite's first and third attribute word, `X_FLIP`
    /// says whether it is mirrored horizontally. A bitmap sprite draws
    /// nothing.
    pub fn render_sprite_normal<const X_FLIP: bool, const WINDOW: bool>(
        &mut self,
        attrs: (OamAttr0, OamAttr2),
        x_start: i32,
        y_in_obj: u32,
        width_shift: u8,
        vram: &Vram,
    )
        requires
            -spec_size_px(width_shift) < x_start < 256,
            width_shift <= 3,
        ensures
            forall|x: int|
                0 <= x < 256 ==> #[trigger] final(self).obj_scanline.0[x] == (match spec_sprite_dot(
                    vram,
                    old(self).role,
                    old(self).control,
                    (SpriteRow {
                        attr_0: attrs.0,
                        attr_2: attrs.1,
                        x_start,
                        y_in_obj,
                        width_shift,
                        x_flip: X_FLIP,
                        window: WINDOW,
                    }),
                    x,
                ) {
                    Some(pixel) => pixel,
                    None => old(self).obj_scanline.0[x],
                }),
            forall|x: int|
                0 <= x < 256 ==> #[trigger] obj_window_bit(final(self).obj_window, x) == (
                obj_window_bit(old(self).obj_window, x) || spec_sprite_window_dot(
                    vram,
                    old(self).role,
                    old(self).control,
                    (SpriteRow {
                        attr_0: attrs.0,
                        attr_2: attrs.1,
                        x_start,
                        y_in_obj,
                        width_shift,
                        x_flip: X_FLIP,
                        window: WINDOW,
                    }),
                    x,
                )),
            *final(self) == (Engine2d {
                obj_scanline: final(self).obj_scanline,
                obj_window: final(self).obj_window,
                ..*old(self)
            }),
    {
        let ghost row = SpriteRow {
            attr_0: attrs.0,
            attr_2: attrs.1,
            x_start,
            y_in_obj,
            width_shift,
            x_flip: X_FLIP,
            window: WINDOW,
        };
        let role = self.role;
        let control = self.control;
        let width: u32 = size_px(width_shift);
        let x_first: usize = if x_start < 0 {
            0
        } else {
            x_start as usize
        };
        let first_column: u32 = if x_start < 0 {
            (-x_start) as u32
        } else {
            0
        };
        let end_column: u32 = if x_start < 0 || width < 256 - x_start as u32 {
            width
        } else {
            256 - x_start as u32
        };
        if !WINDOW && attrs.0.mode() == 3 {
            return ;
        }
        let use_256_colors: bool = attrs.0.use_256_colors();
        let depth_shift: u32 = if use_256_colors {
            3
        } else {
            2
        };
        let tile_number: u32 = attrs.1.tile_number() as u32;
        let offset: u32 = if control.obj_tile_1d_mapping() {
            let boundary = control.obj_tile_1d_boundary();
            let boundary_shift: u32 = if boundary == 0 {
                5
            } else if boundary == 1 {
                6
            } else if boundary == 2 {
                7
            } else {
                8
            };
            (tile_number << boundary_shift).wrapping_add(
                ((y_in_obj & !7u32) << width_shift | (y_in_obj & 7)) << depth_shift,
            )
        } else {
            (tile_number << 5).wrapping_add(
                (y_in_obj >> 3 << 10).wrapping_add((y_in_obj & 7) << depth_shift),
            )
        };
        let row_base: u32 = (if role.is_a() {
            control.a_tile_base()
        } else {
            0
        }).wrapping_add(offset);
        let mut pixel_attrs = ObjPixel(0).with_priority(attrs.1.bg_priority()).with_force_blending(
            attrs.0.mode() == 1,
        ).with_use_raw_color(false);
        let pal_base: u16 = if use_256_colors {
            if control.obj_ext_pal_enabled() {
                pixel_attrs = pixel_attrs.with_use_ext_pal(true);
                (attrs.1.palette_number() as u16) << 8
            } else {
                0
            }
        } else {
            (attrs.1.palette_number() as u16) << 4
        };
        let new_tile: u32 = if X_FLIP {
            7
        } else {
            0
        };
        let mut pixels_256: u64 = 0;
        let mut pixels_16: u32 = 0;
        let mut loaded: bool = false;
        let mut k: u32 = first_column;
        while k < end_column
            invariant
                role == self.role,
                control == self.control,
                width == spec_size_px(width_shift),
                first_column <= k <= end_column <= width,
                width <= 64,
                x_first + (end_column - first_column) <= 256,
                x_first - first_column == x_start,
                end_column == width || x_first + (end_column - first_column) == 256,
                use_256_colors == attrs.0.use_256_colors(),
                WINDOW || attrs.0.mode() != 3,
                row_base == spec_obj_row_base(role, control, row),
                row == (SpriteRow {
                    attr_0: attrs.0,
                    attr_2: attrs.1,
                    x_start,
                    y_in_obj,
                    width_shift,
                    x_flip: X_FLIP,
                    window: WINDOW,
                }),
                new_tile == (if X_FLIP {
                    7u32
                } else {
                    0u32
                }),
                forall|c: u8|
                    #![trigger spec_sprite_pixel(control, attrs.0, attrs.1, c)]
                    spec_sprite_pixel(control, attrs.0, attrs.1, c) == pixel_attrs.with_pal_color(
                        pal_base | c as u16,
                    ),
                loaded && k < end_column ==> {
                    let column = if X_FLIP {
                        (width - 1 - k) as u32
                    } else {
                        k
                    };
                    column & 7 != new_tile ==> (if use_256_colors {
                        pixels_256 == vram.obj_64(role, row_base.wrapping_add(column >> 3 << 6))
                    } else {
                        pixels_16 == vram.obj_32(role, row_base.wrapping_add(column >> 3 << 5))
                    })
                },
                forall|x: int|
                    0 <= x < 256 ==> #[trigger] self.obj_scanline.0[x] == (if x < x_first + (k
                        - first_column) {
                        match spec_sprite_dot(vram, role, control, row, x) {
                            Some(pixel) => pixel,
                            None => old(self).obj_scanline.0[x],
                        }
                    } else {
                        old(self).obj_scanline.0[x]
                    }),
                forall|x: int|
                    0 <= x < 256 ==> #[trigger] obj_window_bit(self.obj_window, x) == (
                    obj_window_bit(old(self).obj_window, x) || (x < x_first + (k - first_column)
                        && spec_sprite_window_dot(vram, role, control, row, x))),
                *self == (Engine2d {
                    obj_scanline: self.obj_scanline,
                    obj_window: self.obj_window,
                    ..*old(self)
                }),
            decreases end_column - k,
        {
            let x: usize = x_first + (k - first_column) as usize;
            let column: u32 = if X_FLIP {
                width - 1 - k
            } else {
                k
            };
            proof {
                lemma_same_obj_tile(column);
                assert(spec_obj_column(row, x as int) == Some(column));
            }
            if !loaded || column & 7 == new_tile {
                if use_256_colors {
                    pixels_256 = vram.read_obj_64(role, row_base.wrapping_add(column >> 3 << 6));
                } else {
                    pixels_16 = vram.read_obj_32(role, row_base.wrapping_add(column >> 3 << 5));
                }
                loaded = true;
            }
            let color_index: u8 = if use_256_colors {
                #[verifier::truncate]
                ((pixels_256 >> ((column & 7) << 3)) as u8)
            } else {
                #[verifier::truncate]
                (((pixels_16 >> ((column & 7) << 2)) & 0xF) as u8)
            };
            if color_index != 0 {
                if WINDOW {
                    let ghost before = self.obj_window;
                    let bit: u8 = (x % 8) as u8;
                    self.obj_window[x / 8] = self.obj_window[x / 8] | 1u8 << bit;
                    proof {
                        assert forall|d: int| 0 <= d < 256 implies #[trigger] obj_window_bit(
                            self.obj_window,
                            d,
                        ) == (d == x || obj_window_bit(before, d)) by {
                            if d / 8 == x / 8 {
                                lemma_set_bit(before[d / 8], bit, (d % 8) as u8);
                            }
                        }
                    }
                } else {
                    self.obj_scanline.0[x] =
                    pixel_attrs.with_pal_color(pal_base | color_index as u16);
                }
            }
            k += 1;
        }
        proof {
            assert forall|x: int| 0 <= x < 256 && !(x < x_first + (end_column
                - first_column)) implies spec_obj_column(row, x) is None by {}
            assert forall|x: int| 0 <= x < x_first implies spec_obj_column(row, x) is None by {}
        }
    }
}

impl Engine2d {
    /// The sprite pixel of dot `x` of scanline `scanline`: that of the last
    /// drawn sprite that shows a colour there, or one of priority 4 where
    /// there is none or sprites are switched off.
    pub open spec fn obj_dot(&self, vram: &Vram, scanline: u32, x: int) -> ObjPixel {
        if self.control.objs_enabled() {
            spec_obj_dot_after(vram, self.role, self.control, scanline, x, 512)
        } else {
            ObjPixel(0).with_priority(NO_OBJ_PRIORITY)
        }
    }

    /// Whether the sprite window covers dot `x` of scanline `scanline`.
    pub open spec fn obj_window_dot(&self, vram: &Vram, scanline: u32, x: int) -> bool {
        self.control.objs_enabled() && spec_obj_window_after(
            vram,
            self.role,
            self.control,
            scanline,
            x,
            512,
        )
    }

    /// Draws the sprites of scanline `scanline` into the sprite pixels and
    /// the sprite window, both of which start out empty.
    pub fn prerender_sprites(&mut self, scanline: u32, vram: &Vram)
        ensures
            forall|x: int|
                0 <= x < 256 ==> #[trigger] final(self).obj_scanline.0[x] == old(self).obj_dot(
                    vram,
                    scanline,
                    x,
                ),
            forall|x: int|
                0 <= x < 256 ==> #[trigger] obj_window_bit(final(self).obj_window, x) == old(
                    self,
                ).obj_window_dot(vram, scanline, x),
            *final(self) == (Engine2d {
                obj_scanline: final(self).obj_scanline,
                obj_window: final(self).obj_window,
                ..*old(self)
            }),
    {
        let role = self.role;
        let control = self.control;
        let no_obj = ObjPixel(0).with_priority(NO_OBJ_PRIORITY);
        for x in 0..256usize
            invariant
                no_obj == ObjPixel(0).with_priority(NO_OBJ_PRIORITY),
                forall|d: int| 0 <= d < x ==> #[trigger] self.obj_scanline.0[d] == no_obj,
                *self == (Engine2d { obj_scanline: self.obj_scanline, ..*old(self) }),
        {
            self.obj_scanline.0[x] = no_obj;
        }
        for x in 0..32usize
            invariant
                forall|d: int| 0 <= d < 256 ==> #[trigger] self.obj_scanline.0[d] == no_obj,
                forall|d: int| 0 <= d < x ==> #[trigger] self.obj_window[d] == 0,
                *self == (Engine2d {
                    obj_scanline: self.obj_scanline,
                    obj_window: self.obj_window,
                    ..*old(self)
                }),
        {
            self.obj_window[x] = 0;
        }
        proof {
            assert forall|d: int| 0 <= d < 256 implies !#[trigger] obj_window_bit(
                self.obj_window,
                d,
            ) by {
                lemma_set_bit(0, 0, (d % 8) as u8);
            }
        }
        if !control.objs_enabled() {
            return ;
        }
        let mut step: u32 = 0;
        while step < 512
            invariant
                step <= 512,
                role == self.role,
                control == self.control,
                control.objs_enabled(),
                forall|x: int|
                    0 <= x < 256 ==> #[trigger] self.obj_scanline.0[x] == spec_obj_dot_after(
                        vram,
                        role,
                        control,
                        scanline,
                        x,
                        step as nat,
                    ),
                forall|x: int|
                    0 <= x < 256 ==> #[trigger] obj_window_bit(self.obj_window, x)
                        == spec_obj_window_after(vram, role, control, scanline, x, step as nat),
                *self == (Engine2d {
                    obj_scanline: self.obj_scanline,
                    obj_window: self.obj_window,
                    ..*old(self)
                }),
            decreases 512 - step,
        {
            let priority: u8 = (3 - step / 128) as u8;
            let obj_i: u32 = 127 - step % 128;
            let oam_start: usize = role.palette_base() + (obj_i * 8) as usize;
            let attr_2 = OamAttr2(vram.read_oam_16(oam_start + 4));
            let attr_0 = OamAttr0(vram.read_oam_16(oam_start));
            let attr_1 = OamAttr1(vram.read_oam_16(oam_start + 2));
            let (width_shift, height_shift) = obj_size_shift(attr_0, attr_1);
            let y_in_obj: u32 = (#[verifier::truncate] (scanline as u8)).wrapping_sub(
                attr_0.y_start(),
            ) as u32;
            let height: u32 = size_px(height_shift);
            let x_start: i32 = attr_1.x_start() as i32;
            if attr_2.bg_priority() == priority && !attr_0.rot_scale() && !attr_0.disabled()
                && y_in_obj < height && x_start > -(size_px(width_shift) as i32) {
                let y_in_obj: u32 = if attr_1.y_flip() {
                    y_in_obj ^ (height - 1)
                } else {
                    y_in_obj
                };
                if attr_1.x_flip() {
                    if attr_0.mode() == 2 {
                        self.render_sprite_normal::<true, true>(
                            (attr_0, attr_2),
                            x_start,
                            y_in_obj,
                            width_shift,
                            vram,
                        );
                    } else {
                        self.render_sprite_normal::<true, false>(
                            (attr_0, attr_2),
                            x_start,
                            y_in_obj,
                            width_shift,
                            vram,
                        );
                    }
                } else if attr_0.mode() == 2 {
                    self.render_sprite_normal::<false, true>(
                        (attr_0, attr_2),
                        x_start,
                        y_in_obj,
                        width_shift,
                        vram,
                    );
                } else {
                    self.render_sprite_normal::<false, false>(
                        (attr_0, attr_2),
                        x_start,
                        y_in_obj,
                        width_shift,
                        vram,
                    );
                }
            }
            step += 1;
        }
    }
}

/// Steps in which no sprite shows a colour at a dot leave the sprite pixel
/// of the dot as it is.
pub proof fn lemma_idle_steps(
    vram: &Vram,
    role: Role,
    control: Control,
    scanline: u32,
    x: int,
    from: nat,
    to: nat,
)
    requires
        from <= to,
        forall|step: nat|
            from <= step < to ==> spec_step_pixel(vram, role, control, scanline, x, step) is None,
    ensures
        spec_obj_dot_after(vram, role, control, scanline, x, to) == spec_obj_dot_after(
            vram,
            role,
            control,
            scanline,
            x,
            from,
        ),
    decreases to,
{
    if from < to {
        lemma_idle_steps(vram, role, control, scanline, x, from, (to - 1) as nat);
        assert(spec_step_pixel(vram, role, control, scanline, x, (to - 1) as nat) is None);
    }
}

/// Of the sprites that show a colour at a dot, the one that is drawn last
/// shows: the one of the lowest priority number, and among those of that
/// priority the one of the lowest number.
pub proof fn lemma_last_sprite_shows(
    vram: &Vram,
    role: Role,
    control: Control,
    scanline: u32,
    x: int,
    last: nat,
)
    requires
        last < 512,
        spec_step_pixel(vram, role, control, scanline, x, last) is Some,
        forall|step: nat|
            last < step < 512 ==> spec_step_pixel(vram, role, control, scanline, x, step) is None,
    ensures
        spec_obj_dot_after(vram, role, control, scanline, x, 512) == spec_step_pixel(
            vram,
            role,
            control,
            scanline,
            x,
            last,
        )->0,
{
    lemma_idle_steps(vram, role, control, scanline, x, last + 1, 512);
}

} // verus!
