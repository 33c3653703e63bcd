//! The compositor: backgrounds and sprites merged, in order of priority, into
//! the two topmost pixels of each dot.
//!
//! A scanline starts out as the backdrop with nothing below it. Then the
//! layers take turns, each writing over what is there: for each priority from
//! 3 to 0 the backgrounds of that priority from 3 to 0, and after them the
//! sprites of that priority. What is written last ends up on top, what was on
//! top before right below. A dot has a second pixel only once a layer has
//! written over the backdrop.

use crate::color::{rgb_15_to_18, spec_rgb_15_to_18};
use crate::engine_2d::bg_affine::spec_next_line;
use crate::engine_2d::bg_text::spec_write_dot;
use crate::engine_2d::effects::lemma_pair_halves;
use crate::engine_2d::{AffineBgIndex, BgIndex, Engine2d};
use crate::pixel::{
    pair_next, pair_top, pixel_pair, push_pixel, BgObjPixel, ObjPixel, BACKDROP_LAYER, OBJ_LAYER,
};
use crate::regs::AffineBgData;
use crate::vram::{Role, Vram};
use vstd::prelude::*;

verus! {

/// The 15-bit colour of a sprite pixel: the one it carries, or the one its
/// palette index names in the extended sprite palettes or in the engine's
/// sprite palette.
pub open spec fn spec_obj_color(vram: &Vram, role: Role, pixel: ObjPixel) -> u16 {
    if pixel.use_raw_color() {
        pixel.raw_color()
    } else if pixel.use_ext_pal() {
        vram.obj_ext_pal_16(role, pixel.pal_color() as usize)
    } else {
        vram.palette_16(role.palette_base() | 0x200 | (pixel.pal_color() as usize) << 1)
    }
}

/// The composited pixel made of a sprite pixel.
pub open spec fn spec_obj_composite(vram: &Vram, role: Role, pixel: ObjPixel) -> u32 {
    spec_rgb_15_to_18(spec_obj_color(vram, role, pixel) as u32) | BgObjPixel(
        pixel.spec_bg_obj_attrs(),
    ).with_color_effects_mask(OBJ_LAYER).0
}

/// Number of turns that the layers take on a scanline.
pub const LAYER_TURNS: u32 = 20;

impl Engine2d {
    /// The backdrop: the first colour of the engine's background palette,
    /// marked as the backdrop layer.
    pub open spec fn backdrop(&self, vram: &Vram) -> u32 {
        BgObjPixel(
            spec_rgb_15_to_18(vram.palette_16(self.role.palette_base()) as u32),
        ).with_color_effects_mask(BACKDROP_LAYER).0
    }

    /// What background `bg` writes to dot `i` of scanline `line` in
    /// background mode `bg_mode`. Background 0 is a text background, unless
    /// it is given to the 3D layer, of which nothing is drawn here;
    /// background 1 is a text background but in mode 6; backgrounds 2 and 3
    /// are text, affine or extended backgrounds by the mode, background 2 the
    /// large bitmap in mode 6, and either nothing in the modes that have no
    /// use for it.
    pub open spec fn bg_dot(&self, bg_mode: u8, bg: u8, line: u16, vram: &Vram, i: int) -> Option<
        u32,
    > {
        let overflow = self.bgs[bg as int].control.affine_display_area_overflow();
        if bg == 3 {
            if bg_mode == 0 {
                self.text_dot(3, line, vram, i)
            } else if bg_mode == 1 || bg_mode == 2 {
                self.affine_dot(1, overflow, vram, i)
            } else if 3 <= bg_mode <= 5 {
                self.extended_dot(1, overflow, vram, i)
            } else {
                None
            }
        } else if bg == 2 {
            if bg_mode == 0 || bg_mode == 1 || bg_mode == 3 {
                self.text_dot(2, line, vram, i)
            } else if bg_mode == 2 || bg_mode == 4 {
                self.affine_dot(0, overflow, vram, i)
            } else if bg_mode == 5 {
                self.extended_dot(0, overflow, vram, i)
            } else if bg_mode == 6 {
                self.large_dot(overflow, vram, i)
            } else {
                None
            }
        } else if bg == 1 {
            if bg_mode != 6 {
                self.text_dot(1, line, vram, i)
            } else {
                None
            }
        } else {
            if self.control.bg0_3d() {
                None
            } else {
                self.text_dot(0, line, vram, i)
            }
        }
    }

    /// Whether background `bg` is drawn from its affine state in background
    /// mode `bg_mode`.
    pub open spec fn bg_uses_affine(bg_mode: u8, bg: u8) -> bool {
        (bg == 3 && 1 <= bg_mode <= 5) || (bg == 2 && (bg_mode == 2 || 4 <= bg_mode <= 6))
    }

    /// What the sprites of priority `priority` write to dot `i`: the sprite
    /// pixel of the dot where it has that priority and the window shows
    /// sprites.
    pub open spec fn obj_layer_dot(&self, priority: u8, vram: &Vram, i: int) -> Option<u32> {
        if self.window.0[i].0 & OBJ_LAYER != 0 && self.obj_scanline.0[i].priority() == priority {
            Some(spec_obj_composite(vram, self.role, self.obj_scanline.0[i]))
        } else {
            None
        }
    }

    /// What the layer of turn `turn` writes to dot `i`. Turns 0 to 4 belong
    /// to priority 3, turns 5 to 9 to priority 2, and so on; within a
    /// priority, the first four turns are those of backgrounds 3 to 0 and the
    /// fifth that of the sprites. A background sits out the turns of the
    /// priorities that are not its own.
    pub open spec fn layer_dot(
        &self,
        bg_mode: u8,
        line: u16,
        vram: &Vram,
        i: int,
        turn: nat,
    ) -> Option<u32> {
        let priority = (3 - turn / 5) as u8;
        let slot = turn % 5;
        if slot == 4 {
            self.obj_layer_dot(priority, vram, i)
        } else if self.bgs[3 - slot].priority == priority {
            self.bg_dot(bg_mode, (3 - slot) as u8, line, vram, i)
        } else {
            None
        }
    }

    /// The two topmost pixels of dot `i` after the first `turns` turns. Before
    /// the first turn the backdrop is on top and there is no second pixel: the
    /// zero in its place is of no layer, and so no target of any effect.
    pub open spec fn composed_after(
        &self,
        bg_mode: u8,
        line: u16,
        vram: &Vram,
        i: int,
        turns: nat,
    ) -> u64
        decreases turns,
    {
        if turns == 0 {
            pixel_pair(self.backdrop(vram), 0)
        } else {
            spec_write_dot(
                self.composed_after(bg_mode, line, vram, i, (turns - 1) as nat),
                self.layer_dot(bg_mode, line, vram, i, (turns - 1) as nat),
            )
        }
    }

    /// The two topmost pixels of dot `i` of scanline `line`.
    pub open spec fn composed_dot(&self, bg_mode: u8, line: u16, vram: &Vram, i: int) -> u64 {
        self.composed_after(bg_mode, line, vram, i, LAYER_TURNS as nat)
    }

    /// The affine state of background 2 or 3 once all layers had their
    /// turns: moved to the next scanline if the background was drawn from it.
    pub open spec fn affine_after_line(&self, bg_mode: u8, affine_index: int) -> AffineBgData {
        if self.bgs[affine_index + 2].priority < 4 && Self::bg_uses_affine(
            bg_mode,
            (affine_index + 2) as u8,
        ) {
            spec_next_line(self.affine_bg_data[affine_index])
        } else {
            self.affine_bg_data[affine_index]
        }
    }

    /// Writes the sprite pixels of priority `priority` over the composited
    /// scanline.
    fn composite_objs(&mut self, priority: u8, vram: &Vram)
        ensures
            forall|i: int|
                0 <= i < 256 ==> #[trigger] final(self).bg_obj_scanline.0[i] == spec_write_dot(
                    old(self).bg_obj_scanline.0[i],
                    old(self).obj_layer_dot(priority, vram, i),
                ),
            *final(self) == (Engine2d {
                bg_obj_scanline: final(self).bg_obj_scanline,
                ..*old(self)
            }),
    {
        let role = self.role;
        for i in 0..256usize
            invariant
                role == self.role,
                forall|j: int|
                    0 <= j < i ==> #[trigger] self.bg_obj_scanline.0[j] == spec_write_dot(
                        old(self).bg_obj_scanline.0[j],
                        old(self).obj_layer_dot(priority, vram, j),
                    ),
                forall|j: int|
                    i <= j < 256 ==> #[trigger] self.bg_obj_scanline.0[j] == old(
                        self,
                    ).bg_obj_scanline.0[j],
                *self == (Engine2d { bg_obj_scanline: self.bg_obj_scanline, ..*old(self) }),
        {
            if self.window.0[i].0 & OBJ_LAYER != 0 {
                let obj_pixel = self.obj_scanline.0[i];
                if obj_pixel.priority() == priority {
                    let pixel_attrs: u32 = BgObjPixel(
                        obj_pixel.0 & 0x03F8_0000,
                    ).with_color_effects_mask(OBJ_LAYER).0;
                    let color: u16 = if obj_pixel.use_raw_color() {
                        obj_pixel.raw_color()
                    } else if obj_pixel.use_ext_pal() {
                        vram.read_obj_ext_pal_16(role, obj_pixel.pal_color() as usize)
                    } else {
                        vram.read_palette_16(
                            role.palette_base() | 0x200 | (obj_pixel.pal_color() as usize) << 1,
                        )
                    };
                    self.bg_obj_scanline.0[i] =
                    push_pixel(self.bg_obj_scanline.0[i], rgb_15_to_18(color as u32) | pixel_attrs);
                }
            }
        }
    }

    /// Lets background `bg` have its turn in background mode `BG_MODE`.
    fn render_bg<const BG_MODE: u8>(&mut self, bg: u8, line: u16, vram: &Vram)
        requires
            bg < 4,
        ensures
            forall|i: int|
                0 <= i < 256 ==> #[trigger] final(self).bg_obj_scanline.0[i] == spec_write_dot(
                    old(self).bg_obj_scanline.0[i],
                    old(self).bg_dot(BG_MODE, bg, line, vram, i),
                ),
            forall|k: int|
                0 <= k < 2 ==> #[trigger] final(self).affine_bg_data[k] == (if k + 2 == bg
                    && Self::bg_uses_affine(BG_MODE, bg) {
                    spec_next_line(old(self).affine_bg_data[k])
                } else {
                    old(self).affine_bg_data[k]
                }),
            *final(self) == (Engine2d {
                bg_obj_scanline: final(self).bg_obj_scanline,
                affine_bg_data: final(self).affine_bg_data,
                ..*old(self)
            }),
    {
        let overflow: bool = self.bgs[bg as usize].control.affine_display_area_overflow();
        if bg == 3 {
            if BG_MODE == 0 {
                self.render_scanline_bg_text(BgIndex::new(3), line, vram);
            } else if BG_MODE == 1 || BG_MODE == 2 {
                if overflow {
                    self.render_scanline_bg_affine::<true>(AffineBgIndex::new(1), vram);
                } else {
                    self.render_scanline_bg_affine::<false>(AffineBgIndex::new(1), vram);
                }
            } else if BG_MODE <= 5 {
                if overflow {
                    self.render_scanline_bg_extended::<true>(AffineBgIndex::new(1), vram);
                } else {
                    self.render_scanline_bg_extended::<false>(AffineBgIndex::new(1), vram);
                }
            }
        } else if bg == 2 {
            if BG_MODE == 0 || BG_MODE == 1 || BG_MODE == 3 {
                self.render_scanline_bg_text(BgIndex::new(2), line, vram);
            } else if BG_MODE == 2 || BG_MODE == 4 {
                if overflow {
                    self.render_scanline_bg_affine::<true>(AffineBgIndex::new(0), vram);
                } else {
                    self.render_scanline_bg_affine::<false>(AffineBgIndex::new(0), vram);
                }
            } else if BG_MODE == 5 {
                if overflow {
                    self.render_scanline_bg_extended::<true>(AffineBgIndex::new(0), vram);
                } else {
                    self.render_scanline_bg_extended::<false>(AffineBgIndex::new(0), vram);
                }
            } else if BG_MODE == 6 {
                if overflow {
                    self.render_scanline_bg_large::<true>(vram);
                } else {
                    self.render_scanline_bg_large::<false>(vram);
                }
            }
        } else if bg == 1 {
            if BG_MODE != 6 {
                self.render_scanline_bg_text(BgIndex::new(1), line, vram);
            }
        } else {
            if !self.control.bg0_3d() {
                self.render_scanline_bg_text(BgIndex::new(0), line, vram);
            }
        }
    }

    /// Composites scanline `line` in background mode `BG_MODE`: the backdrop,
    /// then the backgrounds and the prerendered sprites in the order of their
    /// turns. The affine backgrounds that were drawn move on to the next
    /// scanline.
    pub fn render_scanline_bgs_and_objs<const BG_MODE: u8>(&mut self, line: u16, vram: &Vram)
        ensures
            forall|i: int|
                0 <= i < 256 ==> #[trigger] final(self).bg_obj_scanline.0[i] == old(
                    self,
                ).composed_dot(BG_MODE, line, vram, i),
            forall|k: int|
                0 <= k < 2 ==> #[trigger] final(self).affine_bg_data[k] == old(
                    self,
                ).affine_after_line(BG_MODE, k),
            *final(self) == (Engine2d {
                bg_obj_scanline: final(self).bg_obj_scanline,
                affine_bg_data: final(self).affine_bg_data,
                ..*old(self)
            }),
    {
        let backdrop: u32 = BgObjPixel(
            rgb_15_to_18(vram.read_palette_16(self.role.palette_base()) as u32),
        ).with_color_effects_mask(BACKDROP_LAYER).0;
        let pair: u64 = backdrop as u64;
        proof {
            lemma_pair_halves(backdrop, 0);
        }
        for i in 0..256usize
            invariant
                pair == pixel_pair(old(self).backdrop(vram), 0),
                forall|j: int| 0 <= j < i ==> #[trigger] self.bg_obj_scanline.0[j] == pair,
                *self == (Engine2d { bg_obj_scanline: self.bg_obj_scanline, ..*old(self) }),
        {
            self.bg_obj_scanline.0[i] = pair;
        }
        let mut turn: u32 = 0;
        while turn < LAYER_TURNS
            invariant
                turn <= LAYER_TURNS,
                forall|i: int|
                    0 <= i < 256 ==> #[trigger] self.bg_obj_scanline.0[i] == old(
                        self,
                    ).composed_after(BG_MODE, line, vram, i, turn as nat),
                forall|k: int|
                    0 <= k < 2 ==> #[trigger] self.affine_bg_data[k] == (if old(self).bgs[k
                        + 2].priority < 4 && (3 - old(self).bgs[k + 2].priority) * 5 + (1 - k)
                        < turn && Self::bg_uses_affine(BG_MODE, (k + 2) as u8) {
                        spec_next_line(old(self).affine_bg_data[k])
                    } else {
                        old(self).affine_bg_data[k]
                    }),
                *self == (Engine2d {
                    bg_obj_scanline: self.bg_obj_scanline,
                    affine_bg_data: self.affine_bg_data,
                    ..*old(self)
                }),
            decreases LAYER_TURNS - turn,
        {
            let priority: u8 = (3 - turn / 5) as u8;
            let slot: u32 = turn % 5;
            let ghost before = *self;
            if slot == 4 {
                self.composite_objs(priority, vram);
                proof {
                    assert forall|i: int| 0 <= i < 256 implies #[trigger] before.obj_layer_dot(
                        priority,
                        vram,
                        i,
                    ) == old(self).layer_dot(BG_MODE, line, vram, i, turn as nat) by {}
                }
            } else {
                let bg: u8 = (3 - slot) as u8;
                if self.bgs[bg as usize].priority == priority {
                    self.render_bg::<BG_MODE>(bg, line, vram);
                    proof {
                        assert forall|i: int| 0 <= i < 256 implies #[trigger] before.bg_dot(
                            BG_MODE,
                            bg,
                            line,
                            vram,
                            i,
                        ) == old(self).layer_dot(BG_MODE, line, vram, i, turn as nat) by {
                            if bg >= 2 {
                                assert(before.affine_bg_data[bg - 2] == old(
                                    self,
                                ).affine_bg_data[bg - 2]);
                            }
                        }
                    }
                }
            }
            turn += 1;
        }
    }
}

/// The backdrop is an opaque pixel of the backdrop layer: it neither forces
/// blending nor has an alpha of its own.
pub proof fn lemma_backdrop_attrs(engine: Engine2d, vram: &Vram)
    ensures
        BgObjPixel(engine.backdrop(vram)).color_effects_mask() == BACKDROP_LAYER,
        !BgObjPixel(engine.backdrop(vram)).force_blending(),
        !BgObjPixel(engine.backdrop(vram)).custom_alpha(),
        BgObjPixel(engine.backdrop(vram)).rgb() == spec_rgb_15_to_18(
            vram.palette_16(engine.role.palette_base()) as u32,
        ),
{
    let color = vram.palette_16(engine.role.palette_base()) as u32;
    let rgb = spec_rgb_15_to_18(color);
    crate::color::lemma_rgb_15_to_18_channels(color);
    let pixel = engine.backdrop(vram);
    assert(((pixel >> 26) as u8) == 0x20 && pixel & 1u32 << 23 == 0 && pixel & 1u32 << 24 == 0
        && pixel & 0x3_FFFF == rgb) by (bit_vector)
        requires
            rgb <= 0x3_FFFF,
            pixel == (rgb & 0x03FF_FFFF) | ((0x20u8 as u32) << 26),
    ;
}

impl Engine2d {
    /// A dot that neither a background nor a sprite writes to shows the
    /// backdrop, and nothing below it: there is no second pixel that the
    /// backdrop could be blended with.
    pub proof fn lemma_untouched_dot_is_backdrop(
        &self,
        bg_mode: u8,
        line: u16,
        vram: &Vram,
        i: int,
    )
        requires
            forall|turn: nat|
                turn < LAYER_TURNS ==> (#[trigger] self.layer_dot(bg_mode, line, vram, i, turn))
                    is None,
        ensures
            self.composed_dot(bg_mode, line, vram, i) == pixel_pair(self.backdrop(vram), 0),
    {
        self.lemma_idle_turns(bg_mode, line, vram, i, 0, LAYER_TURNS as nat);
    }

    /// The colour of a dot that neither a background nor a sprite writes to
    /// is that of the backdrop: whatever the blend weights and the targets
    /// are, it is not blended, and only a brightness effect that applies to
    /// the backdrop changes it.
    pub proof fn lemma_untouched_dot_keeps_backdrop(
        &self,
        effect: u8,
        bg_mode: u8,
        line: u16,
        vram: &Vram,
        i: int,
    )
        requires
            forall|turn: nat|
                turn < LAYER_TURNS ==> (#[trigger] self.layer_dot(bg_mode, line, vram, i, turn))
                    is None,
        ensures
            crate::engine_2d::effects::color_effect_dot(
                effect,
                self.composed_dot(bg_mode, line, vram, i),
                self.window.0[i],
                self.color_effects_control.target_1_mask(),
                self.color_effects_control.target_2_mask(),
                self.blend_coeffs,
                self.brightness_coeff,
            ) == (if !self.window.0[i].color_effects_enabled() || effect == 0 || effect == 1
                || BACKDROP_LAYER & self.color_effects_control.target_1_mask() == 0 {
                self.backdrop(vram)
            } else if effect == 2 {
                crate::color::spec_brightness_increase(
                    self.backdrop(vram),
                    self.brightness_coeff as u32,
                )
            } else {
                crate::color::spec_brightness_decrease(
                    self.backdrop(vram),
                    self.brightness_coeff as u32,
                )
            }),
    {
        self.lemma_untouched_dot_is_backdrop(bg_mode, line, vram, i);
        lemma_backdrop_attrs(*self, vram);
        crate::engine_2d::effects::lemma_lone_pixel_is_not_blended(
            effect,
            self.backdrop(vram),
            self.window.0[i],
            self.color_effects_control.target_1_mask(),
            self.color_effects_control.target_2_mask(),
            self.blend_coeffs,
            self.brightness_coeff,
        );
    }
}

/// Writing a pixel over a pair puts it on top and what was on top below it.
pub proof fn lemma_write_dot(pair: u64, pixel: u32)
    ensures
        pair_top(spec_write_dot(pair, Some(pixel))) == pixel,
        pair_next(spec_write_dot(pair, Some(pixel))) == pair_top(pair),
{
    assert((pair << 32 | (pixel as u64)) as u32 == pixel && ((pair << 32 | (pixel as u64))
        >> 32) as u32 == pair as u32) by (bit_vector);
}

impl Engine2d {
    /// Turns in which no layer writes to a dot leave the dot as it is.
    pub proof fn lemma_idle_turns(
        &self,
        bg_mode: u8,
        line: u16,
        vram: &Vram,
        i: int,
        from: nat,
        to: nat,
    )
        requires
            from <= to,
            forall|turn: nat|
                from <= turn < to ==> (#[trigger] self.layer_dot(bg_mode, line, vram, i, turn))
                    is None,
        ensures
            self.composed_after(bg_mode, line, vram, i, to) == self.composed_after(
                bg_mode,
                line,
                vram,
                i,
                from,
            ),
        decreases to,
    {
        if from < to {
            self.lemma_idle_turns(bg_mode, line, vram, i, from, (to - 1) as nat);
            assert(self.layer_dot(bg_mode, line, vram, i, (to - 1) as nat) is None);
        }
    }

    /// The layer that writes to a dot last is on top of it, and right below
    /// lies what was on top when its turn came: whoever writes later covers
    /// whoever wrote before, so that of the layers that show a pixel at a dot
    /// the two of the lowest priority numbers are kept, sprites before
    /// backgrounds and lower backgrounds before higher ones.
    pub proof fn lemma_last_layer_on_top(
        &self,
        bg_mode: u8,
        line: u16,
        vram: &Vram,
        i: int,
        last: nat,
    )
        requires
            last < LAYER_TURNS,
            self.layer_dot(bg_mode, line, vram, i, last) is Some,
            forall|turn: nat|
                last < turn < LAYER_TURNS ==> (#[trigger] self.layer_dot(
                    bg_mode,
                    line,
                    vram,
                    i,
                    turn,
                )) is None,
        ensures
            pair_top(self.composed_dot(bg_mode, line, vram, i)) == self.layer_dot(
                bg_mode,
                line,
                vram,
                i,
                last,
            )->0,
            pair_next(self.composed_dot(bg_mode, line, vram, i)) == pair_top(
                self.composed_after(bg_mode, line, vram, i, last),
            ),
    {
        self.lemma_idle_turns(bg_mode, line, vram, i, last + 1, LAYER_TURNS as nat);
        lemma_write_dot(
            self.composed_after(bg_mode, line, vram, i, last),
            self.layer_dot(bg_mode, line, vram, i, last)->0,
        );
    }

    /// A dot that no sprite covers gets nothing from the sprites, whatever
    /// the turn: the priority that marks it is none that has a turn.
    pub proof fn lemma_no_sprite_never_shows(
        &self,
        bg_mode: u8,
        line: u16,
        vram: &Vram,
        i: int,
        turn: nat,
    )
        requires
            turn < LAYER_TURNS,
            turn % 5 == 4,
            self.obj_scanline.0[i].priority() == crate::pixel::NO_OBJ_PRIORITY,
        ensures
            self.layer_dot(bg_mode, line, vram, i, turn) is None,
    {
    }
}

} // verus!
