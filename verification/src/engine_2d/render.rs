//! The entry point of the compositor: one finished scanline per call.

use crate::color::{
    brightness_decrease, brightness_increase, rgb_15_to_18, rgb_18_to_rgba_32,
    spec_brightness_decrease, spec_brightness_increase, spec_rgb_15_to_18, spec_rgb_18_to_rgba_32,
};
use crate::engine_2d::{Engine2d, Scanline};
use crate::pixel::SCREEN_HEIGHT;
use crate::vram::Vram;
use vstd::prelude::*;

verus! {

/// The displayed colour of an 18-bit colour under the master brightness:
/// brightened in mode 1 and darkened in mode 2 by `factor` sixteenths, unless
/// that is zero, and expanded to 32 bits.
pub open spec fn spec_finish(mode: u8, factor: u32, color: u32) -> u32 {
    spec_rgb_18_to_rgba_32(
        if mode == 1 && factor != 0 {
            spec_brightness_increase(color, factor)
        } else if mode == 2 && factor != 0 {
            spec_brightness_decrease(color, factor)
        } else {
            color
        },
    )
}

impl Engine2d {
    /// What the engine displays: 0 nothing, 1 the composited layers, 2 a
    /// memory bank, 3 main memory. Engine B knows the first two only.
    pub open spec fn spec_display_mode(&self) -> u8 {
        if self.role.is_a() {
            self.control.display_mode_a()
        } else {
            self.control.display_mode_b()
        }
    }

    /// What the engine displays.
    #[verifier::when_used_as_spec(spec_display_mode)]
    pub fn display_mode(&self) -> (r: u8)
        ensures
            r == self.spec_display_mode(),
    {
        if self.role.is_a() {
            self.control.display_mode_a()
        } else {
            self.control.display_mode_b()
        }
    }

    /// Whether scanline `vcount` is plain white: outside of the visible
    /// lines, on engine B while it is switched off, and when nothing is
    /// displayed.
    pub open spec fn is_blank(&self, vcount: u16) -> bool {
        vcount >= SCREEN_HEIGHT || (!self.role.is_a() && !self.enabled) || self.display_mode() == 0
    }

    /// Whether the engine can render scanline `vcount`: it is blank, or
    /// neither the display of main memory nor master brightness mode 3 is
    /// selected, for which there is no defined result.
    pub open spec fn spec_can_render(&self, vcount: u16) -> bool {
        self.is_blank(vcount) || (self.display_mode() != 3
            && self.master_brightness_control.mode() != 3)
    }

    /// Whether the engine can render scanline `vcount`.
    #[verifier::when_used_as_spec(spec_can_render)]
    pub fn can_render(&self, vcount: u16) -> (r: bool)
        ensures
            r == self.spec_can_render(vcount),
    {
        vcount as usize >= SCREEN_HEIGHT || (!self.role.is_a() && !self.enabled)
            || self.display_mode() == 0 || (
        self.display_mode() != 3 && self.master_brightness_control.mode() != 3)
    }

    /// The engine as it composites the current scanline: with the window
    /// masks of the scanline in place.
    pub open spec fn with_window(&self, window: Scanline<crate::pixel::WindowPixel>) -> Engine2d {
        Engine2d { window, ..*self }
    }

    /// The 18-bit colour of dot `i` of scanline `vcount` of the memory bank
    /// that the engine displays: black unless the bank is open to display.
    pub open spec fn bank_dot(&self, vcount: u16, vram: &Vram, i: int) -> u32 {
        let bank = self.control.a_vram_bank();
        if vram.lcdc_bank_mst[bank as int] == 0 {
            spec_rgb_15_to_18(vram.lcdc_16(bank, (vcount as usize) << 9 | (i as usize) << 1) as u32)
        } else {
            0
        }
    }

    /// The displayed colour of an 18-bit colour under the engine's master
    /// brightness.
    pub open spec fn finish(&self, color: u32) -> u32 {
        spec_finish(self.master_brightness_control.mode(), self.master_brightness_factor, color)
    }

    /// Fills a scanline with one value.
    fn fill(scanline_buffer: &mut Scanline<u32>, value: u32)
        ensures
            forall|i: int| 0 <= i < 256 ==> #[trigger] final(scanline_buffer).0[i] == value,
    {
        for i in 0..256usize
            invariant
                forall|j: int| 0 <= j < i ==> #[trigger] scanline_buffer.0[j] == value,
        {
            scanline_buffer.0[i] = value;
        }
    }

    /// Composites the scanline in the background mode that the control
    /// register selects.
    fn render_layers(&mut self, vcount: u16, vram: &Vram)
        ensures
            forall|i: int|
                0 <= i < 256 ==> #[trigger] final(self).bg_obj_scanline.0[i] == old(
                    self,
                ).composed_dot(old(self).control.bg_mode(), vcount, vram, i),
            forall|k: int|
                0 <= k < 2 ==> #[trigger] final(self).affine_bg_data[k] == old(
                    self,
                ).affine_after_line(old(self).control.bg_mode(), k),
            *final(self) == (Engine2d {
                bg_obj_scanline: final(self).bg_obj_scanline,
                affine_bg_data: final(self).affine_bg_data,
                ..*old(self)
            }),
    {
        let bg_mode: u8 = self.control.bg_mode();
        if bg_mode == 0 {
            self.render_scanline_bgs_and_objs::<0>(vcount, vram);
        } else if bg_mode == 1 {
            self.render_scanline_bgs_and_objs::<1>(vcount, vram);
        } else if bg_mode == 2 {
            self.render_scanline_bgs_and_objs::<2>(vcount, vram);
        } else if bg_mode == 3 {
            self.render_scanline_bgs_and_objs::<3>(vcount, vram);
        } else if bg_mode == 4 {
            self.render_scanline_bgs_and_objs::<4>(vcount, vram);
        } else if bg_mode == 5 {
            self.render_scanline_bgs_and_objs::<5>(vcount, vram);
        } else if bg_mode == 6 {
            self.render_scanline_bgs_and_objs::<6>(vcount, vram);
        } else {
            proof {
                let word = self.control.0;
                assert((word & 7) as u8 <= 7) by (bit_vector);
            }
            self.render_scanline_bgs_and_objs::<7>(vcount, vram);
        }
    }

    /// Resolves the composited scanline under the colour effect that the
    /// effect register selects.
    fn resolve_effects(&self, scanline_buffer: &mut Scanline<u32>)
        ensures
            forall|i: int|
                0 <= i < 256 ==> #[trigger] final(scanline_buffer).0[i] == self.effect_dot(
                    self.color_effects_control.color_effect(),
                    i,
                ),
    {
        let effect: u8 = self.color_effects_control.color_effect();
        if effect == 0 {
            self.apply_color_effects::<0>(scanline_buffer);
        } else if effect == 1 {
            self.apply_color_effects::<1>(scanline_buffer);
        } else if effect == 2 {
            self.apply_color_effects::<2>(scanline_buffer);
        } else {
            proof {
                let word = self.color_effects_control.0;
                assert((word >> 6 & 3) as u8 <= 3) by (bit_vector);
            }
            self.apply_color_effects::<3>(scanline_buffer);
        }
    }

    /// Applies the master brightness to a scanline of 18-bit colours and
    /// expands them to 32 bits.
    fn finish_scanline(&self, scanline_buffer: &mut Scanline<u32>)
        ensures
            forall|i: int|
                0 <= i < 256 ==> #[trigger] final(scanline_buffer).0[i] == self.finish(
                    old(scanline_buffer).0[i],
                ),
    {
        let mode: u8 = self.master_brightness_control.mode();
        let factor: u32 = self.master_brightness_factor;
        for i in 0..256usize
            invariant
                mode == self.master_brightness_control.mode(),
                factor == self.master_brightness_factor,
                forall|j: int|
                    0 <= j < i ==> #[trigger] scanline_buffer.0[j] == self.finish(
                        old(scanline_buffer).0[j],
                    ),
                forall|j: int|
                    i <= j < 256 ==> #[trigger] scanline_buffer.0[j] == old(scanline_buffer).0[j],
        {
            let pixel: u32 = scanline_buffer.0[i];
            scanline_buffer.0[i] =
            if mode == 1 && factor != 0 {
                rgb_18_to_rgba_32(brightness_increase(pixel, factor))
            } else if mode == 2 && factor != 0 {
                rgb_18_to_rgba_32(brightness_decrease(pixel, factor))
            } else {
                rgb_18_to_rgba_32(pixel)
            };
        }
    }

    /// Renders scanline `vcount` into `scanline_buffer`, as 32-bit colours.
    ///
    /// A blank scanline is white, and leaves the engine as it was. A scanline
    /// of layers gets its window masks, is composited from the backgrounds
    /// and the sprites prerendered for it, and resolved by the selected
    /// colour effect. A scanline of a memory bank shows the bank's colours.
    /// Both then go through the master brightness.
    pub fn render_scanline(
        &mut self,
        vcount: u16,
        scanline_buffer: &mut Scanline<u32>,
        vram: &Vram,
    )
        requires
            old(self).can_render(vcount),
        ensures
            old(self).is_blank(vcount) ==> *final(self) == *old(self) && (forall|i: int|
                0 <= i < 256 ==> #[trigger] final(scanline_buffer).0[i] == 0xFFFF_FFFF),
            !old(self).is_blank(vcount) && old(self).display_mode() == 1 ==> {
                &&& forall|i: int|
                    0 <= i < 256 ==> #[trigger] final(self).window.0[i] == old(self).window_at(i)
                &&& forall|i: int|
                    0 <= i < 256 ==> #[trigger] final(self).bg_obj_scanline.0[i] == old(
                        self,
                    ).with_window(final(self).window).composed_dot(
                        old(self).control.bg_mode(),
                        vcount,
                        vram,
                        i,
                    )
                &&& forall|k: int|
                    0 <= k < 2 ==> #[trigger] final(self).affine_bg_data[k] == old(
                        self,
                    ).affine_after_line(old(self).control.bg_mode(), k)
                &&& *final(self) == (Engine2d {
                    window: final(self).window,
                    bg_obj_scanline: final(self).bg_obj_scanline,
                    affine_bg_data: final(self).affine_bg_data,
                    ..*old(self)
                })
                &&& forall|i: int|
                    0 <= i < 256 ==> #[trigger] final(scanline_buffer).0[i] == old(self).finish(
                        final(self).effect_dot(old(self).color_effects_control.color_effect(), i),
                    )
            },
            !old(self).is_blank(vcount) && old(self).display_mode() == 2 ==> *final(self) == *old(
                self,
            ) && (forall|i: int|
                0 <= i < 256 ==> #[trigger] final(scanline_buffer).0[i] == old(self).finish(
                    old(self).bank_dot(vcount, vram, i),
                )),
    {
        if vcount as usize >= SCREEN_HEIGHT || (!self.role.is_a() && !self.enabled) {
            Self::fill(scanline_buffer, 0xFFFF_FFFF);
            return ;
        }
        let display_mode: u8 = self.display_mode();
        if display_mode == 0 {
            Self::fill(scanline_buffer, 0xFFFF_FFFF);
            return ;
        } else if display_mode == 1 {
            self.render_windows();
            self.render_layers(vcount, vram);
            self.resolve_effects(scanline_buffer);
        } else if display_mode == 2 {
            let bank: u8 = self.control.a_vram_bank();
            proof {
                let word = self.control.0;
                assert((word >> 18 & 3) as u8 <= 3) by (bit_vector);
            }
            if vram.lcdc_bank_mst[bank as usize] == 0 {
                let line_base: usize = (vcount as usize) << 9;
                for i in 0..256usize
                    invariant
                        *self == *old(self),
                        bank == self.control.a_vram_bank(),
                        vram.lcdc_bank_mst[bank as int] == 0,
                        line_base == (vcount as usize) << 9,
                        forall|j: int|
                            0 <= j < i ==> #[trigger] scanline_buffer.0[j] == self.bank_dot(
                                vcount,
                                vram,
                                j,
                            ),
                {
                    scanline_buffer.0[i] =
                    rgb_15_to_18(vram.read_lcdc_16(bank, line_base | i << 1) as u32);
                }
            } else {
                Self::fill(scanline_buffer, 0);
            }
        } else {
            proof {
                let word = self.control.0;
                assert((word >> 16 & 3) as u8 <= 3 && (word >> 16 & 1) as u8 <= 1) by (bit_vector);
            }
        }
        self.finish_scanline(scanline_buffer);
    }
}

} // verus!
