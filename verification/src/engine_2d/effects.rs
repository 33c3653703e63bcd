//! The colour effect stage: from the two topmost pixels of each dot to one
//! 18-bit colour.

use crate::color::{
    blend, brightness_decrease, brightness_increase, lemma_blend_full_weight, spec_blend,
    spec_brightness_decrease, spec_brightness_increase, spec_rgb_18_to_rgba_32,
};
use crate::engine_2d::{Engine2d, Scanline};
use crate::pixel::{pair_next, pair_top, pixel_pair, BgObjPixel, WindowPixel};
use vstd::prelude::*;

verus! {

/// The weights of a forced blend: the top pixel's own alpha and what it lacks
/// to 16 where the pixel has a custom alpha, the registers' weights
/// otherwise.
pub open spec fn forced_blend_coeffs(top: BgObjPixel, coeffs: (u8, u8)) -> (u32, u32) {
    if top.custom_alpha() {
        (top.alpha() as u32, 16u32.wrapping_sub(top.alpha() as u32))
    } else {
        (coeffs.0 as u32, coeffs.1 as u32)
    }
}

/// The colour of one dot after the colour effect `effect` (0 none, 1
/// blending, 2 brightening, anything else darkening).
///
/// Effects apply only where the window enables them. A top pixel that forces
/// blending is blended with the pixel below it whenever that pixel's layer is
/// a second target, whatever the effect. Otherwise the effect applies where
/// the top pixel's layer is a first target; blending also needs the pixel
/// below to be a second target. A dot to which nothing applies keeps its top
/// pixel, attribute bits included.
pub open spec fn color_effect_dot(
    effect: u8,
    pair: u64,
    window: WindowPixel,
    target_1_mask: u8,
    target_2_mask: u8,
    coeffs: (u8, u8),
    brightness_coeff: u8,
) -> u32 {
    let top = BgObjPixel(pair_top(pair));
    let bot = BgObjPixel(pair_next(pair));
    let bot_matches = bot.color_effects_mask() & target_2_mask != 0;
    if !window.color_effects_enabled() {
        top.0
    } else if top.force_blending() && bot_matches {
        let weights = forced_blend_coeffs(top, coeffs);
        spec_blend(top.0, bot.0, weights.0, weights.1)
    } else if effect != 0 && top.color_effects_mask() & target_1_mask != 0 {
        if effect == 1 {
            if bot_matches {
                spec_blend(top.0, bot.0, coeffs.0 as u32, coeffs.1 as u32)
            } else {
                top.0
            }
        } else if effect == 2 {
            spec_brightness_increase(top.0, brightness_coeff as u32)
        } else {
            spec_brightness_decrease(top.0, brightness_coeff as u32)
        }
    } else {
        top.0
    }
}

impl Engine2d {
    /// The colour of dot `i` of the composited scanline after colour effect
    /// `effect`.
    pub open spec fn effect_dot(&self, effect: u8, i: int) -> u32 {
        color_effect_dot(
            effect,
            self.bg_obj_scanline.0[i],
            self.window.0[i],
            self.color_effects_control.target_1_mask(),
            self.color_effects_control.target_2_mask(),
            self.blend_coeffs,
            self.brightness_coeff,
        )
    }

    /// Resolves the composited scanline into `scanline_buffer` under colour
    /// effect `EFFECT`.
    pub fn apply_color_effects<const EFFECT: u8>(&self, scanline_buffer: &mut Scanline<u32>)
        ensures
            forall|i: int|
                0 <= i < 256 ==> #[trigger] final(scanline_buffer).0[i] == self.effect_dot(
                    EFFECT,
                    i,
                ),
    {
        let target_1_mask = self.color_effects_control.target_1_mask();
        let target_2_mask = self.color_effects_control.target_2_mask();
        let a_coeff: u32 = self.blend_coeffs.0 as u32;
        let b_coeff: u32 = self.blend_coeffs.1 as u32;
        let brightness_coeff: u32 = self.brightness_coeff as u32;
        for i in 0..256usize
            invariant
                target_1_mask == self.color_effects_control.target_1_mask(),
                target_2_mask == self.color_effects_control.target_2_mask(),
                a_coeff == self.blend_coeffs.0,
                b_coeff == self.blend_coeffs.1,
                brightness_coeff == self.brightness_coeff,
                forall|j: int| 0 <= j < i ==> scanline_buffer.0[j] == self.effect_dot(EFFECT, j),
        {
            let pixel: u64 = self.bg_obj_scanline.0[i];
            let top = BgObjPixel(pixel as u32);
            let color: u32 = if self.window.0[i].color_effects_enabled() {
                let bot = BgObjPixel((pixel >> 32) as u32);
                let top_mask = top.color_effects_mask();
                let bot_matches = bot.color_effects_mask() & target_2_mask != 0;
                if top.force_blending() && bot_matches {
                    if top.custom_alpha() {
                        blend(
                            top.0,
                            bot.0,
                            top.alpha() as u32,
                            16u32.wrapping_sub(top.alpha() as u32),
                        )
                    } else {
                        blend(top.0, bot.0, a_coeff, b_coeff)
                    }
                } else if EFFECT != 0 && top_mask & target_1_mask != 0 {
                    if EFFECT == 1 {
                        if bot_matches {
                            blend(top.0, bot.0, a_coeff, b_coeff)
                        } else {
                            top.0
                        }
                    } else if EFFECT == 2 {
                        brightness_increase(top.0, brightness_coeff)
                    } else {
                        brightness_decrease(top.0, brightness_coeff)
                    }
                } else {
                    top.0
                }
            } else {
                top.0
            };
            scanline_buffer.0[i] = color;
        }
    }
}

/// Blending with the whole weight on the top pixel changes nothing that is
/// displayed: of a dot whose top pixel has no alpha of its own, the displayed
/// colour is that of the top pixel.
pub proof fn lemma_full_weight_blend_keeps_top(
    pair: u64,
    window: WindowPixel,
    target_1_mask: u8,
    target_2_mask: u8,
    brightness_coeff: u8,
)
    requires
        !BgObjPixel(pair_top(pair)).custom_alpha(),
    ensures
        spec_rgb_18_to_rgba_32(
            color_effect_dot(
                1,
                pair,
                window,
                target_1_mask,
                target_2_mask,
                (16u8, 0u8),
                brightness_coeff,
            ),
        ) == spec_rgb_18_to_rgba_32(pair_top(pair)),
{
    lemma_blend_full_weight(pair_top(pair), pair_next(pair));
}

/// The halves of a pair are the pixels it was made of, and a pair without a
/// second pixel is its top pixel alone.
pub proof fn lemma_pair_halves(top: u32, next: u32)
    ensures
        pair_top(pixel_pair(top, next)) == top,
        pair_next(pixel_pair(top, next)) == next,
        pixel_pair(top, 0) == top as u64,
{
    assert(((top as u64) | (next as u64) << 32) as u32 == top && (((top as u64) | (next as u64)
        << 32) >> 32) as u32 == next && ((top as u64) | (0u32 as u64) << 32) == top as u64)
        by (bit_vector);
}

/// A pixel of zero is of no layer: it is in no set of targets.
pub proof fn lemma_no_pixel_is_no_target(target_mask: u8)
    ensures
        BgObjPixel(0).color_effects_mask() & target_mask == 0,
{
    assert(((0u32 >> 26) as u8) & target_mask == 0) by (bit_vector);
}

/// The colour of a dot that has no second pixel, as a dot has to which
/// nothing but the backdrop was written: the top pixel is never blended,
/// whatever it asks for and whatever the targets are. It is brightened or
/// darkened where that effect is selected, the window enables effects and
/// the pixel's layer is a first target, and is left as it is otherwise.
pub proof fn lemma_lone_pixel_is_not_blended(
    effect: u8,
    pixel: u32,
    window: WindowPixel,
    target_1_mask: u8,
    target_2_mask: u8,
    coeffs: (u8, u8),
    brightness_coeff: u8,
)
    ensures
        color_effect_dot(
            effect,
            pixel_pair(pixel, 0),
            window,
            target_1_mask,
            target_2_mask,
            coeffs,
            brightness_coeff,
        ) == (if !window.color_effects_enabled() || effect == 0 || effect == 1 || BgObjPixel(
            pixel,
        ).color_effects_mask() & target_1_mask == 0 {
            pixel
        } else if effect == 2 {
            spec_brightness_increase(pixel, brightness_coeff as u32)
        } else {
            spec_brightness_decrease(pixel, brightness_coeff as u32)
        }),
{
    lemma_pair_halves(pixel, 0);
    lemma_no_pixel_is_no_target(target_2_mask);
}

} // verus!
