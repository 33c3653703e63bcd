//! Colour formats, the conversions between them, and the per-channel
//! arithmetic of the blending and brightness effects.
//!
//! Three formats occur: 15-bit colours as stored in palette and bitmap memory
//! (three 5-bit channels), 18-bit colours as used while compositing (three
//! 6-bit channels), and the 32-bit colours of the finished scanline (four
//! 8-bit channels, the highest being an opaque alpha).

use vstd::prelude::*;

verus! {

/// Value of the 5-bit channel `ch` (0 = lowest) of a 15-bit colour.
pub open spec fn channel_5(value: u32, ch: u32) -> u32 {
    (value >> (5 * ch) as u32) & 0x1F
}

/// Value of the 6-bit channel `ch` (0 = lowest) of an 18-bit colour.
pub open spec fn channel_6(value: u32, ch: u32) -> u32 {
    (value >> (6 * ch) as u32) & 0x3F
}

/// Value of the 8-bit channel `ch` (0 = lowest) of a 32-bit colour.
pub open spec fn channel_8(value: u32, ch: u32) -> u32 {
    (value >> (8 * ch) as u32) & 0xFF
}

/// Expansion of a 15-bit colour to 18 bits, as a formula on the packed value.
pub open spec fn spec_rgb_15_to_18(value: u32) -> u32 {
    (value << 1 & 0x3E) | (value << 2 & 0xF80) | (value << 3 & 0x3_E000)
}

/// Expansion of an 18-bit colour to 32 bits, as a formula on the packed value.
pub open spec fn spec_rgb_18_to_rgba_32(value: u32) -> u32 {
    let rgb_6_8 = (value & 0x3F) | (value << 2 & 0x3F00) | (value << 4 & 0x3F_0000);
    0xFF00_0000 | rgb_6_8 << 2 | (rgb_6_8 >> 4 & 0x0003_0303)
}

/// An 8-bit channel made of a 6-bit one by repeating its two highest bits
/// below it.
pub open spec fn expand_6_to_8(c: u32) -> u32 {
    c << 2 | c >> 4
}

/// Expands a 15-bit colour to 18 bits: each channel is doubled. Bits above the
/// fifteenth are ignored.
pub fn rgb_15_to_18(value: u32) -> (out: u32)
    ensures
        out == spec_rgb_15_to_18(value),
        out <= 0x3_FFFF,
        channel_6(out, 0) == 2 * channel_5(value, 0),
        channel_6(out, 1) == 2 * channel_5(value, 1),
        channel_6(out, 2) == 2 * channel_5(value, 2),
{
    proof {
        lemma_rgb_15_to_18_channels(value);
    }
    (value << 1 & 0x3E) | (value << 2 & 0xF80) | (value << 3 & 0x3_E000)
}

/// Expands an 18-bit colour to an opaque 32-bit one: each 6-bit channel becomes
/// the 8-bit channel of the same position. Bits above the eighteenth are
/// ignored.
pub fn rgb_18_to_rgba_32(value: u32) -> (out: u32)
    ensures
        out == spec_rgb_18_to_rgba_32(value),
        channel_8(out, 0) == expand_6_to_8(channel_6(value, 0)),
        channel_8(out, 1) == expand_6_to_8(channel_6(value, 1)),
        channel_8(out, 2) == expand_6_to_8(channel_6(value, 2)),
        channel_8(out, 3) == 0xFF,
{
    proof {
        lemma_rgb_18_to_rgba_32_channels(value);
    }
    let rgb_6_8: u32 = (value & 0x3F) | (value << 2 & 0x3F00) | (value << 4 & 0x3F_0000);
    0xFF00_0000 | rgb_6_8 << 2 | (rgb_6_8 >> 4 & 0x0003_0303)
}

/// Channel by channel, the 18-bit expansion of a 15-bit colour is twice the
/// colour.
pub proof fn lemma_rgb_15_to_18_channels(value: u32)
    ensures
        spec_rgb_15_to_18(value) <= 0x3_FFFF,
        channel_6(spec_rgb_15_to_18(value), 0) == 2 * channel_5(value, 0),
        channel_6(spec_rgb_15_to_18(value), 1) == 2 * channel_5(value, 1),
        channel_6(spec_rgb_15_to_18(value), 2) == 2 * channel_5(value, 2),
{
    let out = spec_rgb_15_to_18(value);
    assert(out <= 0x3_FFFF && (out >> 0) & 0x3F == 2 * ((value >> 0) & 0x1F) && (out >> 6) & 0x3F
        == 2 * ((value >> 5) & 0x1F) && (out >> 12) & 0x3F == 2 * ((value >> 10) & 0x1F))
        by (bit_vector)
        requires
            out == (value << 1 & 0x3E) | (value << 2 & 0xF80) | (value << 3 & 0x3_E000),
    ;
}

/// Channel by channel, the 32-bit expansion of an 18-bit colour repeats the
/// high bits of each channel, under an alpha of 255.
pub proof fn lemma_rgb_18_to_rgba_32_channels(value: u32)
    ensures
        channel_8(spec_rgb_18_to_rgba_32(value), 0) == expand_6_to_8(channel_6(value, 0)),
        channel_8(spec_rgb_18_to_rgba_32(value), 1) == expand_6_to_8(channel_6(value, 1)),
        channel_8(spec_rgb_18_to_rgba_32(value), 2) == expand_6_to_8(channel_6(value, 2)),
        channel_8(spec_rgb_18_to_rgba_32(value), 3) == 0xFF,
        spec_rgb_18_to_rgba_32(value) == spec_rgb_18_to_rgba_32(value & 0x3_FFFF),
{
    let out = spec_rgb_18_to_rgba_32(value);
    let low = spec_rgb_18_to_rgba_32(value & 0x3_FFFF);
    assert((out >> 0) & 0xFF == (((value >> 0) & 0x3F) << 2 | ((value >> 0) & 0x3F) >> 4) && (out
        >> 8) & 0xFF == (((value >> 6) & 0x3F) << 2 | ((value >> 6) & 0x3F) >> 4) && (out >> 16)
        & 0xFF == (((value >> 12) & 0x3F) << 2 | ((value >> 12) & 0x3F) >> 4) && (out >> 24)
        & 0xFF == 0xFF && out == low) by (bit_vector)
        requires
            out == 0xFF00_0000u32 | ((value & 0x3F) | (value << 2 & 0x3F00) | (value << 4
                & 0x3F_0000)) << 2 | (((value & 0x3F) | (value << 2 & 0x3F00) | (value << 4
                & 0x3F_0000)) >> 4 & 0x0003_0303),
            low == 0xFF00_0000u32 | (((value & 0x3_FFFF) & 0x3F) | ((value & 0x3_FFFF) << 2
                & 0x3F00) | ((value & 0x3_FFFF) << 4 & 0x3F_0000)) << 2 | ((((value & 0x3_FFFF)
                & 0x3F) | ((value & 0x3_FFFF) << 2 & 0x3F00) | ((value & 0x3_FFFF) << 4
                & 0x3F_0000)) >> 4 & 0x0003_0303),
    ;
}

/// The smaller of two numbers.
pub open spec fn min_u32(a: u32, b: u32) -> u32 {
    if a < b {
        a
    } else {
        b
    }
}

/// Weighted sum of two 18-bit colours, in sixteenths, saturated channel by
/// channel. Products and sums are taken modulo 2^32; with coefficients of at
/// most 32 nothing wraps.
pub open spec fn spec_blend(color_a: u32, color_b: u32, coeff_a: u32, coeff_b: u32) -> u32 {
    let r = min_u32(
        (color_a & 0x3F).wrapping_mul(coeff_a).wrapping_add((color_b & 0x3F).wrapping_mul(coeff_b)),
        0x3F0,
    );
    let g = min_u32(
        (color_a & 0xFC0).wrapping_mul(coeff_a).wrapping_add(
            (color_b & 0xFC0).wrapping_mul(coeff_b),
        ),
        0xFC00,
    ) & 0xFC00;
    let b = min_u32(
        (color_a & 0x3_F000).wrapping_mul(coeff_a).wrapping_add(
            (color_b & 0x3_F000).wrapping_mul(coeff_b),
        ),
        0x3F_0000,
    ) & 0x3F_0000;
    (r | g | b) >> 4
}

/// One 6-bit channel of a blend: the weighted sum in sixteenths, saturated at
/// the channel's maximum, fraction dropped.
pub open spec fn blend_channel(a: u32, b: u32, coeff_a: u32, coeff_b: u32) -> int {
    let sum = a * coeff_a + b * coeff_b;
    (if sum < 0x3F0 {
        sum
    } else {
        0x3F0
    }) / 16
}

/// Blends two 18-bit colours with the given weights in sixteenths. Bits above
/// the eighteenth of either colour are ignored.
pub fn blend(color_a: u32, color_b: u32, coeff_a: u32, coeff_b: u32) -> (out: u32)
    ensures
        out == spec_blend(color_a, color_b, coeff_a, coeff_b),
{
    let r_sum: u32 = (color_a & 0x3F).wrapping_mul(coeff_a).wrapping_add(
        (color_b & 0x3F).wrapping_mul(coeff_b),
    );
    let r: u32 = if r_sum < 0x3F0 {
        r_sum
    } else {
        0x3F0
    };
    let g_sum: u32 = (color_a & 0xFC0).wrapping_mul(coeff_a).wrapping_add(
        (color_b & 0xFC0).wrapping_mul(coeff_b),
    );
    let g: u32 = (if g_sum < 0xFC00 {
        g_sum
    } else {
        0xFC00
    }) & 0xFC00;
    let b_sum: u32 = (color_a & 0x3_F000).wrapping_mul(coeff_a).wrapping_add(
        (color_b & 0x3_F000).wrapping_mul(coeff_b),
    );
    let b: u32 = (if b_sum < 0x3F_0000 {
        b_sum
    } else {
        0x3F_0000
    }) & 0x3F_0000;
    (r | g | b) >> 4
}

/// The amount by which a brightness effect of strength `coeff` sixteenths
/// moves each channel of `color` towards zero; applied to a colour's
/// complement it is the amount that moves the colour towards white.
pub open spec fn spec_brightness_delta(color: u32, coeff: u32) -> u32 {
    (((color & 0x3_F03F).wrapping_mul(coeff) & 0x3F_03F0) | ((color & 0xFC0).wrapping_mul(coeff)
        & 0xFC00)) >> 4
}

/// A colour brightened by `coeff` sixteenths of the way to white.
pub open spec fn spec_brightness_increase(color: u32, coeff: u32) -> u32 {
    color.wrapping_add(spec_brightness_delta(0x3_FFFF ^ color, coeff))
}

/// A colour darkened by `coeff` sixteenths of the way to black.
pub open spec fn spec_brightness_decrease(color: u32, coeff: u32) -> u32 {
    color.wrapping_sub(spec_brightness_delta(color, coeff))
}

/// Brightens the 18-bit colour in the low bits of `color`; higher bits pass
/// through.
pub fn brightness_increase(color: u32, coeff: u32) -> (out: u32)
    ensures
        out == spec_brightness_increase(color, coeff),
{
    let complement: u32 = 0x3_FFFF ^ color;
    let increment: u32 = (((complement & 0x3_F03F).wrapping_mul(coeff) & 0x3F_03F0) | ((complement
        & 0xFC0).wrapping_mul(coeff) & 0xFC00)) >> 4;
    color.wrapping_add(increment)
}

/// Darkens the 18-bit colour in the low bits of `color`; higher bits pass
/// through.
pub fn brightness_decrease(color: u32, coeff: u32) -> (out: u32)
    ensures
        out == spec_brightness_decrease(color, coeff),
{
    let decrement: u32 = (((color & 0x3_F03F).wrapping_mul(coeff) & 0x3F_03F0) | ((color
        & 0xFC0).wrapping_mul(coeff) & 0xFC00)) >> 4;
    color.wrapping_sub(decrement)
}

/// Bounds of the three channel fields of a packed 18-bit colour, and their
/// relation to the channel values.
proof fn lemma_channel_fields(color: u32)
    by (bit_vector)
    ensures
        color & 0x3F == (color >> 0) & 0x3F,
        color & 0xFC0 == 64 * ((color >> 6) & 0x3F),
        color & 0x3_F000 == 4096 * ((color >> 12) & 0x3F),
        color & 0x3_F03F == ((color >> 0) & 0x3F) + 4096 * ((color >> 12) & 0x3F),
        (color >> 0) & 0x3F <= 63,
        (color >> 6) & 0x3F <= 63,
        (color >> 12) & 0x3F <= 63,
        ((0x3_FFFFu32 ^ color) >> 0) & 0x3F == 63 - ((color >> 0) & 0x3F),
        ((0x3_FFFFu32 ^ color) >> 6) & 0x3F == 63 - ((color >> 6) & 0x3F),
        ((0x3_FFFFu32 ^ color) >> 12) & 0x3F == 63 - ((color >> 12) & 0x3F),
{
}

/// Packing three saturated channel sums as a blend does.
proof fn lemma_blend_pack(s0: u32, s1: u32, s2: u32, out: u32)
    by (bit_vector)
    requires
        s0 <= 4032,
        s1 <= 4032,
        s2 <= 4032,
        out == ((if s0 < 0x3F0 {
            s0
        } else {
            0x3F0
        }) | ((if 64 * s1 < 0xFC00 {
            (64 * s1) as u32
        } else {
            0xFC00
        }) & 0xFC00) | ((if 4096 * s2 < 0x3F_0000 {
            (4096 * s2) as u32
        } else {
            0x3F_0000
        }) & 0x3F_0000)) >> 4,
    ensures
        out <= 0x3_FFFF,
        (out >> 0) & 0x3F == (if s0 < 0x3F0 {
            s0
        } else {
            0x3F0
        }) / 16,
        (out >> 6) & 0x3F == (if s1 < 0x3F0 {
            s1
        } else {
            0x3F0
        }) / 16,
        (out >> 12) & 0x3F == (if s2 < 0x3F0 {
            s2
        } else {
            0x3F0
        }) / 16,
{
}

/// With weights of at most 32 sixteenths, a blend is the saturated weighted
/// sum of its operands, channel by channel.
pub proof fn lemma_blend_channels(color_a: u32, color_b: u32, coeff_a: u32, coeff_b: u32)
    requires
        coeff_a <= 32,
        coeff_b <= 32,
    ensures
        spec_blend(color_a, color_b, coeff_a, coeff_b) <= 0x3_FFFF,
        forall|ch: u32|
            ch < 3 ==> #[trigger] channel_6(spec_blend(color_a, color_b, coeff_a, coeff_b), ch)
                == blend_channel(
                channel_6(color_a, ch),
                channel_6(color_b, ch),
                coeff_a,
                coeff_b,
            ),
{
    lemma_channel_fields(color_a);
    lemma_channel_fields(color_b);
    let a0 = channel_6(color_a, 0);
    let a1 = channel_6(color_a, 1);
    let a2 = channel_6(color_a, 2);
    let b0 = channel_6(color_b, 0);
    let b1 = channel_6(color_b, 1);
    let b2 = channel_6(color_b, 2);
    lemma_weighted_sum(a0, b0, coeff_a, coeff_b, 1);
    lemma_weighted_sum(a1, b1, coeff_a, coeff_b, 64);
    lemma_weighted_sum(a2, b2, coeff_a, coeff_b, 4096);
    let s0 = (a0 * coeff_a + b0 * coeff_b) as u32;
    let s1 = (a1 * coeff_a + b1 * coeff_b) as u32;
    let s2 = (a2 * coeff_a + b2 * coeff_b) as u32;
    let out = spec_blend(color_a, color_b, coeff_a, coeff_b);
    lemma_blend_pack(s0, s1, s2, out);
    assert forall|ch: u32| ch < 3 implies #[trigger] channel_6(out, ch) == blend_channel(
        channel_6(color_a, ch),
        channel_6(color_b, ch),
        coeff_a,
        coeff_b,
    ) by {
        if ch == 0 {
        } else if ch == 1 {
        } else {
            assert(ch == 2);
        }
    }
}

/// The weighted sum of two channel values placed at `unit` neither wraps nor
/// exceeds the field it is computed in.
proof fn lemma_weighted_sum(a: u32, b: u32, coeff_a: u32, coeff_b: u32, unit: u32)
    requires
        a <= 63,
        b <= 63,
        coeff_a <= 32,
        coeff_b <= 32,
        unit <= 4096,
    ensures
        a * coeff_a + b * coeff_b <= 4032,
        ((unit * a) as u32).wrapping_mul(coeff_a).wrapping_add(
            ((unit * b) as u32).wrapping_mul(coeff_b),
        ) == unit * (a * coeff_a + b * coeff_b),
{
    assert(a * coeff_a <= 63 * 32 && b * coeff_b <= 63 * 32 && unit * a <= 4096 * 63 && unit * b
        <= 4096 * 63 && (unit * a) * coeff_a == unit * (a * coeff_a) && (unit * b) * coeff_b
        == unit * (b * coeff_b) && unit * (a * coeff_a) <= 4096 * (63 * 32) && unit * (b
        * coeff_b) <= 4096 * (63 * 32) && unit * (a * coeff_a + b * coeff_b) == unit * (a
        * coeff_a) + unit * (b * coeff_b) && a * coeff_a >= 0 && b * coeff_b >= 0 && unit * a >= 0
        && unit * b >= 0 && unit * (a * coeff_a) >= 0 && unit * (b * coeff_b) >= 0)
        by (nonlinear_arith)
        requires
            a <= 63,
            b <= 63,
            coeff_a <= 32,
            coeff_b <= 32,
            unit <= 4096,
    ;
}

/// A blend that gives the first colour its full weight and the second none
/// returns the first colour.
pub proof fn lemma_blend_full_weight(color_a: u32, color_b: u32)
    ensures
        spec_blend(color_a, color_b, 16, 0) == color_a & 0x3_FFFF,
        spec_rgb_18_to_rgba_32(spec_blend(color_a, color_b, 16, 0)) == spec_rgb_18_to_rgba_32(
            color_a,
        ),
{
    lemma_blend_channels(color_a, color_b, 16, 0);
    lemma_channel_fields(color_a);
    let out = spec_blend(color_a, color_b, 16, 0);
    assert(channel_6(out, 0) == channel_6(color_a, 0) && channel_6(out, 1) == channel_6(color_a, 1)
        && channel_6(out, 2) == channel_6(color_a, 2));
    assert(out == color_a & 0x3_FFFF) by (bit_vector)
        requires
            out <= 0x3_FFFF,
            (out >> 0) & 0x3F == (color_a >> 0) & 0x3F,
            (out >> 6) & 0x3F == (color_a >> 6) & 0x3F,
            (out >> 12) & 0x3F == (color_a >> 12) & 0x3F,
    ;
    lemma_rgb_18_to_rgba_32_channels(color_a);
}

/// One 6-bit channel brightened by `coeff` sixteenths of its distance to the
/// maximum.
pub open spec fn brighter_channel(c: u32, coeff: u32) -> int {
    c + ((63 - c) * coeff) / 16
}

/// One 6-bit channel darkened by `coeff` sixteenths of its value.
pub open spec fn darker_channel(c: u32, coeff: u32) -> int {
    c - (c * coeff) / 16
}

/// Packing three channel products as a brightness step does.
proof fn lemma_brightness_delta_pack(low: u32, mid: u32, high: u32, delta: u32)
    by (bit_vector)
    requires
        low <= 1008,
        mid <= 1008,
        high <= 1008,
        delta == ((((low + 4096 * high) as u32) & 0x3F_03F0) | (((64 * mid) as u32) & 0xFC00))
            >> 4,
    ensures
        delta == (low / 16) | (mid / 16) << 6 | (high / 16) << 12,
{
}

/// Adding to each channel no more than what it lacks to its maximum changes
/// the channels one by one and nothing above them.
proof fn lemma_add_within_channels(color: u32, d0: u32, d1: u32, d2: u32)
    by (bit_vector)
    requires
        d0 <= 63 - ((color >> 0) & 0x3F),
        d1 <= 63 - ((color >> 6) & 0x3F),
        d2 <= 63 - ((color >> 12) & 0x3F),
    ensures
        color + (d0 | d1 << 6 | d2 << 12) <= 0xFFFF_FFFF,
        (((color + (d0 | d1 << 6 | d2 << 12)) as u32) >> 0) & 0x3F == ((color >> 0) & 0x3F) + d0,
        (((color + (d0 | d1 << 6 | d2 << 12)) as u32) >> 6) & 0x3F == ((color >> 6) & 0x3F) + d1,
        (((color + (d0 | d1 << 6 | d2 << 12)) as u32) >> 12) & 0x3F == ((color >> 12) & 0x3F) + d2,
        ((color + (d0 | d1 << 6 | d2 << 12)) as u32) >> 18 == color >> 18,
{
}

/// Taking from each channel no more than it holds changes the channels one by
/// one and nothing above them.
proof fn lemma_sub_within_channels(color: u32, d0: u32, d1: u32, d2: u32)
    by (bit_vector)
    requires
        d0 <= (color >> 0) & 0x3F,
        d1 <= (color >> 6) & 0x3F,
        d2 <= (color >> 12) & 0x3F,
    ensures
        color >= (d0 | d1 << 6 | d2 << 12),
        (((color - (d0 | d1 << 6 | d2 << 12)) as u32) >> 0) & 0x3F == ((color >> 0) & 0x3F) - d0,
        (((color - (d0 | d1 << 6 | d2 << 12)) as u32) >> 6) & 0x3F == ((color >> 6) & 0x3F) - d1,
        (((color - (d0 | d1 << 6 | d2 << 12)) as u32) >> 12) & 0x3F == ((color >> 12) & 0x3F) - d2,
        ((color - (d0 | d1 << 6 | d2 << 12)) as u32) >> 18 == color >> 18,
{
}

/// The products of a brightness step neither wrap nor leave their fields.
proof fn lemma_brightness_products(c0: u32, c1: u32, c2: u32, coeff: u32)
    requires
        c0 <= 63,
        c1 <= 63,
        c2 <= 63,
        coeff <= 16,
    ensures
        c0 * coeff <= 1008,
        c1 * coeff <= 1008,
        c2 * coeff <= 1008,
        (c0 * coeff) / 16 <= c0,
        (c1 * coeff) / 16 <= c1,
        (c2 * coeff) / 16 <= c2,
        ((c0 + 4096 * c2) as u32).wrapping_mul(coeff) == c0 * coeff + 4096 * (c2 * coeff),
        ((64 * c1) as u32).wrapping_mul(coeff) == 64 * (c1 * coeff),
{
    assert(0 <= c0 * coeff <= c0 * 16 && 0 <= c1 * coeff <= c1 * 16 && 0 <= c2 * coeff <= c2 * 16
        && (c0 + 4096 * c2) * coeff == c0 * coeff + 4096 * (c2 * coeff) && (64 * c1) * coeff == 64
        * (c1 * coeff)) by (nonlinear_arith)
        requires
            c0 <= 63,
            c1 <= 63,
            c2 <= 63,
            coeff <= 16,
    ;
}

/// The step of a brightness effect, channel by channel.
proof fn lemma_brightness_delta(color: u32, coeff: u32)
    requires
        coeff <= 16,
    ensures
        spec_brightness_delta(color, coeff) == (((channel_6(color, 0) * coeff) / 16) as u32) | (((
        channel_6(color, 1) * coeff) / 16) as u32) << 6 | (((channel_6(color, 2) * coeff)
            / 16) as u32) << 12,
{
    lemma_channel_fields(color);
    let c0 = channel_6(color, 0);
    let c1 = channel_6(color, 1);
    let c2 = channel_6(color, 2);
    lemma_brightness_products(c0, c1, c2, coeff);
    lemma_brightness_delta_pack(
        (c0 * coeff) as u32,
        (c1 * coeff) as u32,
        (c2 * coeff) as u32,
        spec_brightness_delta(color, coeff),
    );
}

/// With a strength of at most 16 sixteenths, brightening moves each channel
/// towards its maximum by that share of the distance, and leaves the bits above
/// the colour alone.
pub proof fn lemma_brightness_increase_channels(color: u32, coeff: u32)
    requires
        coeff <= 16,
    ensures
        forall|ch: u32|
            ch < 3 ==> #[trigger] channel_6(spec_brightness_increase(color, coeff), ch)
                == brighter_channel(channel_6(color, ch), coeff),
        spec_brightness_increase(color, coeff) >> 18 == color >> 18,
{
    let inverse = 0x3_FFFFu32 ^ color;
    lemma_channel_fields(color);
    lemma_brightness_delta(inverse, coeff);
    let i0 = channel_6(inverse, 0);
    let i1 = channel_6(inverse, 1);
    let i2 = channel_6(inverse, 2);
    lemma_channel_fields(inverse);
    lemma_brightness_products(i0, i1, i2, coeff);
    lemma_add_within_channels(
        color,
        ((i0 * coeff) / 16) as u32,
        ((i1 * coeff) / 16) as u32,
        ((i2 * coeff) / 16) as u32,
    );
    let out = spec_brightness_increase(color, coeff);
    assert forall|ch: u32| ch < 3 implies #[trigger] channel_6(out, ch) == brighter_channel(
        channel_6(color, ch),
        coeff,
    ) by {
        if ch == 0 {
        } else if ch == 1 {
        } else {
            assert(ch == 2);
        }
    }
}

/// With a strength of at most 16 sixteenths, darkening takes from each channel
/// that share of its value, and leaves the bits above the colour alone.
pub proof fn lemma_brightness_decrease_channels(color: u32, coeff: u32)
    requires
        coeff <= 16,
    ensures
        forall|ch: u32|
            ch < 3 ==> #[trigger] channel_6(spec_brightness_decrease(color, coeff), ch)
                == darker_channel(channel_6(color, ch), coeff),
        spec_brightness_decrease(color, coeff) >> 18 == color >> 18,
{
    lemma_channel_fields(color);
    lemma_brightness_delta(color, coeff);
    let c0 = channel_6(color, 0);
    let c1 = channel_6(color, 1);
    let c2 = channel_6(color, 2);
    lemma_brightness_products(c0, c1, c2, coeff);
    lemma_sub_within_channels(
        color,
        ((c0 * coeff) / 16) as u32,
        ((c1 * coeff) / 16) as u32,
        ((c2 * coeff) / 16) as u32,
    );
    let out = spec_brightness_decrease(color, coeff);
    assert forall|ch: u32| ch < 3 implies #[trigger] channel_6(out, ch) == darker_channel(
        channel_6(color, ch),
        coeff,
    ) by {
        if ch == 0 {
        } else if ch == 1 {
        } else {
            assert(ch == 2);
        }
    }
}

} // verus!
