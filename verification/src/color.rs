//! Colours on their way out: gamma, quantisation, and the text of a pixel.

use crate::interval::Interval;
use crate::rounding::{
    lemma_floor_scaled_below_one,
    lemma_floor_scaled_is_monotone,
    lemma_scaled_quotient,
};
use vstd::arithmetic::power2::{lemma2_to64_rest, pow2};
use crate::scalar::Scalar;
use crate::vec3::Vec3;
use vstd::prelude::*;

verus! {

/// The pattern of 0.999, the brightest intensity that is written. Times 256
/// it stays below 256, so no channel leaves the range of a byte.
pub const INTENSITY_MAX: u64 = 0x3fef_f7ce_d916_872b;

/// A finished pixel: its averaged linear colour, and the square root of
/// each channel of it, which the caller has taken.
#[derive(Debug, Clone, Copy)]
pub struct Pixel {
    pub color: Vec3,
    pub roots: Vec3,
}

/// A colour from its red, green and blue channels.
pub fn color(x: Scalar, y: Scalar, z: Scalar) -> (c: Vec3)
    ensures
        c == (Vec3 { x, y, z }),
{
    Vec3::builder().xyz(x, y, z).build()
}

/// The range of intensities that are written: from 0 to 0.999.
pub open spec fn intensity() -> Interval {
    Interval { min: Scalar::spec_zero(), max: Scalar { bits: INTENSITY_MAX } }
}

/// The gamma-2 encoding of a linear channel whose square root is `root`:
/// the root where the channel is above zero, and zero where it is not.
pub open spec fn spec_linear_to_gamma(linear_component: Scalar, root: Scalar) -> Scalar {
    if linear_component.spec_gt(Scalar::spec_zero()) {
        root
    } else {
        Scalar::spec_zero()
    }
}

/// The byte of an encoded channel: the channel clamped to the range of
/// written intensities, times 256, rounded down.
pub open spec fn spec_channel_byte(encoded: Scalar) -> u64 {
    intensity().spec_clamp(encoded).spec_to_u64_scaled(8)
}

/// The byte of a linear channel whose square root is `root`.
pub open spec fn spec_byte(linear_component: Scalar, root: Scalar) -> u64 {
    spec_channel_byte(spec_linear_to_gamma(linear_component, root))
}

/// The decimal digits of `n` in ASCII, without leading zeros.
pub open spec fn decimal(n: nat) -> Seq<u8>
    decreases n,
{
    if n < 10 {
        seq![(48 + n) as u8]
    } else {
        decimal(n / 10).push((48 + n % 10) as u8)
    }
}

/// The number that a string of ASCII digits spells.
pub open spec fn decimal_value(digits: Seq<u8>) -> nat
    decreases digits.len(),
{
    if digits.len() == 0 {
        0
    } else {
        (decimal_value(digits.drop_last()) * 10 + (digits.last() - 48)) as nat
    }
}

/// The line of one pixel: its three bytes in decimal, separated by single
/// spaces and closed by a newline.
pub open spec fn triple(r: nat, g: nat, b: nat) -> Seq<u8> {
    decimal(r) + seq![32u8] + decimal(g) + seq![32u8] + decimal(b) + seq![10u8]
}

/// The line of a pixel.
pub open spec fn pixel_line(pixel: Pixel) -> Seq<u8> {
    triple(
        spec_byte(pixel.color.x, pixel.roots.x) as nat,
        spec_byte(pixel.color.y, pixel.roots.y) as nat,
        spec_byte(pixel.color.z, pixel.roots.z) as nat,
    )
}

/// The head of a plain-text pixmap of the given size, with 255 as the
/// largest channel value: the format's two-letter mark, the width and the
/// height, and `255`, on three lines.
pub open spec fn ppm_header(width: nat, height: nat) -> Seq<u8> {
    seq![80u8, 51u8, 10u8] + decimal(width) + seq![32u8] + decimal(height) + seq![
        10u8,
        50u8,
        53u8,
        53u8,
        10u8,
    ]
}

/// The lines of the first `n` pixels, one after the other.
pub open spec fn ppm_body(pixels: Seq<Pixel>, n: nat) -> Seq<u8>
    decreases n,
{
    if n == 0 {
        Seq::<u8>::empty()
    } else {
        ppm_body(pixels, (n - 1) as nat) + pixel_line(pixels[n - 1])
    }
}

/// The gamma-2 encoding of a linear channel. `root` is the square root of
/// `linear_component`; it is read only where the channel is above zero.
#[verifier::when_used_as_spec(spec_linear_to_gamma)]
pub fn linear_to_gamma(linear_component: Scalar, root: Scalar) -> (r: Scalar)
    ensures
        r == spec_linear_to_gamma(linear_component, root),
{
    if linear_component.gt(Scalar::zero()) {
        return root;
    }
    Scalar::zero()
}

/// The byte that an encoded channel is written as: 0 for a channel at or
/// below zero and for what is not a number, 255 from 0.999 on, and in
/// between the channel times 256, rounded down.
pub fn channel_byte(encoded: Scalar) -> (b: u8)
    ensures
        b == spec_channel_byte(encoded),
{
    let range = Interval { min: Scalar::zero(), max: Scalar { bits: INTENSITY_MAX } };
    let c = range.clamp(encoded);
    proof {
        if !c.spec_is_nan() && !c.negative() {
            lemma_floor_scaled_below_one(c);
        }
    }
    let v: u64 = c.to_u64_scaled(8);
    v as u8
}

/// Appends the decimal digits of `n`.
pub fn push_decimal(out: &mut Vec<u8>, n: u64)
    ensures
        final(out)@ == old(out)@ + decimal(n as nat),
    decreases n,
{
    if n >= 10 {
        push_decimal(out, n / 10);
    }
    let digit: u8 = (48 + n % 10) as u8;
    out.push(digit);
    proof {
        assert(final(out)@ =~= old(out)@ + decimal(n as nat));
    }
}

/// Appends the line of one pixel to `out`: each channel is gamma-encoded,
/// clamped to the range of written intensities and scaled to a byte, and
/// the three bytes are written in decimal, separated by single spaces and
/// closed by a newline.
pub fn write_color(out: &mut Vec<u8>, pixel: &Pixel)
    ensures
        final(out)@ == old(out)@ + pixel_line(*pixel),
{
    let r = linear_to_gamma(pixel.color.x, pixel.roots.x);
    let g = linear_to_gamma(pixel.color.y, pixel.roots.y);
    let b = linear_to_gamma(pixel.color.z, pixel.roots.z);

    let rbyte = channel_byte(r);
    let gbyte = channel_byte(g);
    let bbyte = channel_byte(b);

    push_decimal(out, rbyte as u64);
    out.push(32u8);
    push_decimal(out, gbyte as u64);
    out.push(32u8);
    push_decimal(out, bbyte as u64);
    out.push(10u8);
    proof {
        assert(final(out)@ =~= old(out)@ + pixel_line(*pixel));
    }
}

/// Appends the head of a plain-text pixmap of the given size to `out`.
pub fn write_header(out: &mut Vec<u8>, width: u64, height: u64)
    ensures
        final(out)@ == old(out)@ + ppm_header(width as nat, height as nat),
{
    out.push(80u8);
    out.push(51u8);
    out.push(10u8);
    push_decimal(out, width);
    out.push(32u8);
    push_decimal(out, height);
    out.push(10u8);
    out.push(50u8);
    out.push(53u8);
    out.push(53u8);
    out.push(10u8);
    proof {
        assert(final(out)@ =~= old(out)@ + ppm_header(width as nat, height as nat));
    }
}

/// The digits of a number spell that number, each is an ASCII digit, and
/// the first is `0` for zero only.
pub proof fn lemma_decimal_spells(n: nat)
    ensures
        decimal_value(decimal(n)) == n,
        decimal(n).len() >= 1,
        forall|i: int| 0 <= i < decimal(n).len() ==> 48 <= #[trigger] decimal(n)[i] <= 57,
        decimal(n)[0] == 48 <==> n == 0,
    decreases n,
{
    if n >= 10 {
        lemma_decimal_spells(n / 10);
        let head = decimal(n / 10);
        let all = decimal(n);
        assert(all.drop_last() =~= head);
        assert(all[0] == head[0]);
    } else {
        let all = decimal(n);
        assert(all.drop_last() =~= Seq::<u8>::empty());
        assert(decimal_value(all.drop_last()) == 0);
    }
}

/// A brighter channel never gets a smaller byte.
pub proof fn lemma_byte_is_monotone(a: Scalar, b: Scalar)
    requires
        a.spec_le(b),
    ensures
        spec_channel_byte(a) <= spec_channel_byte(b),
{
    let ca = intensity().spec_clamp(a);
    let cb = intensity().spec_clamp(b);
    assert(ca.spec_le(cb));
    if !ca.negative() && !cb.negative() {
        lemma_floor_scaled_is_monotone(ca, cb, 8);
        lemma_floor_scaled_below_one(ca);
        lemma_floor_scaled_below_one(cb);
    } else if !ca.negative() {
        assert(ca.magnitude() == 0);
        assert(ca.units() == 0) by {
            assert(ca.significand() == 0);
            assert(ca.significand() * pow2(ca.places()) == 0) by (nonlinear_arith)
                requires
                    ca.significand() == 0,
            ;
        }
        assert(ca.units() * pow2(8) == 0) by (nonlinear_arith)
            requires
                ca.units() == 0,
        ;
        vstd::arithmetic::power2::lemma_pow2_pos(1074);
        vstd::arithmetic::div_mod::lemma_basic_div(0, pow2(1074) as int);
    }
}

/// The two ends of the scale: a channel that is not above zero is written
/// as 0, and so is what is not a number; a channel of 0.999 or more is
/// written as 255. A linear channel that is not above zero is written as
/// 0 whatever was handed in as its root.
pub proof fn lemma_byte_ends(encoded: Scalar, root: Scalar)
    ensures
        !encoded.spec_gt(Scalar::spec_zero()) ==> spec_channel_byte(encoded) == 0,
        encoded.spec_ge(Scalar { bits: INTENSITY_MAX }) ==> spec_channel_byte(encoded) == 255,
        !encoded.spec_gt(Scalar::spec_zero()) ==> spec_byte(encoded, root) == 0,
{
    let zero = Scalar::spec_zero();
    assert(zero.units() * pow2(8) == 0) by {
        assert(zero.significand() == 0);
        assert(zero.significand() * pow2(zero.places()) == 0) by (nonlinear_arith)
            requires
                zero.significand() == 0,
        ;
        assert(zero.units() * pow2(8) == 0) by (nonlinear_arith)
            requires
                zero.units() == 0,
        ;
    }
    vstd::arithmetic::power2::lemma_pow2_pos(1074);
    vstd::arithmetic::div_mod::lemma_basic_div(0, pow2(1074) as int);
    assert(zero.floor_scaled(8) == 0);

    let top = Scalar { bits: INTENSITY_MAX };
    assert(top.exponent() == 1022);
    assert(top.places() == 1021);
    assert(top.significand() == 0x1f_f7ce_d916_872b);
    lemma_scaled_quotient(top.significand(), top.places(), 8);
    lemma2_to64_rest();
    assert(pow2(45) == 0x2000_0000_0000);
    assert(top.floor_scaled(8) == top.significand() / pow2(45));
    assert(0x1f_f7ce_d916_872b as int / 0x2000_0000_0000 == 255);
    assert(top.floor_scaled(8) == 255);
}

} // verus!
