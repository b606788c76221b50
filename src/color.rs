//! Colors with four fixed-point channels and "over" compositing.
use vstd::prelude::*;
use crate::saturate::{clamp, saturate};

verus! {

/// Full intensity. Channel levels are fractions of `ONE`, which has room
/// for the exact product of three 8-bit fractions of 256.
pub const ONE: u32 = 16777216;

/// The level of one 8-bit step: an 8-bit value `v` stands for `v / 256`.
pub const STEP: u32 = 65536;

/// The mathematical content of a [`Color`]: four levels, each a fraction of `ONE`.
pub struct Rgba {
    pub red: int,
    pub green: int,
    pub blue: int,
    pub alpha: int,
}

/// Every level lies in `0..=ONE`.
pub open spec fn valid(c: Rgba) -> bool {
    0 <= c.red <= ONE && 0 <= c.green <= ONE && 0 <= c.blue <= ONE && 0 <= c.alpha <= ONE
}

/// The color built from four 8-bit values, each divided by 256.
pub open spec fn from_bytes(r: int, g: int, b: int, a: int) -> Rgba {
    Rgba { red: r * STEP, green: g * STEP, blue: b * STEP, alpha: a * STEP }
}

/// Fully transparent white.
pub open spec fn clear() -> Rgba {
    Rgba { red: ONE as int, green: ONE as int, blue: ONE as int, alpha: 0 }
}

/// One channel of `src` over `dst`:
/// `src * src_alpha + dst * dst_alpha * (1 - src_alpha)`, rounded down.
pub open spec fn blend(src: int, src_alpha: int, dst: int, dst_alpha: int) -> int {
    (src * src_alpha * ONE + dst * dst_alpha * (ONE - src_alpha)) / (ONE * ONE as int)
}

/// The larger of two alphas.
pub open spec fn max_alpha(a: int, b: int) -> int {
    if a > b {
        a
    } else {
        b
    }
}

/// `src` composited over `dst`; the alpha of the result is the larger alpha.
pub open spec fn composite(src: Rgba, dst: Rgba) -> Rgba {
    Rgba {
        red: blend(src.red, src.alpha, dst.red, dst.alpha),
        green: blend(src.green, src.alpha, dst.green, dst.alpha),
        blue: blend(src.blue, src.alpha, dst.blue, dst.alpha),
        alpha: max_alpha(src.alpha, dst.alpha),
    }
}

/// The 8-bit value of a level: the level times 256, truncated. A level too
/// large for eight bits is above one half, so it saturates to 255.
pub open spec fn byte_of(level: int) -> int {
    clamp(level * 256 / (ONE as int), 255)
}

/// An immutable color; each channel a level in `0..=ONE`.
#[derive(Clone, Copy, PartialEq, Eq, Structural)]
pub struct Color {
    red: u32,
    green: u32,
    blue: u32,
    alpha: u32,
}

impl View for Color {
    type V = Rgba;

    closed spec fn view(&self) -> Rgba {
        Rgba {
            red: self.red as int,
            green: self.green as int,
            blue: self.blue as int,
            alpha: self.alpha as int,
        }
    }
}

/// The 8-bit value of a level, through the shared saturation policy.
fn to_byte(level: u32) -> (r: u8)
    ensures
        r == byte_of(level as int),
{
    let scaled = (level as u128) * 256 / (ONE as u128);
    saturate(scaled, 255) as u8
}

/// One channel of "over", computed exactly in 128 bits.
fn blend_levels(src: u32, src_alpha: u32, dst: u32, dst_alpha: u32) -> (r: u32)
    requires
        src <= ONE,
        src_alpha <= ONE,
        dst <= ONE,
        dst_alpha <= ONE,
    ensures
        r == blend(src as int, src_alpha as int, dst as int, dst_alpha as int),
        r <= ONE,
{
    let one = ONE as u128;
    let s = src as u128;
    let sa = src_alpha as u128;
    let d = dst as u128;
    let da = dst_alpha as u128;
    assert(s * sa <= one * one) by (nonlinear_arith)
        requires s <= one, sa <= one;
    assert(s * sa * one <= one * sa * one) by (nonlinear_arith)
        requires s <= one, sa <= one;
    assert(d * da <= one * one) by (nonlinear_arith)
        requires d <= one, da <= one;
    assert(d * da * (one - sa) <= one * one * (one - sa)) by (nonlinear_arith)
        requires d <= one, da <= one, sa <= one;
    assert(one * sa * one + one * one * (one - sa) == one * one * one) by (nonlinear_arith);
    let top = s * sa * one + d * da * (one - sa);
    let bottom = one * one;
    assert(top / bottom <= one) by (nonlinear_arith)
        requires top <= one * one * one, bottom == one * one, one > 0;
    (top / bottom) as u32
}

impl Color {
    #[verifier::type_invariant]
    spec fn inv(self) -> bool {
        valid(self@)
    }

    /// The 8-bit red value.
    pub fn r(&self) -> (v: u8)
        ensures
            v == byte_of(self@.red),
    {
        to_byte(self.red)
    }

    /// The 8-bit green value.
    pub fn g(&self) -> (v: u8)
        ensures
            v == byte_of(self@.green),
    {
        to_byte(self.green)
    }

    /// The 8-bit blue value.
    pub fn b(&self) -> (v: u8)
        ensures
            v == byte_of(self@.blue),
    {
        to_byte(self.blue)
    }

    /// An opaque color from 8-bit channels; the alpha is that of 255.
    pub fn rgb(r: u8, g: u8, b: u8) -> (c: Color)
        ensures
            c@ == from_bytes(r as int, g as int, b as int, 255),
    {
        Color::rgba(r, g, b, 255)
    }

    /// A color from 8-bit channels, each divided by 256.
    pub fn rgba(r: u8, g: u8, b: u8, a: u8) -> (c: Color)
        ensures
            c@ == from_bytes(r as int, g as int, b as int, a as int),
    {
        Color {
            red: r as u32 * STEP,
            green: g as u32 * STEP,
            blue: b as u32 * STEP,
            alpha: a as u32 * STEP,
        }
    }

    /// Fully transparent white.
    pub fn transparent() -> (c: Color)
        ensures
            c@ == clear(),
    {
        Color { red: ONE, green: ONE, blue: ONE, alpha: 0 }
    }

    /// This color composited over `dst`.
    pub fn over(&self, dst: Color) -> (c: Color)
        ensures
            c@ == composite(self@, dst@),
    {
        proof {
            use_type_invariant(self);
            use_type_invariant(&dst);
        }
        let alpha = if self.alpha > dst.alpha {
            self.alpha
        } else {
            dst.alpha
        };
        Color {
            red: blend_levels(self.red, self.alpha, dst.red, dst.alpha),
            green: blend_levels(self.green, self.alpha, dst.green, dst.alpha),
            blue: blend_levels(self.blue, self.alpha, dst.blue, dst.alpha),
            alpha,
        }
    }
}

/// The 8-bit channels of a color built from bytes read back as those
/// bytes, for every value including 255.
pub proof fn lemma_byte_round_trip(r: u8, g: u8, b: u8, a: u8)
    ensures
        byte_of(from_bytes(r as int, g as int, b as int, a as int).red) == r,
        byte_of(from_bytes(r as int, g as int, b as int, a as int).green) == g,
        byte_of(from_bytes(r as int, g as int, b as int, a as int).blue) == b,
{
    assert forall|v: u8| #[trigger] byte_of((v as int) * STEP) == v by {
        assert((v as int) * STEP * 256 / (ONE as int) == v) by (nonlinear_arith);
    }
    let c = from_bytes(r as int, g as int, b as int, a as int);
    assert(byte_of(c.red) == byte_of((r as int) * STEP));
    assert(byte_of(c.green) == byte_of((g as int) * STEP));
    assert(byte_of(c.blue) == byte_of((b as int) * STEP));
}

/// Transparent white over an opaque color leaves that color as it was.
pub proof fn lemma_clear_over_opaque(bg: Rgba)
    requires
        valid(bg),
        bg.alpha == ONE,
    ensures
        composite(clear(), bg) == bg,
{
    let one = ONE as int;
    assert forall|d: int| #[trigger] blend(one, 0, d, one) == d by {
        assert(d * one * (one - 0) == d * (one * one)) by (nonlinear_arith);
        assert((d * (one * one)) / (one * one) == d) by (nonlinear_arith)
            requires one > 0;
    }
}

/// The alpha of a composite is the larger of the two alphas, whichever
/// color is on top; in particular it is never below the alpha of `dst`.
pub proof fn lemma_composite_alpha(src: Rgba, dst: Rgba)
    ensures
        composite(src, dst).alpha == max_alpha(src.alpha, dst.alpha),
        composite(src, dst).alpha >= src.alpha,
        composite(src, dst).alpha >= dst.alpha,
        composite(src, dst).alpha == composite(dst, src).alpha,
{
}

} // verus!
