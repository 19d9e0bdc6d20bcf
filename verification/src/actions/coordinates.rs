//! Coordinate policies: from the coordinates that the model reports to
//! pixels on the device's screen.
//!
//! Two policies exist. Under the relative one both coordinates lie between 0
//! and 1000 and are mapped onto the screen in proportion. Under the absolute
//! one each coordinate is multiplied by a scale factor of its axis and must
//! then lie on the screen.

use crate::number::{decimal, push_decimal, push_signed_decimal, signed_decimal};
use crate::text::{from_chars, push_str, to_chars};
use vstd::prelude::*;

verus! {

/// The largest coordinate under the relative policy.
pub const RELATIVE_COORDINATE_MAX: i64 = 1000;

/// How the model's coordinates are to be understood.
#[derive(Debug, Clone, Copy, PartialEq, Eq, Structural)]
pub enum CoordinateSystem {
    /// Both coordinates lie between 0 and 1000.
    Relative,
    /// Coordinates are pixels, up to a scale factor.
    Absolute,
}

/// An axis of the screen.
#[derive(Debug, Clone, Copy, PartialEq, Eq, Structural)]
pub enum Axis {
    X,
    Y,
}

/// A scale factor: the fraction `num / den`.
#[derive(Debug, Clone, Copy, PartialEq, Eq)]
pub struct Scale {
    num: u32,
    den: u32,
}

/// `n / d` rounded to the nearest integer, a half away from zero.
pub open spec fn round_div(n: int, d: int) -> int {
    if n >= 0 {
        (2 * n + d) / (2 * d)
    } else {
        -((-2 * n + d) / (2 * d))
    }
}

impl Scale {
    /// A scale has a denominator other than zero.
    #[verifier::type_invariant]
    pub closed spec fn valid(self) -> bool {
        self.den > 0
    }

    /// The numerator.
    pub closed spec fn numerator(self) -> int {
        self.num as int
    }

    /// The denominator, which is positive.
    pub closed spec fn denominator(self) -> int {
        self.den as int
    }

    /// `raw` times the scale, rounded to the nearest integer.
    pub open spec fn apply(self, raw: int) -> int {
        round_div(raw * self.numerator(), self.denominator())
    }

    /// The scale in hundredths, rounded.
    pub open spec fn hundredths(self) -> int {
        round_div(100 * self.numerator(), self.denominator())
    }

    /// The scale with two decimal places.
    pub open spec fn text(self) -> Seq<char> {
        decimal((self.hundredths() / 100) as nat) + "."@ + decimal(
            ((self.hundredths() % 100) / 10) as nat,
        ) + decimal((self.hundredths() % 10) as nat)
    }

    /// The scale `num / den`, where `den` is not zero.
    pub fn new(num: u32, den: u32) -> (r: Option<Scale>)
        ensures
            (r is Some) == (den != 0),
            r matches Some(s) ==> s.numerator() == num && s.denominator() == den,
    {
        if den == 0 {
            None
        } else {
            Some(Scale { num, den })
        }
    }

    /// The scale 1.
    pub fn identity() -> (r: Scale)
        ensures
            r.numerator() == 1,
            r.denominator() == 1,
    {
        Scale { num: 1, den: 1 }
    }

    /// The scale used where none is configured: 1.61.
    pub closed spec fn standard_spec() -> Scale {
        Scale { num: 161, den: 100 }
    }

    /// The scale used where none is configured: 1.61.
    pub fn standard() -> (r: Scale)
        ensures
            r == Self::standard_spec(),
            r.numerator() == 161,
            r.denominator() == 100,
    {
        Scale { num: 161, den: 100 }
    }

    /// The scale in hundredths: `percent / 100`.
    pub fn from_percent(percent: u32) -> (r: Scale)
        ensures
            r.numerator() == percent,
            r.denominator() == 100,
    {
        Scale { num: percent, den: 100 }
    }

    /// The numerator and the denominator.
    pub fn parts(&self) -> (r: (u32, u32))
        ensures
            r.0 == self.numerator(),
            r.1 == self.denominator(),
            r.1 > 0,
    {
        proof {
            use_type_invariant(self);
        }
        (self.num, self.den)
    }

    /// `raw` times the scale, rounded to the nearest integer, a half away
    /// from zero.
    pub fn scaled(&self, raw: i64) -> (r: i128)
        ensures
            r == self.apply(raw as int),
    {
        proof {
            use_type_invariant(self);
        }
        let num = self.num as i128;
        let den = self.den as i128;
        let raw = raw as i128;
        assert(-0x8000_0000_0000_0000 <= raw < 0x8000_0000_0000_0000);
        assert(0 <= num < 0x1_0000_0000 && 0 < den < 0x1_0000_0000);
        assert(-0x8000_0000_0000_0000_0000_0000 <= raw * num <= 0x8000_0000_0000_0000_0000_0000)
            by (nonlinear_arith)
            requires
                -0x8000_0000_0000_0000 <= raw < 0x8000_0000_0000_0000,
                0 <= num < 0x1_0000_0000,
        ;
        let n = raw * num;
        if n >= 0 {
            (2 * n + den) / (2 * den)
        } else {
            let m: i128 = -n;
            let q: i128 = (2 * m + den) / (2 * den);
            assert(-2 * n == 2 * m);
            -q
        }
    }

    /// Appends the scale with two decimal places to `dst`.
    pub fn push_text(&self, dst: &mut Vec<char>)
        ensures
            final(dst)@ == old(dst)@ + self.text(),
    {
        proof {
            use_type_invariant(self);
        }
        let num = self.num as u128;
        let den = self.den as u128;
        let h: u128 = (2 * (100 * num) + den) / (2 * den);
        assert(h == self.hundredths());
        push_decimal(dst, h / 100);
        push_str(dst, ".");
        push_decimal(dst, (h % 100) / 10);
        push_decimal(dst, h % 10);
        assert(dst@ =~= old(dst)@ + self.text());
    }
}

/// The letter of an axis.
pub open spec fn axis_letter(axis: Axis) -> Seq<char> {
    match axis {
        Axis::X => "X"@,
        Axis::Y => "Y"@,
    }
}

/// What is said of a scaled coordinate that does not lie on the screen: the
/// axis, the scaled and the raw value, the scale and the valid range.
pub open spec fn absolute_fault_text(
    axis: Axis,
    scaled: int,
    raw: int,
    scale: Scale,
    limit: int,
) -> Seq<char> {
    "Scaled "@ + axis_letter(axis) + " coordinate "@ + signed_decimal(scaled) + " (raw: "@
        + signed_decimal(raw) + " × "@ + scale.text() + ") is out of bounds. Valid range is [0, "@
        + decimal(limit as nat)
        + "). Please provide coordinates within the screen area."@
}

/// What the absolute policy makes of the pair `(x, y)` on a screen of
/// `width` by `height` pixels: the scaled pair where both scaled coordinates
/// lie on the screen, else what is said of the first that does not.
pub open spec fn absolute_outcome(
    scale_x: Scale,
    scale_y: Scale,
    x: i64,
    y: i64,
    width: u32,
    height: u32,
) -> Result<(u32, u32), Seq<char>> {
    let sx = scale_x.apply(x as int);
    let sy = scale_y.apply(y as int);
    if !(0 <= sx < width) {
        Err(absolute_fault_text(Axis::X, sx, x as int, scale_x, width as int))
    } else if !(0 <= sy < height) {
        Err(absolute_fault_text(Axis::Y, sy, y as int, scale_y, height as int))
    } else {
        Ok((sx as u32, sy as u32))
    }
}

/// A pair of pixels or the text of an error, as mathematical values.
pub open spec fn outcome_view(r: Result<(u32, u32), String>) -> Result<(u32, u32), Seq<char>> {
    match r {
        Ok(p) => Ok(p),
        Err(t) => Err(t@),
    }
}

/// Writes what is said of a scaled coordinate that does not lie on the
/// screen.
fn absolute_fault(axis: Axis, scaled: i128, raw: i64, scale: &Scale, limit: u32) -> (r: String)
    ensures
        r@ == absolute_fault_text(axis, scaled as int, raw as int, *scale, limit as int),
{
    let mut out = to_chars("Scaled ");
    match axis {
        Axis::X => push_str(&mut out, "X"),
        Axis::Y => push_str(&mut out, "Y"),
    }
    push_str(&mut out, " coordinate ");
    push_signed_decimal(&mut out, scaled);
    push_str(&mut out, " (raw: ");
    push_signed_decimal(&mut out, raw as i128);
    push_str(&mut out, " × ");
    scale.push_text(&mut out);
    push_str(&mut out, ") is out of bounds. Valid range is [0, ");
    push_decimal(&mut out, limit as u128);
    push_str(&mut out, "). Please provide coordinates within the screen area.");
    from_chars(&out)
}

/// Applies the absolute policy to the pair `(x, y)`.
pub fn validate_absolute(
    scale_x: &Scale,
    scale_y: &Scale,
    x: i64,
    y: i64,
    width: u32,
    height: u32,
) -> (r: Result<(u32, u32), String>)
    ensures
        outcome_view(r) == absolute_outcome(*scale_x, *scale_y, x, y, width, height),
        r matches Ok(p) ==> p.0 < width && p.1 < height,
{
    let sx = scale_x.scaled(x);
    let sy = scale_y.scaled(y);
    if sx < 0 || sx >= width as i128 {
        return Err(absolute_fault(Axis::X, sx, x, scale_x, width));
    }
    if sy < 0 || sy >= height as i128 {
        return Err(absolute_fault(Axis::Y, sy, y, scale_y, height));
    }
    Ok((sx as u32, sy as u32))
}

/// Whether `v` is a coordinate under the relative policy.
pub open spec fn in_relative_range(v: i64) -> bool {
    0 <= v <= RELATIVE_COORDINATE_MAX
}

/// The pixel that the relative coordinate `v` stands for on an axis of
/// `dim` pixels: `v / 1000 * dim`, rounded down.
pub open spec fn relative_pixel(v: i64, dim: u32) -> int {
    (v * dim) / 1000
}

/// What is said of a relative coordinate out of range: the axis, the value
/// and the valid range.
pub open spec fn relative_fault_text(axis: Axis, v: int) -> Seq<char> {
    "Relative "@ + axis_letter(axis) + " coordinate "@ + signed_decimal(v)
        + " is out of range. Valid range is [0, 1000]."@
}

/// The axis of the first coordinate of `(x, y)` that is out of the relative
/// range, if one is.
pub open spec fn relative_fault_axis(x: i64, y: i64) -> Option<Axis> {
    if !in_relative_range(x) {
        Some(Axis::X)
    } else if !in_relative_range(y) {
        Some(Axis::Y)
    } else {
        None
    }
}

/// What the relative policy makes of the pair `(x, y)` on a screen of
/// `width` by `height` pixels.
pub open spec fn relative_outcome(x: i64, y: i64, width: u32, height: u32) -> Result<
    (u32, u32),
    Seq<char>,
> {
    match relative_fault_axis(x, y) {
        Some(Axis::X) => Err(relative_fault_text(Axis::X, x as int)),
        Some(Axis::Y) => Err(relative_fault_text(Axis::Y, y as int)),
        None => Ok((relative_pixel(x, width) as u32, relative_pixel(y, height) as u32)),
    }
}

/// Writes what is said of a relative coordinate out of range.
fn relative_fault(axis: Axis, v: i64) -> (r: String)
    ensures
        r@ == relative_fault_text(axis, v as int),
{
    let mut out = to_chars("Relative ");
    match axis {
        Axis::X => push_str(&mut out, "X"),
        Axis::Y => push_str(&mut out, "Y"),
    }
    push_str(&mut out, " coordinate ");
    push_signed_decimal(&mut out, v as i128);
    push_str(&mut out, " is out of range. Valid range is [0, 1000].");
    from_chars(&out)
}

/// The pixel of a relative coordinate in range.
fn relative_to_pixel(v: i64, dim: u32) -> (r: u32)
    requires
        in_relative_range(v),
    ensures
        r == relative_pixel(v, dim),
        r <= dim,
        v < 1000 && dim > 0 ==> r < dim,
{
    assert(v * dim <= 1000 * 0xffff_ffff) by (nonlinear_arith)
        requires
            0 <= v <= 1000,
            0 <= dim <= 0xffff_ffff,
    ;
    let product: u64 = (v as u64) * (dim as u64);
    assert(product <= 1000 * dim) by (nonlinear_arith)
        requires
            product == v * dim,
            0 <= v <= 1000,
            0 <= dim,
    ;
    assert(v < 1000 && dim > 0 ==> product < 1000 * dim) by (nonlinear_arith)
        requires
            product == v * dim,
            0 <= v <= 1000,
            0 <= dim,
    ;
    (product / 1000) as u32
}

/// Applies the relative policy to the pair `(x, y)`.
///
/// A pair in range always gives pixels; they lie on the screen unless a
/// coordinate is 1000 itself, which gives the first pixel beyond it, or the
/// screen has no pixels.
pub fn validate_relative(x: i64, y: i64, width: u32, height: u32) -> (r: Result<
    (u32, u32),
    String,
>)
    ensures
        outcome_view(r) == relative_outcome(x, y, width, height),
        (r is Ok) == (in_relative_range(x) && in_relative_range(y)),
        r matches Ok(p) ==> p.0 <= width && p.1 <= height,
        r matches Ok(p) ==> (x < 1000 && width > 0 ==> p.0 < width) && (y < 1000 && height > 0
            ==> p.1 < height),
{
    if x < 0 || x > RELATIVE_COORDINATE_MAX {
        return Err(relative_fault(Axis::X, x));
    }
    if y < 0 || y > RELATIVE_COORDINATE_MAX {
        return Err(relative_fault(Axis::Y, y));
    }
    Ok((relative_to_pixel(x, width), relative_to_pixel(y, height)))
}

/// Under the relative policy a pair of coordinates below 1000 and not
/// negative maps onto the screen, whatever its size, as long as it has
/// pixels; a pair with a coordinate below 0 or above 1000 is refused, with
/// the text that names the first such axis.
pub proof fn law_relative_policy(x: i64, y: i64, width: u32, height: u32)
    ensures
        0 <= x < 1000 && 0 <= y < 1000 && width > 0 && height > 0 ==> (relative_outcome(
            x,
            y,
            width,
            height,
        ) matches Ok(p) && 0 <= p.0 < width && 0 <= p.1 < height),
        x < 0 || x > 1000 ==> relative_outcome(x, y, width, height) == Err::<
            (u32, u32),
            Seq<char>,
        >(relative_fault_text(Axis::X, x as int)),
        0 <= x <= 1000 && (y < 0 || y > 1000) ==> relative_outcome(x, y, width, height) == Err::<
            (u32, u32),
            Seq<char>,
        >(relative_fault_text(Axis::Y, y as int)),
{
    if 0 <= x < 1000 && 0 <= y < 1000 && width > 0 && height > 0 {
        assert(x * width < 1000 * width) by (nonlinear_arith)
            requires
                0 <= x < 1000,
                width > 0,
        ;
        assert(y * height < 1000 * height) by (nonlinear_arith)
            requires
                0 <= y < 1000,
                height > 0,
        ;
        assert(0 <= x * width) by (nonlinear_arith)
            requires
                0 <= x,
                width > 0,
        ;
        assert(0 <= y * height) by (nonlinear_arith)
            requires
                0 <= y,
                height > 0,
        ;
    }
}

} // verus!
