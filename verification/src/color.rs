//! Pixels as text: decimal channel values, one pixel a line.

use crate::interval::Interval;
use crate::scalar::Scalar;
use crate::vec3::Vec3;
use vstd::prelude::*;

verus! {

/// A pixel ready for display: each channel a byte.
#[derive(Clone, Copy, Debug, PartialEq, Eq, Structural)]
pub struct Rgb {
    pub r: u8,
    pub g: u8,
    pub b: u8,
}

/// Bit pattern of `0.999`, the brightest value of a channel: scaled to a
/// byte it stays below 256.
pub const BRIGHTEST_BITS: u64 = 0x3fef_f7ce_d916_872bu64;

/// The range of a channel's value after gamma correction: from 0 to
/// `0.999`.
pub open spec fn intensity_spec() -> Interval {
    Interval { min: Scalar { bits: 0 }, max: Scalar { bits: BRIGHTEST_BITS } }
}

pub fn intensity() -> (iv: Interval)
    ensures
        iv == intensity_spec(),
{
    Interval::new(Scalar::zero(), Scalar::from_bits(BRIGHTEST_BITS))
}

impl Rgb {
    /// The pixel of a colour whose channels were gamma corrected, brought
    /// into range and scaled by `255.999`: each channel cut to a byte.
    pub fn from_scaled(scaled: Vec3) -> (c: Rgb)
        ensures
            c.r as int == scaled.e[0].to_byte_spec(),
            c.g as int == scaled.e[1].to_byte_spec(),
            c.b as int == scaled.e[2].to_byte_spec(),
    {
        Rgb { r: scaled.x().to_byte(), g: scaled.y().to_byte(), b: scaled.z().to_byte() }
    }
}

/// The character of one decimal digit.
pub open spec fn digit_char(d: int) -> char {
    if d == 0 {
        '0'
    } else if d == 1 {
        '1'
    } else if d == 2 {
        '2'
    } else if d == 3 {
        '3'
    } else if d == 4 {
        '4'
    } else if d == 5 {
        '5'
    } else if d == 6 {
        '6'
    } else if d == 7 {
        '7'
    } else if d == 8 {
        '8'
    } else {
        '9'
    }
}

/// The decimal digits of `n`, without leading zeros.
pub open spec fn digits(n: nat) -> Seq<char>
    decreases n,
{
    if n < 10 {
        seq![digit_char(n as int)]
    } else {
        digits(n / 10).push(digit_char((n % 10) as int))
    }
}

/// The decimal form of `n`, with a minus sign where it is negative.
pub open spec fn decimal(n: int) -> Seq<char> {
    if n < 0 {
        seq!['-'] + digits((-n) as nat)
    } else {
        digits(n as nat)
    }
}

/// The line of one pixel: red, green and blue, a space between them and a
/// line feed at the end.
pub open spec fn color_line(c: Rgb) -> Seq<char> {
    digits(c.r as nat) + seq![' '] + digits(c.g as nat) + seq![' '] + digits(c.b as nat) + seq![
        '\n',
    ]
}

/// Appends one digit.
fn push_digit(out: &mut String, d: u64)
    requires
        d < 10,
    ensures
        final(out)@ == old(out)@.push(digit_char(d as int)),
{
    proof {
        reveal_strlit("0");
        reveal_strlit("1");
        reveal_strlit("2");
        reveal_strlit("3");
        reveal_strlit("4");
        reveal_strlit("5");
        reveal_strlit("6");
        reveal_strlit("7");
        reveal_strlit("8");
        reveal_strlit("9");
    }
    let text: &str = if d == 0 {
        "0"
    } else if d == 1 {
        "1"
    } else if d == 2 {
        "2"
    } else if d == 3 {
        "3"
    } else if d == 4 {
        "4"
    } else if d == 5 {
        "5"
    } else if d == 6 {
        "6"
    } else if d == 7 {
        "7"
    } else if d == 8 {
        "8"
    } else {
        "9"
    };
    assert(text@ =~= seq![digit_char(d as int)]);
    out.append(text);
    assert(out@ =~= old(out)@.push(digit_char(d as int)));
}

/// Appends the digits of `n`.
pub fn push_digits(out: &mut String, n: u64)
    ensures
        final(out)@ == old(out)@ + digits(n as nat),
    decreases n,
{
    if n >= 10 {
        push_digits(out, n / 10);
    }
    push_digit(out, n % 10);
    assert(out@ =~= old(out)@ + digits(n as nat));
}

/// Appends the decimal form of `n`.
pub fn push_decimal(out: &mut String, n: i32)
    ensures
        final(out)@ == old(out)@ + decimal(n as int),
{
    if n < 0 {
        proof {
            reveal_strlit("-");
        }
        out.append("-");
        let m: u64 = (-(n as i64)) as u64;
        push_digits(out, m);
        assert(out@ =~= old(out)@ + decimal(n as int));
    } else {
        push_digits(out, n as u64);
    }
}

/// Appends the line of one pixel.
pub fn push_color(out: &mut String, c: Rgb)
    ensures
        final(out)@ == old(out)@ + color_line(c),
{
    proof {
        reveal_strlit(" ");
        reveal_strlit("\n");
    }
    push_digits(out, c.r as u64);
    out.append(" ");
    push_digits(out, c.g as u64);
    out.append(" ");
    push_digits(out, c.b as u64);
    out.append("\n");
    assert(out@ =~= old(out)@ + color_line(c));
}

/// The line of a pixel in the image's text: `"R G B\n"`.
pub fn color_to_string(pixel_color: Rgb) -> (s: String)
    ensures
        s@ == color_line(pixel_color),
{
    let mut out = String::new();
    push_color(&mut out, pixel_color);
    assert(out@ =~= color_line(pixel_color));
    out
}

} // verus!
