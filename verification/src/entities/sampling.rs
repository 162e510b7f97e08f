//! What the shapes share: the sub-samples of a pixel, and integer
//! arithmetic wide enough for every coordinate.

use vstd::prelude::*;
use crate::color::Color;

verus! {

/// Each pixel is divided into `AA_FACTOR` by `AA_FACTOR` sub-samples.
pub const AA_FACTOR: i32 = 2;

/// The number of sub-samples of a pixel.
pub const AA_SAMPLES: i32 = 4;

/// Sub-sample coordinates are kept as integers by scaling a pixel to twice
/// this number of units.
pub const AA_SCALE: i32 = 3;

/// The largest magnitude that `multiply` accepts for a factor.
pub const FACTOR_LIMIT: i128 = 0x4000_0000_0000_0000;

/// The shape's color with its alpha channel scaled by the share of the
/// sub-samples that the shape covers, or `None` where it covers none.
pub open spec fn antialiased(color: Color, covered: int) -> Option<Color> {
    if covered == 0 {
        None
    } else {
        Some(Color { a: (color.a * covered / (AA_SAMPLES as int)) as u8, ..color })
    }
}

/// One for a covered sub-sample, zero for one that is not.
pub open spec fn hit(covered: bool) -> int {
    if covered { 1 } else { 0 }
}

pub(crate) fn antialias(color: Color, covered: u8) -> (out: Option<Color>)
    requires
        covered <= AA_SAMPLES,
    ensures
        out == antialiased(color, covered as int),
{
    if covered == 0 {
        return None;
    }
    assert(0 <= color.a * covered <= 255 * 4) by (nonlinear_arith)
        requires
            0 <= color.a <= 255,
            0 <= covered <= 4,
    ;
    let scaled: u32 = color.a as u32 * covered as u32;
    let alpha: u32 = scaled / 4;
    Some(color.with_alpha(alpha as u8))
}

pub(crate) fn multiply(a: i128, b: i128) -> (product: i128)
    requires
        -FACTOR_LIMIT <= a <= FACTOR_LIMIT,
        -FACTOR_LIMIT <= b <= FACTOR_LIMIT,
    ensures
        product == a * b,
        -FACTOR_LIMIT * FACTOR_LIMIT <= product <= FACTOR_LIMIT * FACTOR_LIMIT,
{
    assert(-0x4000_0000_0000_0000 * 0x4000_0000_0000_0000 <= a * b <= 0x4000_0000_0000_0000
        * 0x4000_0000_0000_0000) by (nonlinear_arith)
        requires
            -0x4000_0000_0000_0000 <= a <= 0x4000_0000_0000_0000,
            -0x4000_0000_0000_0000 <= b <= 0x4000_0000_0000_0000,
    ;
    a * b
}

pub(crate) fn smaller(a: i32, b: i32) -> (m: i32)
    ensures
        m == if a <= b { a } else { b },
{
    if a <= b { a } else { b }
}

pub(crate) fn larger(a: i32, b: i32) -> (m: i32)
    ensures
        m == if a >= b { a } else { b },
{
    if a >= b { a } else { b }
}

pub open spec fn min(a: int, b: int) -> int {
    if a <= b { a } else { b }
}

pub open spec fn max(a: int, b: int) -> int {
    if a >= b { a } else { b }
}

pub open spec fn abs(a: int) -> int {
    if a >= 0 { a } else { -a }
}

} // verus!
