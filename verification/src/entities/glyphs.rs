//! The bitmap font: a glyph of up to eight pixels by ten for each ASCII
//! character, and the width of each glyph.

use vstd::prelude::*;

verus! {

/// The number of rows of a glyph.
pub const GLYPH_MAX_HEIGHT: usize = 10;

/// The number of characters that have a glyph.
pub const GLYPH_COUNT: usize = 128;

/// The glyphs by character code. A glyph is a list of rows from top to
/// bottom, a row is a byte: of a glyph that is `w` pixels wide, bit `w - 1`
/// is the leftmost pixel of the row and bit `0` the rightmost. A character
/// without a shape has an empty glyph.
pub const GLYPHS: [[u8; 10]; 128] = [
    [0x00, 0x00, 0x00, 0x00, 0x00, 0x00, 0x00, 0x00, 0x00, 0x00],
    [0x00, 0x00, 0x00, 0x00, 0x00, 0x00, 0x00, 0x00, 0x00, 0x00],
    [0x00, 0x00, 0x00, 0x00, 0x00, 0x00, 0x00, 0x00, 0x00, 0x00],
    [0x00, 0x00, 0x00, 0x00, 0x00, 0x00, 0x00, 0x00, 0x00, 0x00],
    [0x00, 0x00, 0x00, 0x00, 0x00, 0x00, 0x00, 0x00, 0x00, 0x00],
    [0x00, 0x00, 0x00, 0x00, 0x00, 0x00, 0x00, 0x00, 0x00, 0x00],
    [0x00, 0x00, 0x00, 0x00, 0x00, 0x00, 0x00, 0x00, 0x00, 0x00],
    [0x00, 0x00, 0x00, 0x00, 0x00, 0x00, 0x00, 0x00, 0x00, 0x00],
    [0x00, 0x00, 0x00, 0x00, 0x00, 0x00, 0x00, 0x00, 0x00, 0x00],
    [0x00, 0x00, 0x00, 0x00, 0x00, 0x00, 0x00, 0x00, 0x00, 0x00],
    [0x00, 0x00, 0x00, 0x00, 0x00, 0x00, 0x00, 0x00, 0x00, 0x00],
    [0x00, 0x00, 0x00, 0x00, 0x00, 0x00, 0x00, 0x00, 0x00, 0x00],
    [0x00, 0x00, 0x00, 0x00, 0x00, 0x00, 0x00, 0x00, 0x00, 0x00],
    [0x00, 0x00, 0x00, 0x00, 0x00, 0x00, 0x00, 0x00, 0x00, 0x00],
    [0x00, 0x00, 0x00, 0x00, 0x00, 0x00, 0x00, 0x00, 0x00, 0x00],
    [0x00, 0x00, 0x00, 0x00, 0x00, 0x00, 0x00, 0x00, 0x00, 0x00],
    [0x00, 0x00, 0x00, 0x00, 0x00, 0x00, 0x00, 0x00, 0x00, 0x00],
    [0x00, 0x00, 0x00, 0x00, 0x00, 0x00, 0x00, 0x00, 0x00, 0x00],
    [0x00, 0x00, 0x00, 0x00, 0x00, 0x00, 0x00, 0x00, 0x00, 0x00],
    [0x00, 0x00, 0x00, 0x00, 0x00, 0x00, 0x00, 0x00, 0x00, 0x00],
    [0x00, 0x00, 0x00, 0x00, 0x00, 0x00, 0x00, 0x00, 0x00, 0x00],
    [0x00, 0x00, 0x00, 0x00, 0x00, 0x00, 0x00, 0x00, 0x00, 0x00],
    [0x00, 0x00, 0x00, 0x00, 0x00, 0x00, 0x00, 0x00, 0x00, 0x00],
    [0x00, 0x00, 0x00, 0x00, 0x00, 0x00, 0x00, 0x00, 0x00, 0x00],
    [0x00, 0x00, 0x00, 0x00, 0x00, 0x00, 0x00, 0x00, 0x00, 0x00],
    [0x00, 0x00, 0x00, 0x00, 0x00, 0x00, 0x00, 0x00, 0x00, 0x00],
    [0x00, 0x00, 0x00, 0x00, 0x00, 0x00, 0x00, 0x00, 0x00, 0x00],
    [0x00, 0x00, 0x00, 0x00, 0x00, 0x00, 0x00, 0x00, 0x00, 0x00],
    [0x00, 0x00, 0x00, 0x00, 0x00, 0x00, 0x00, 0x00, 0x00, 0x00],
    [0x00, 0x00, 0x00, 0x00, 0x00, 0x00, 0x00, 0x00, 0x00, 0x00],
    [0x00, 0x00, 0x00, 0x00, 0x00, 0x00, 0x00, 0x00, 0x00, 0x00],
    [0x00, 0x00, 0x00, 0x00, 0x00, 0x00, 0x00, 0x00, 0x00, 0x00],
    [0x00, 0x00, 0x00, 0x00, 0x00, 0x00, 0x00, 0x00, 0x00, 0x00],
    [0x00, 0x01, 0x01, 0x01, 0x01, 0x00, 0x01, 0x00, 0x00, 0x00],
    [0x00, 0x05, 0x05, 0x00, 0x00, 0x00, 0x00, 0x00, 0x00, 0x00],
    [0x00, 0x00, 0x00, 0x00, 0x00, 0x00, 0x00, 0x00, 0x00, 0x00],
    [0x00, 0x00, 0x00, 0x00, 0x00, 0x00, 0x00, 0x00, 0x00, 0x00],
    [0x00, 0x00, 0x00, 0x09, 0x02, 0x04, 0x09, 0x00, 0x00, 0x00],
    [0x00, 0x00, 0x00, 0x00, 0x00, 0x00, 0x00, 0x00, 0x00, 0x00],
    [0x00, 0x01, 0x01, 0x00, 0x00, 0x00, 0x00, 0x00, 0x00, 0x00],
    [0x00, 0x01, 0x02, 0x02, 0x02, 0x02, 0x01, 0x00, 0x00, 0x00],
    [0x00, 0x02, 0x01, 0x01, 0x01, 0x01, 0x02, 0x00, 0x00, 0x00],
    [0x00, 0x15, 0x0E, 0x1F, 0x0E, 0x15, 0x00, 0x00, 0x00, 0x00],
    [0x00, 0x00, 0x00, 0x02, 0x07, 0x02, 0x00, 0x00, 0x00, 0x00],
    [0x00, 0x00, 0x00, 0x00, 0x00, 0x00, 0x01, 0x02, 0x00, 0x00],
    [0x00, 0x00, 0x00, 0x00, 0x07, 0x00, 0x00, 0x00, 0x00, 0x00],
    [0x00, 0x00, 0x00, 0x00, 0x00, 0x00, 0x01, 0x00, 0x00, 0x00],
    [0x00, 0x00, 0x00, 0x01, 0x02, 0x04, 0x08, 0x00, 0x00, 0x00],
    [0x00, 0x02, 0x05, 0x05, 0x05, 0x05, 0x02, 0x00, 0x00, 0x00],
    [0x00, 0x02, 0x06, 0x02, 0x02, 0x02, 0x07, 0x00, 0x00, 0x00],
    [0x00, 0x02, 0x05, 0x01, 0x02, 0x04, 0x07, 0x00, 0x00, 0x00],
    [0x02, 0x05, 0x01, 0x02, 0x01, 0x05, 0x02, 0x00, 0x00, 0x00],
    [0x00, 0x02, 0x04, 0x05, 0x07, 0x01, 0x01, 0x00, 0x00, 0x00],
    [0x00, 0x07, 0x04, 0x07, 0x01, 0x01, 0x06, 0x00, 0x00, 0x00],
    [0x00, 0x02, 0x04, 0x06, 0x05, 0x05, 0x02, 0x00, 0x00, 0x00],
    [0x00, 0x07, 0x01, 0x02, 0x02, 0x04, 0x04, 0x00, 0x00, 0x00],
    [0x00, 0x02, 0x05, 0x02, 0x05, 0x05, 0x02, 0x00, 0x00, 0x00],
    [0x00, 0x02, 0x05, 0x03, 0x01, 0x01, 0x02, 0x00, 0x00, 0x00],
    [0x00, 0x00, 0x00, 0x01, 0x00, 0x01, 0x00, 0x00, 0x00, 0x00],
    [0x00, 0x00, 0x00, 0x01, 0x00, 0x01, 0x02, 0x00, 0x00, 0x00],
    [0x00, 0x00, 0x01, 0x02, 0x04, 0x02, 0x01, 0x00, 0x00, 0x00],
    [0x00, 0x00, 0x00, 0x07, 0x00, 0x07, 0x00, 0x00, 0x00, 0x00],
    [0x00, 0x00, 0x04, 0x02, 0x01, 0x02, 0x04, 0x00, 0x00, 0x00],
    [0x00, 0x0E, 0x11, 0x01, 0x06, 0x00, 0x04, 0x00, 0x00, 0x00],
    [0x00, 0x00, 0x00, 0x00, 0x00, 0x00, 0x00, 0x00, 0x00, 0x00],
    [0x00, 0x00, 0x00, 0x00, 0x00, 0x00, 0x00, 0x00, 0x00, 0x00],
    [0x00, 0x00, 0x00, 0x00, 0x00, 0x00, 0x00, 0x00, 0x00, 0x00],
    [0x00, 0x00, 0x00, 0x00, 0x00, 0x00, 0x00, 0x00, 0x00, 0x00],
    [0x00, 0x00, 0x00, 0x00, 0x00, 0x00, 0x00, 0x00, 0x00, 0x00],
    [0x00, 0x00, 0x00, 0x00, 0x00, 0x00, 0x00, 0x00, 0x00, 0x00],
    [0x00, 0x00, 0x00, 0x00, 0x00, 0x00, 0x00, 0x00, 0x00, 0x00],
    [0x00, 0x00, 0x00, 0x00, 0x00, 0x00, 0x00, 0x00, 0x00, 0x00],
    [0x00, 0x00, 0x00, 0x00, 0x00, 0x00, 0x00, 0x00, 0x00, 0x00],
    [0x00, 0x00, 0x00, 0x00, 0x00, 0x00, 0x00, 0x00, 0x00, 0x00],
    [0x00, 0x00, 0x00, 0x00, 0x00, 0x00, 0x00, 0x00, 0x00, 0x00],
    [0x00, 0x00, 0x00, 0x00, 0x00, 0x00, 0x00, 0x00, 0x00, 0x00],
    [0x00, 0x00, 0x00, 0x00, 0x00, 0x00, 0x00, 0x00, 0x00, 0x00],
    [0x00, 0x00, 0x00, 0x00, 0x00, 0x00, 0x00, 0x00, 0x00, 0x00],
    [0x00, 0x00, 0x00, 0x00, 0x00, 0x00, 0x00, 0x00, 0x00, 0x00],
    [0x00, 0x00, 0x00, 0x00, 0x00, 0x00, 0x00, 0x00, 0x00, 0x00],
    [0x00, 0x00, 0x00, 0x00, 0x00, 0x00, 0x00, 0x00, 0x00, 0x00],
    [0x00, 0x00, 0x00, 0x00, 0x00, 0x00, 0x00, 0x00, 0x00, 0x00],
    [0x00, 0x00, 0x00, 0x00, 0x00, 0x00, 0x00, 0x00, 0x00, 0x00],
    [0x00, 0x00, 0x00, 0x00, 0x00, 0x00, 0x00, 0x00, 0x00, 0x00],
    [0x00, 0x00, 0x00, 0x00, 0x00, 0x00, 0x00, 0x00, 0x00, 0x00],
    [0x00, 0x00, 0x00, 0x00, 0x00, 0x00, 0x00, 0x00, 0x00, 0x00],
    [0x00, 0x00, 0x00, 0x00, 0x00, 0x00, 0x00, 0x00, 0x00, 0x00],
    [0x00, 0x00, 0x00, 0x00, 0x00, 0x00, 0x00, 0x00, 0x00, 0x00],
    [0x00, 0x00, 0x00, 0x00, 0x00, 0x00, 0x00, 0x00, 0x00, 0x00],
    [0x00, 0x00, 0x00, 0x00, 0x00, 0x00, 0x00, 0x00, 0x00, 0x00],
    [0x00, 0x00, 0x00, 0x00, 0x00, 0x00, 0x00, 0x00, 0x00, 0x00],
    [0x00, 0x03, 0x02, 0x02, 0x02, 0x02, 0x03, 0x00, 0x00, 0x00],
    [0x00, 0x00, 0x00, 0x08, 0x04, 0x02, 0x01, 0x00, 0x00, 0x00],
    [0x00, 0x03, 0x01, 0x01, 0x01, 0x01, 0x03, 0x00, 0x00, 0x00],
    [0x00, 0x00, 0x00, 0x00, 0x00, 0x00, 0x00, 0x00, 0x00, 0x00],
    [0x00, 0x00, 0x00, 0x00, 0x00, 0x00, 0x0F, 0x00, 0x00, 0x00],
    [0x00, 0x00, 0x00, 0x00, 0x00, 0x00, 0x00, 0x00, 0x00, 0x00],
    [0x00, 0x00, 0x06, 0x01, 0x07, 0x09, 0x07, 0x00, 0x00, 0x00],
    [0x00, 0x08, 0x08, 0x08, 0x0E, 0x09, 0x0E, 0x00, 0x00, 0x00],
    [0x00, 0x00, 0x06, 0x09, 0x08, 0x09, 0x06, 0x00, 0x00, 0x00],
    [0x00, 0x01, 0x01, 0x01, 0x07, 0x09, 0x07, 0x00, 0x00, 0x00],
    [0x00, 0x00, 0x06, 0x09, 0x0F, 0x08, 0x06, 0x00, 0x00, 0x00],
    [0x00, 0x03, 0x04, 0x04, 0x0E, 0x04, 0x04, 0x00, 0x00, 0x00],
    [0x00, 0x00, 0x00, 0x07, 0x09, 0x09, 0x07, 0x01, 0x09, 0x06],
    [0x00, 0x08, 0x08, 0x08, 0x0E, 0x09, 0x09, 0x00, 0x00, 0x00],
    [0x00, 0x00, 0x01, 0x00, 0x01, 0x01, 0x01, 0x00, 0x00, 0x00],
    [0x00, 0x00, 0x01, 0x00, 0x03, 0x01, 0x01, 0x01, 0x01, 0x06],
    [0x00, 0x00, 0x04, 0x04, 0x05, 0x06, 0x05, 0x00, 0x00, 0x00],
    [0x00, 0x06, 0x02, 0x02, 0x02, 0x02, 0x03, 0x00, 0x00, 0x00],
    [0x00, 0x00, 0x00, 0x0A, 0x15, 0x15, 0x15, 0x00, 0x00, 0x00],
    [0x00, 0x00, 0x00, 0x0A, 0x05, 0x05, 0x05, 0x00, 0x00, 0x00],
    [0x00, 0x00, 0x00, 0x06, 0x09, 0x09, 0x06, 0x00, 0x00, 0x00],
    [0x00, 0x00, 0x00, 0x06, 0x09, 0x09, 0x0E, 0x08, 0x08, 0x08],
    [0x00, 0x00, 0x00, 0x07, 0x09, 0x09, 0x07, 0x01, 0x01, 0x01],
    [0x00, 0x00, 0x00, 0x0B, 0x0D, 0x08, 0x08, 0x00, 0x00, 0x00],
    [0x00, 0x00, 0x07, 0x08, 0x06, 0x01, 0x0E, 0x00, 0x00, 0x00],
    [0x00, 0x02, 0x02, 0x07, 0x02, 0x02, 0x03, 0x00, 0x00, 0x00],
    [0x00, 0x00, 0x00, 0x09, 0x09, 0x09, 0x07, 0x00, 0x00, 0x00],
    [0x00, 0x00, 0x00, 0x11, 0x11, 0x0A, 0x04, 0x00, 0x00, 0x00],
    [0x00, 0x00, 0x00, 0x15, 0x15, 0x15, 0x0A, 0x00, 0x00, 0x00],
    [0x00, 0x00, 0x11, 0x0A, 0x04, 0x0A, 0x11, 0x00, 0x00, 0x00],
    [0x00, 0x00, 0x00, 0x09, 0x09, 0x09, 0x07, 0x01, 0x01, 0x07],
    [0x00, 0x00, 0x00, 0x0F, 0x02, 0x04, 0x0F, 0x00, 0x00, 0x00],
    [0x00, 0x01, 0x02, 0x02, 0x06, 0x02, 0x02, 0x01, 0x00, 0x00],
    [0x00, 0x01, 0x01, 0x01, 0x01, 0x01, 0x01, 0x00, 0x00, 0x00],
    [0x00, 0x04, 0x02, 0x02, 0x03, 0x02, 0x02, 0x04, 0x00, 0x00],
    [0x00, 0x00, 0x00, 0x00, 0x00, 0x00, 0x00, 0x00, 0x00, 0x00],
    [0x00, 0x00, 0x00, 0x00, 0x00, 0x00, 0x00, 0x00, 0x00, 0x00],
];

/// The width of each glyph in pixels, by character code.
pub const GLYPH_WIDTHS: [u8; 128] = [
    0, 0, 0, 0, 0, 0, 0, 0, 0, 0, 0, 0, 0, 0, 0, 0,
    0, 0, 0, 0, 0, 0, 0, 0, 0, 0, 0, 0, 0, 0, 0, 0,
    4, 1, 3, 0, 0, 4, 0, 1, 2, 2, 5, 3, 2, 3, 1, 4,
    3, 3, 3, 3, 3, 3, 3, 3, 3, 3, 1, 2, 3, 3, 3, 5,
    0, 0, 0, 0, 0, 0, 0, 0, 0, 0, 0, 0, 0, 0, 0, 0,
    0, 0, 0, 0, 0, 0, 0, 0, 0, 0, 0, 2, 4, 2, 0, 4,
    0, 4, 4, 4, 4, 4, 4, 4, 4, 1, 3, 3, 3, 5, 4, 4,
    4, 4, 4, 4, 3, 4, 5, 5, 5, 4, 4, 3, 1, 3, 0, 0,
];

} // verus!
