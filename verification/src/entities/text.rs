//! Text, drawn with the bitmap font.

use vstd::prelude::*;
use vstd::utf8::is_ascii_chars;
use crate::color::Color;
use crate::drawable::Drawable;
use crate::entities::glyphs::{GLYPHS, GLYPH_MAX_HEIGHT, GLYPH_WIDTHS};
use crate::entities::sampling::multiply;
use crate::geometry::Position;

verus! {

/// A line of text. `position` is its top-left corner, and every pixel of a
/// glyph is drawn as a square of `size` by `size` pixels.
pub struct Text {
    pub text: String,
    pub position: Position,
    pub color: Color,
    pub size: u8,
}

/// The character codes of a text.
pub open spec fn codes(text: Seq<char>) -> Seq<u8> {
    Seq::new(text.len(), |k: int| text[k] as u8)
}

/// Whether the glyph of the character with the given code has the pixel in
/// column `gx` of row `gy` set.
pub open spec fn glyph_pixel(code: u8, gx: int, gy: int) -> bool {
    let shift = GLYPH_WIDTHS[code as int] - gx - 1;
    0 <= shift < 8 && (GLYPHS[code as int][gy] >> (shift as u8)) & 1 == 1
}

/// What a text contributes at the pixel in column `px`, `row` rows of
/// glyph pixels below its top, from its character `k` on, whose glyph
/// starts in column `x`: the first glyph whose columns hold `px` decides. A
/// glyph is followed by a gap of one glyph pixel.
pub open spec fn sample_glyphs(
    codes: Seq<u8>,
    k: int,
    x: int,
    px: int,
    row: int,
    size: int,
    color: Color,
) -> Option<Color>
    decreases codes.len() - k,
{
    if k < 0 || k >= codes.len() {
        None
    } else {
        let width = GLYPH_WIDTHS[codes[k] as int] as int;
        if x <= px < x + width * size {
            if glyph_pixel(codes[k], (px - x) / size, row) {
                Some(color)
            } else {
                None
            }
        } else {
            sample_glyphs(codes, k + 1, x + (width + 1) * size, px, row, size, color)
        }
    }
}

impl Text {
    /// Every character of the text has a glyph.
    pub open spec fn has_glyphs(text: Seq<char>) -> bool {
        is_ascii_chars(text)
    }

    pub fn new(text: String, position: Position, color: Color, size: u8) -> (out: Text)
        ensures
            out.text == text,
            out.position == position,
            out.color == color,
            out.size == size,
    {
        Text { text, position, color, size }
    }

    /// Whether the pixel row of `position` is one of the rows of the text.
    pub open spec fn in_rows(&self, position: Position) -> bool {
        self.position.y <= position.y < self.position.y + self.size * GLYPH_MAX_HEIGHT
    }
}

impl Drawable for Text {
    open spec fn well_formed(&self) -> bool {
        Text::has_glyphs(self.text@)
    }

    /// The edges are hard: a pixel has the color of the text or none.
    open spec fn sample(&self, position: Position) -> Option<Color> {
        if self.in_rows(position) {
            sample_glyphs(
                codes(self.text@),
                0,
                self.position.x as int,
                position.x as int,
                (position.y - self.position.y) / (self.size as int),
                self.size as int,
                self.color,
            )
        } else {
            None
        }
    }

    fn is_well_formed(&self) -> (ok: bool) {
        self.text.as_str().is_ascii()
    }

    fn color_at(&self, position: Position) -> (color: Option<Color>) {
        let size = self.size as i128;
        let px = position.x as i128;
        let top = self.position.y as i128;
        let py = position.y as i128;
        if !(py >= top && py < top + size * 10) {
            return None;
        }
        let below = py - top;
        assert(size >= 1 && 0 <= below / size < 10) by (nonlinear_arith)
            requires
                0 <= below < size * 10,
                0 <= size,
        ;
        let row = (below / size) as usize;
        let text = self.text.as_str();
        let bytes = text.as_bytes();
        proof {
            vstd::string::is_ascii_spec_bytes(text);
            vstd::utf8::is_ascii_chars_nat_bound(self.text@);
            assert(bytes@ =~= codes(self.text@));
        }
        let mut x: i128 = self.position.x as i128;
        let mut k: usize = 0;
        while k < bytes.len()
            invariant
                k <= bytes@.len(),
                bytes@ == codes(self.text@),
                forall|i: int| 0 <= i < bytes@.len() ==> bytes@[i] < 128,
                1 <= size <= 255,
                size == self.size,
                self.in_rows(position),
                0 <= row < 10,
                row == (position.y - self.position.y) / (size as int),
                px == position.x,
                -0x8000_0000 <= x <= 0x8000_0000 + k * 65280,
                sample_glyphs(bytes@, 0, self.position.x as int, px as int, row as int, size as int, self.color)
                    == sample_glyphs(bytes@, k as int, x as int, px as int, row as int, size as int, self.color),
            decreases bytes@.len() - k,
        {
            let code = bytes[k] as usize;
            let width = GLYPH_WIDTHS[code];
            let wide = multiply(width as i128, size);
            assert(0 <= wide <= 255 * 255) by (nonlinear_arith)
                requires
                    wide == width * size,
                    0 <= width <= 255,
                    0 <= size <= 255,
            ;
            assert((width + 1) * size == wide + size) by (nonlinear_arith)
                requires
                    wide == width * size,
            ;
            if px >= x && px < x + wide {
                let gx = (px - x) / size;
                let shift = width as i128 - gx - 1;
                if shift < 0 || shift >= 8 {
                    return None;
                }
                let line = GLYPHS[code][row];
                return if (line >> (shift as u8)) & 1 == 1 {
                    Some(self.color)
                } else {
                    None
                };
            }
            x = x + wide + size;
            k += 1;
        }
        None
    }
}

} // verus!
