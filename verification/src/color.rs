//! RGBA colors and the alpha-weighted compositing operator.

use vstd::prelude::*;
use vstd::arithmetic::div_mod::lemma_fundamental_div_mod_converse;
use vstd::std_specs::ops::AddSpecImpl;

verus! {

/// An RGBA color with 8 bits per channel.
#[derive(Clone, Copy, PartialEq, Eq, Debug, Structural)]
pub struct Color {
    pub r: u8,
    pub g: u8,
    pub b: u8,
    pub a: u8,
}

/// One blended channel: `base` weighted by `255 - alpha`, `over` weighted by
/// `alpha`, divided by 255 with truncation.
pub open spec fn blend_channel(base: u8, over: u8, alpha: u8) -> int {
    (base * (255 - alpha) + over * alpha) / 255
}

/// The larger of two channel values.
pub open spec fn max_channel(x: u8, y: u8) -> u8 {
    if x >= y { x } else { y }
}

/// The color that results from painting `over` on top of `base`.
pub open spec fn composite(base: Color, over: Color) -> Color {
    Color {
        r: blend_channel(base.r, over.r, over.a) as u8,
        g: blend_channel(base.g, over.g, over.a) as u8,
        b: blend_channel(base.b, over.b, over.a) as u8,
        a: max_channel(base.a, over.a),
    }
}

/// A blended channel always lies between 0 and 255, so narrowing it back to
/// eight bits loses nothing.
pub proof fn lemma_blend_channel_bounds(base: u8, over: u8, alpha: u8)
    ensures
        0 <= blend_channel(base, over, alpha) <= 255,
{
    assert(base * (255 - alpha) + over * alpha <= 255 * 255) by (nonlinear_arith)
        requires
            0 <= base <= 255,
            0 <= over <= 255,
            0 <= alpha <= 255,
    ;
    assert(0 <= base * (255 - alpha) + over * alpha) by (nonlinear_arith)
        requires
            0 <= base <= 255,
            0 <= over <= 255,
            0 <= alpha <= 255,
    ;
}

fn blend(base: u8, over: u8, alpha: u8) -> (out: u8)
    ensures
        out == blend_channel(base, over, alpha),
{
    proof {
        lemma_blend_channel_bounds(base, over, alpha);
    }
    let keep: u32 = 255 - alpha as u32;
    assert(base * keep <= 255 * 255) by (nonlinear_arith)
        requires
            0 <= base <= 255,
            0 <= keep <= 255,
    ;
    assert(over * alpha <= 255 * 255) by (nonlinear_arith)
        requires
            0 <= over <= 255,
            0 <= alpha <= 255,
    ;
    let sum: u32 = base as u32 * keep + over as u32 * alpha as u32;
    (sum / 255) as u8
}

/// The color whose channels are the four bytes of `rgba`, the red channel
/// in the most significant byte and the alpha channel in the least.
pub open spec fn unpacked(rgba: u32) -> Color {
    Color {
        r: (rgba / 0x100_0000) as u8,
        g: (rgba / 0x1_0000 % 0x100) as u8,
        b: (rgba / 0x100 % 0x100) as u8,
        a: (rgba % 0x100) as u8,
    }
}

/// The four channels of a color as one number, the red channel in the most
/// significant byte and the alpha channel in the least.
pub open spec fn packed(color: Color) -> int {
    color.r * 0x100_0000 + color.g * 0x1_0000 + color.b * 0x100 + color.a
}

impl Color {
    /// The number of channels of a color, and of bytes of a pixel.
    pub const CHANNELS: usize = 4;

    /// Opaque black.
    pub open spec fn black_spec() -> Color {
        Color { r: 0x00, g: 0x00, b: 0x00, a: 0xFF }
    }

    #[verifier::when_used_as_spec(black_spec)]
    pub fn black() -> (color: Color)
        ensures
            color == Color::black_spec(),
    {
        Color { r: 0x00, g: 0x00, b: 0x00, a: 0xFF }
    }

    pub fn white() -> (color: Color)
        ensures
            color == (Color { r: 0xFF, g: 0xFF, b: 0xFF, a: 0xFF }),
    {
        Color { r: 0xFF, g: 0xFF, b: 0xFF, a: 0xFF }
    }

    pub fn gray() -> (color: Color)
        ensures
            color == (Color { r: 0x18, g: 0x18, b: 0x18, a: 0xFF }),
    {
        Color { r: 0x18, g: 0x18, b: 0x18, a: 0xFF }
    }

    pub fn red() -> (color: Color)
        ensures
            color == (Color { r: 0xFF, g: 0x00, b: 0x00, a: 0xFF }),
    {
        Color { r: 0xFF, g: 0x00, b: 0x00, a: 0xFF }
    }

    pub fn green() -> (color: Color)
        ensures
            color == (Color { r: 0x00, g: 0xFF, b: 0x00, a: 0xFF }),
    {
        Color { r: 0x00, g: 0xFF, b: 0x00, a: 0xFF }
    }

    pub fn blue() -> (color: Color)
        ensures
            color == (Color { r: 0x00, g: 0x00, b: 0xFF, a: 0xFF }),
    {
        Color { r: 0x00, g: 0x00, b: 0xFF, a: 0xFF }
    }

    pub fn light_pink() -> (color: Color)
        ensures
            color == (Color { r: 0xFF, g: 0xC0, b: 0xCB, a: 0xFF }),
    {
        Color { r: 0xFF, g: 0xC0, b: 0xCB, a: 0xFF }
    }

    pub fn bright_pink() -> (color: Color)
        ensures
            color == (Color { r: 0xFC, g: 0x0F, b: 0xC0, a: 0xFF }),
    {
        Color { r: 0xFC, g: 0x0F, b: 0xC0, a: 0xFF }
    }

    pub fn from_rgba(r: u8, g: u8, b: u8, a: u8) -> (color: Color)
        ensures
            color == (Color { r, g, b, a }),
    {
        Color { r, g, b, a }
    }

    pub fn from_rgba_array(rgba: [u8; 4]) -> (color: Color)
        ensures
            color == (Color { r: rgba@[0], g: rgba@[1], b: rgba@[2], a: rgba@[3] }),
    {
        Color { r: rgba[0], g: rgba[1], b: rgba[2], a: rgba[3] }
    }

    /// The same as `from_rgba_array`.
    pub fn from_rgba_slice(rgba: [u8; 4]) -> (color: Color)
        ensures
            color == (Color { r: rgba@[0], g: rgba@[1], b: rgba@[2], a: rgba@[3] }),
    {
        Color::from_rgba_array(rgba)
    }

    pub fn to_rgba_array(&self) -> (rgba: [u8; 4])
        ensures
            rgba@ == seq![self.r, self.g, self.b, self.a],
    {
        let rgba = [self.r, self.g, self.b, self.a];
        assert(rgba@ =~= seq![self.r, self.g, self.b, self.a]);
        rgba
    }

    pub fn from_rgba_u32(rgba: u32) -> (color: Color)
        ensures
            color == unpacked(rgba),
    {
        assert((rgba >> 24) == rgba / 0x100_0000 && (rgba >> 24) < 0x100) by (bit_vector);
        assert(((rgba >> 16) & 0xff) == rgba / 0x1_0000 % 0x100) by (bit_vector);
        assert(((rgba >> 8) & 0xff) == rgba / 0x100 % 0x100) by (bit_vector);
        assert((rgba & 0xff) == rgba % 0x100) by (bit_vector);
        Color {
            r: (rgba >> 24) as u8,
            g: ((rgba >> 16) & 0xff) as u8,
            b: ((rgba >> 8) & 0xff) as u8,
            a: (rgba & 0xff) as u8,
        }
    }

    pub fn to_u32(&self) -> (rgba: u32)
        ensures
            rgba == packed(*self),
            unpacked(rgba) == *self,
    {
        let r = self.r as u32;
        let g = self.g as u32;
        let b = self.b as u32;
        let a = self.a as u32;
        let rgba = (r << 24) | (g << 16) | (b << 8) | a;
        proof {
            lemma_packed_bits(r, g, b, a);
            lemma_unpacked_packed(*self);
        }
        rgba
    }

    /// The same color with another alpha channel.
    pub fn with_alpha(&self, alpha: u8) -> (color: Color)
        ensures
            color == (Color { a: alpha, ..*self }),
    {
        Color { r: self.r, g: self.g, b: self.b, a: alpha }
    }

    /// Paints `over` on top of `self`.
    pub fn composite(self, over: Color) -> (out: Color)
        ensures
            out == composite(self, over),
    {
        Color {
            r: blend(self.r, over.r, over.a),
            g: blend(self.g, over.g, over.a),
            b: blend(self.b, over.b, over.a),
            a: if self.a >= over.a { self.a } else { over.a },
        }
    }
}

impl AddSpecImpl<Color> for Color {
    open spec fn obeys_add_spec() -> bool {
        true
    }

    open spec fn add_req(self, rhs: Color) -> bool {
        true
    }

    open spec fn add_spec(self, rhs: Color) -> Color {
        composite(self, rhs)
    }
}

/// `base + over` paints `over` on top of `base`.
impl core::ops::Add<Color> for Color {
    type Output = Color;

    fn add(self, rhs: Color) -> (out: Color) {
        self.composite(rhs)
    }
}

/// Painting a fully transparent color changes nothing.
pub proof fn lemma_composite_transparent(base: Color, over: Color)
    requires
        over.a == 0,
    ensures
        composite(base, over) == base,
{
}

/// Painting a fully opaque color replaces what was there.
pub proof fn lemma_composite_opaque(base: Color, over: Color)
    requires
        over.a == 255,
    ensures
        composite(base, over) == over,
{
}

proof fn lemma_packed_bits(r: u32, g: u32, b: u32, a: u32)
    by (bit_vector)
    requires
        r < 0x100,
        g < 0x100,
        b < 0x100,
        a < 0x100,
    ensures
        ((r << 24) | (g << 16) | (b << 8) | a) == r * 0x100_0000 + g * 0x1_0000 + b * 0x100 + a,
{
}

/// Packing a color into a number and unpacking it gives the color back.
pub proof fn lemma_unpacked_packed(color: Color)
    ensures
        0 <= packed(color) <= u32::MAX,
        unpacked(packed(color) as u32) == color,
{
    let r = color.r as int;
    let g = color.g as int;
    let b = color.b as int;
    let a = color.a as int;
    let rgba = packed(color);
    lemma_fundamental_div_mod_converse(rgba, 0x100_0000, r, g * 0x1_0000 + b * 0x100 + a);
    lemma_fundamental_div_mod_converse(rgba, 0x1_0000, r * 0x100 + g, b * 0x100 + a);
    lemma_fundamental_div_mod_converse(r * 0x100 + g, 0x100, r, g);
    lemma_fundamental_div_mod_converse(rgba, 0x100, r * 0x1_0000 + g * 0x100 + b, a);
    lemma_fundamental_div_mod_converse(r * 0x1_0000 + g * 0x100 + b, 0x100, r * 0x100 + g, b);
}

} // verus!
