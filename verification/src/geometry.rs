//! Sizes, pixel positions and plain two-dimensional vectors.

use vstd::prelude::*;
use vstd::arithmetic::div_mod::lemma_fundamental_div_mod_converse;
use vstd::std_specs::ops::{MulSpecImpl, SubSpecImpl};

verus! {

/// A width and a height in pixels.
#[derive(Copy, Clone, PartialEq, Eq, Debug, Structural)]
pub struct Size {
    pub width: i32,
    pub height: i32,
}

impl Size {
    /// Neither dimension is negative. A zero dimension is allowed and
    /// describes an empty area.
    pub open spec fn is_valid(&self) -> bool {
        self.width >= 0 && self.height >= 0
    }

    /// The number of pixels of the area, as a mathematical integer.
    pub open spec fn area(&self) -> int {
        self.width * self.height
    }

    /// The size is valid, and a buffer of four bytes for each pixel of the
    /// area can be addressed with 32-bit signed integers.
    pub open spec fn fits_canvas(&self) -> bool {
        self.is_valid() && 4 * self.area() <= i32::MAX
    }

    /// Note the order of the arguments: the height comes first.
    pub fn new(height: i32, width: i32) -> (size: Size)
        ensures
            size.width == width,
            size.height == height,
    {
        Size { width, height }
    }

    /// The number of bytes of the pixel buffer of a canvas of this size, or
    /// `None` for a size that no canvas can have.
    pub fn buffer_len(&self) -> (len: Option<usize>)
        ensures
            self.fits_canvas() <==> len is Some,
            len matches Some(bytes) ==> bytes == 4 * self.area(),
    {
        if self.width < 0 || self.height < 0 {
            return None;
        }
        let width = self.width as u64;
        let height = self.height as u64;
        assert(width * height <= 0x8000_0000 * 0x8000_0000) by (nonlinear_arith)
            requires
                0 <= width <= 0x8000_0000,
                0 <= height <= 0x8000_0000,
        ;
        let area = width * height;
        if area <= (i32::MAX as u64) / 4 {
            Some((4 * area) as usize)
        } else {
            None
        }
    }

    /// Whether an area of this size has a pixel at `position`. The pixel in
    /// the top-left corner is at `(0, 0)`.
    pub open spec fn holds(&self, position: Position) -> bool {
        &&& 0 <= position.x < self.width
        &&& 0 <= position.y < self.height
    }

    /// The index of the pixel at `position` when the pixels are counted row
    /// by row.
    pub open spec fn index_of(&self, position: Position) -> int {
        position.y * self.width + position.x
    }

    /// Computes the index of the pixel at `position`.
    pub fn position_to_index(&self, position: Position) -> (index: usize)
        requires
            self.area() <= i32::MAX,
            self.holds(position),
        ensures
            index == self.index_of(position),
            index < self.area(),
    {
        proof {
            lemma_index_of_position(*self, position);
        }
        let row = position.y as i64;
        let width = self.width as i64;
        assert(0 <= row * width <= 0x8000_0000 * 0x8000_0000) by (nonlinear_arith)
            requires
                0 <= row < 0x8000_0000,
                0 < width < 0x8000_0000,
        ;
        (row * width + position.x as i64) as usize
    }

    pub fn pixel_count(&self) -> (count: i32)
        requires
            i32::MIN <= self.area() <= i32::MAX,
        ensures
            count == self.area(),
    {
        self.width * self.height
    }
}

impl MulSpecImpl<i32> for Size {
    open spec fn obeys_mul_spec() -> bool {
        true
    }

    open spec fn mul_req(self, rhs: i32) -> bool {
        &&& i32::MIN <= self.width * rhs <= i32::MAX
        &&& i32::MIN <= self.height * rhs <= i32::MAX
    }

    open spec fn mul_spec(self, rhs: i32) -> Size {
        Size { width: (self.width * rhs) as i32, height: (self.height * rhs) as i32 }
    }
}

/// Scales both dimensions by the same factor.
impl core::ops::Mul<i32> for Size {
    type Output = Size;

    fn mul(self, rhs: i32) -> (scaled: Size) {
        Size { width: self.width * rhs, height: self.height * rhs }
    }
}

/// Counting row by row gives every pixel of an area an index of its own
/// below the number of pixels, from which the position can be had again:
/// the column is the remainder of the index by the width, the row is the
/// quotient.
pub proof fn lemma_index_of_position(size: Size, position: Position)
    requires
        size.holds(position),
    ensures
        0 <= size.index_of(position) < size.area(),
        size.index_of(position) % (size.width as int) == position.x,
        size.index_of(position) / (size.width as int) == position.y,
{
    let w = size.width as int;
    let h = size.height as int;
    let x = position.x as int;
    let y = position.y as int;
    assert(0 <= y * w && y * w + w <= h * w) by (nonlinear_arith)
        requires
            0 <= y < h,
            0 < w,
    ;
    assert(w * h == h * w) by (nonlinear_arith);
    lemma_fundamental_div_mod_converse(y * w + x, w, y, x);
}

/// The integer coordinate of a pixel. The origin is the top-left corner,
/// `x` grows to the right and `y` grows downwards.
#[derive(Copy, Clone, PartialEq, Eq, Debug, Structural)]
pub struct Position {
    pub x: i32,
    pub y: i32,
}

impl Position {
    pub fn new(x: i32, y: i32) -> (position: Position)
        ensures
            position.x == x,
            position.y == y,
    {
        Position { x, y }
    }
}

impl SubSpecImpl<Position> for Position {
    open spec fn obeys_sub_spec() -> bool {
        true
    }

    open spec fn sub_req(self, rhs: Position) -> bool {
        &&& i32::MIN <= self.x - rhs.x <= i32::MAX
        &&& i32::MIN <= self.y - rhs.y <= i32::MAX
    }

    open spec fn sub_spec(self, rhs: Position) -> Position {
        Position { x: (self.x - rhs.x) as i32, y: (self.y - rhs.y) as i32 }
    }
}

/// The difference of two positions, coordinate by coordinate.
impl core::ops::Sub<Position> for Position {
    type Output = Position;

    fn sub(self, rhs: Position) -> (difference: Position) {
        Position { x: self.x - rhs.x, y: self.y - rhs.y }
    }
}

/// A pair of coordinates of any type.
#[derive(Copy, Clone, Debug)]
pub struct Vector2<T> {
    pub x: T,
    pub y: T,
}

impl<T> Vector2<T> {
    pub fn new(x: T, y: T) -> (vector: Vector2<T>)
        ensures
            vector.x == x,
            vector.y == y,
    {
        Vector2 { x, y }
    }
}

} // verus!
