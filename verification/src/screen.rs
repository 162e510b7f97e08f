//! A monochrome screen, onto which shapes draw themselves.
//!
//! Positions on a screen count from one: the pixel in the top-left corner
//! is at `(1, 1)`.

use vstd::prelude::*;
use crate::geometry::{Position, Size};

verus! {

/// The two colors of a monochrome screen.
#[derive(Clone, Copy, PartialEq, Eq, Debug, Structural)]
pub enum Color {
    Black,
    White,
}

/// Whether a screen of the given size has a pixel at `position`.
pub open spec fn on_screen(position: Position, screen_size: Size) -> bool {
    &&& 1 <= position.x <= screen_size.width
    &&& 1 <= position.y <= screen_size.height
}

/// The place of the pixel at `position` in the buffer of a screen: the
/// pixels are laid out row by row.
pub open spec fn index_of(position: Position, screen_size: Size) -> int {
    (position.y - 1) * screen_size.width + (position.x - 1)
}

/// The number of pixels of a screen can be counted with 32-bit signed
/// integers.
pub open spec fn is_screen_size(size: Size) -> bool {
    size.is_valid() && size.area() <= i32::MAX
}

/// Every pixel of a screen has a place of its own in the buffer.
pub proof fn lemma_index_of(p: Position, q: Position, screen_size: Size)
    requires
        on_screen(p, screen_size),
        on_screen(q, screen_size),
    ensures
        0 <= index_of(p, screen_size) < screen_size.area(),
        index_of(p, screen_size) == index_of(q, screen_size) ==> p == q,
{
    let w = screen_size.width as int;
    let h = screen_size.height as int;
    let py = p.y - 1;
    let qy = q.y - 1;
    assert(0 <= py * w && py * w + w <= h * w) by (nonlinear_arith)
        requires
            0 <= py < h,
            0 < w,
    ;
    assert(w * h == h * w) by (nonlinear_arith);
    if py < qy {
        assert(py * w + w <= qy * w) by (nonlinear_arith)
            requires
                py + 1 <= qy,
                0 < w,
        ;
    }
    if qy < py {
        assert(qy * w + w <= py * w) by (nonlinear_arith)
            requires
                qy + 1 <= py,
                0 < w,
        ;
    }
}

/// The place of the pixel at `position` in the buffer of a screen of the
/// given size.
pub fn position_to_index(position: &Position, screen_size: &Size) -> (index: usize)
    requires
        is_screen_size(*screen_size),
        on_screen(*position, *screen_size),
    ensures
        index == index_of(*position, *screen_size),
        index < screen_size.area(),
{
    proof {
        lemma_index_of(*position, *position, *screen_size);
    }
    let row = (position.y - 1) as i64;
    let width = screen_size.width as i64;
    assert(0 <= row * width <= 0x8000_0000 * 0x8000_0000) by (nonlinear_arith)
        requires
            0 <= row < 0x8000_0000,
            0 < width < 0x8000_0000,
    ;
    (row * width + (position.x - 1) as i64) as usize
}

/// The coordinate that is nearest to `value`: `value` itself if it is one.
fn nearest_coordinate(value: i64) -> (coordinate: i32)
    ensures
        i32::MIN <= value <= i32::MAX ==> coordinate == value,
        value < i32::MIN ==> coordinate == i32::MIN,
        value > i32::MAX ==> coordinate == i32::MAX,
{
    if value < i32::MIN as i64 {
        i32::MIN
    } else if value > i32::MAX as i64 {
        i32::MAX
    } else {
        value as i32
    }
}

fn set_pixel(buffer: &mut [Color], screen_size: &Size, position: Position, color: Color)
    requires
        is_screen_size(*screen_size),
        old(buffer)@.len() == screen_size.area(),
        on_screen(position, *screen_size),
    ensures
        final(buffer)@.len() == old(buffer)@.len(),
        forall|q: Position|
            on_screen(q, *screen_size) ==> final(buffer)@[#[trigger] index_of(q, *screen_size)]
                == if q == position {
                color
            } else {
                old(buffer)@[index_of(q, *screen_size)]
            },
{
    let index = position_to_index(&position, screen_size);
    buffer[index] = color;
    assert forall|q: Position| on_screen(q, *screen_size) implies buffer@[#[trigger] index_of(
        q,
        *screen_size,
    )] == if q == position {
        color
    } else {
        old(buffer)@[index_of(q, *screen_size)]
    } by {
        lemma_index_of(position, q, *screen_size);
        lemma_index_of(q, position, *screen_size);
    }
}

/// A shape that can draw itself into the buffer of a screen.
pub trait Drawable: Sized {
    /// The color that the shape gives to the pixel at `position`, or `None`
    /// where it leaves the pixel as it is.
    spec fn drawn(&self, position: Position) -> Option<Color>;

    /// Tests whether every pixel that the shape draws is on a screen of the
    /// given size.
    fn fits(&self, screen_size: &Size) -> (ok: bool)
        requires
            is_screen_size(*screen_size),
        ensures
            ok == (forall|position: Position| #[trigger]
                self.drawn(position) is Some ==> on_screen(position, *screen_size)),
    ;

    /// Draws the shape into the buffer of a screen of the given size.
    fn draw(&self, buffer: &mut [Color], screen_size: &Size)
        requires
            is_screen_size(*screen_size),
            old(buffer)@.len() == screen_size.area(),
            forall|position: Position| #[trigger]
                self.drawn(position) is Some ==> on_screen(position, *screen_size),
        ensures
            final(buffer)@.len() == old(buffer)@.len(),
            forall|q: Position|
                on_screen(q, *screen_size) ==> final(buffer)@[#[trigger] index_of(q, *screen_size)]
                    == match self.drawn(q) {
                    Some(color) => color,
                    None => old(buffer)@[index_of(q, *screen_size)],
                },
    ;
}

/// Every pixel that the shape draws is on a screen of the given size: what
/// `fits` tests, and what `draw` asks for.
pub open spec fn fits_screen<D: Drawable>(shape: D, screen_size: Size) -> bool {
    forall|position: Position| #[trigger]
        shape.drawn(position) is Some ==> on_screen(position, screen_size)
}

/// What a pixel that showed `base` shows after the shape was drawn.
pub open spec fn drawn_over<D: Drawable>(shape: D, position: Position, base: Color) -> Color {
    match shape.drawn(position) {
        Some(color) => color,
        None => base,
    }
}

/// What a pixel that showed `base` shows after the shapes were drawn, one
/// after the other.
pub open spec fn all_drawn_over<D: Drawable>(
    shapes: Seq<D>,
    position: Position,
    base: Color,
) -> Color
    decreases shapes.len(),
{
    if shapes.len() == 0 {
        base
    } else {
        drawn_over(shapes.last(), position, all_drawn_over(shapes.drop_last(), position, base))
    }
}

/// Every shape of the sequence fits on a screen of the given size.
pub open spec fn all_fit_screen<D: Drawable>(shapes: Seq<D>, screen_size: Size) -> bool {
    forall|k: int| 0 <= k < shapes.len() ==> fits_screen(#[trigger] shapes[k], screen_size)
}

/// An axis-aligned filled rectangle, given by its center and its size.
pub struct Rectangle {
    pub center: Position,
    pub size: Size,
    pub color: Color,
}

/// Half of an extent, rounded towards zero.
pub open spec fn half(extent: int) -> int {
    if extent >= 0 {
        extent / 2
    } else {
        -((-extent) / 2)
    }
}

impl Rectangle {
    /// Whether the rectangle holds the pixel at `position`: in each
    /// direction it is at most half the extent away from the center.
    pub open spec fn covers(&self, position: Position) -> bool {
        &&& self.center.x - half(self.size.width as int) <= position.x
        &&& position.x <= self.center.x + half(self.size.width as int)
        &&& self.center.y - half(self.size.height as int) <= position.y
        &&& position.y <= self.center.y + half(self.size.height as int)
    }
}

impl Drawable for Rectangle {
    open spec fn drawn(&self, position: Position) -> Option<Color> {
        if self.covers(position) {
            Some(self.color)
        } else {
            None
        }
    }

    fn fits(&self, screen_size: &Size) -> (ok: bool) {
        let half_width = (self.size.width / 2) as i64;
        let half_height = (self.size.height / 2) as i64;
        if half_width < 0 || half_height < 0 {
            return true;
        }
        let left = nearest_coordinate(self.center.x as i64 - half_width);
        let right = nearest_coordinate(self.center.x as i64 + half_width);
        let top = nearest_coordinate(self.center.y as i64 - half_height);
        let bottom = nearest_coordinate(self.center.y as i64 + half_height);
        proof {
            let center = self.center;
            assert(self.drawn(Position { x: left, y: center.y }) is Some);
            assert(self.drawn(Position { x: right, y: center.y }) is Some);
            assert(self.drawn(Position { x: center.x, y: top }) is Some);
            assert(self.drawn(Position { x: center.x, y: bottom }) is Some);
        }
        1 <= left && right <= screen_size.width && 1 <= top && bottom <= screen_size.height
    }

    fn draw(&self, buffer: &mut [Color], screen_size: &Size) {
        let half_width = (self.size.width / 2) as i64;
        let half_height = (self.size.height / 2) as i64;
        if half_width < 0 || half_height < 0 {
            return;
        }
        let left = nearest_coordinate(self.center.x as i64 - half_width);
        let right = nearest_coordinate(self.center.x as i64 + half_width);
        let top = nearest_coordinate(self.center.y as i64 - half_height);
        let bottom = nearest_coordinate(self.center.y as i64 + half_height);
        let mut x: i64 = left as i64;
        while x <= right as i64
            invariant
                left <= x <= right + 1,
                top <= bottom,
                forall|q: Position|
                    self.covers(q) <==> left <= q.x <= right && top <= q.y <= bottom,
                is_screen_size(*screen_size),
                forall|p: Position| #[trigger]
                    self.drawn(p) is Some ==> on_screen(p, *screen_size),
                buffer@.len() == old(buffer)@.len(),
                buffer@.len() == screen_size.area(),
                forall|q: Position|
                    on_screen(q, *screen_size) ==> buffer@[#[trigger] index_of(q, *screen_size)]
                        == if self.covers(q) && q.x < x {
                        self.color
                    } else {
                        old(buffer)@[index_of(q, *screen_size)]
                    },
            decreases right + 1 - x,
        {
            let mut y: i64 = top as i64;
            while y <= bottom as i64
                invariant
                    left <= x <= right,
                    top <= y <= bottom + 1,
                    forall|q: Position|
                        self.covers(q) <==> left <= q.x <= right && top <= q.y <= bottom,
                    is_screen_size(*screen_size),
                    forall|p: Position| #[trigger]
                        self.drawn(p) is Some ==> on_screen(p, *screen_size),
                    buffer@.len() == old(buffer)@.len(),
                    buffer@.len() == screen_size.area(),
                    forall|q: Position|
                        on_screen(q, *screen_size) ==> buffer@[#[trigger] index_of(q, *screen_size)]
                            == if self.covers(q) && (q.x < x || (q.x == x && q.y < y)) {
                            self.color
                        } else {
                            old(buffer)@[index_of(q, *screen_size)]
                        },
                decreases bottom + 1 - y,
            {
                let here = Position { x: x as i32, y: y as i32 };
                assert(self.drawn(here) is Some);
                set_pixel(buffer, screen_size, here, self.color);
                y += 1;
            }
            x += 1;
        }
    }
}

/// A filled disc, given by its center and its radius.
pub struct Circle {
    pub center: Position,
    pub radius: i32,
    pub color: Color,
}

impl Circle {
    /// Whether `position` is at most the radius away from the center.
    pub open spec fn is_within_bound(&self, position: Position) -> bool {
        (position.x - self.center.x) * (position.x - self.center.x) + (position.y - self.center.y)
            * (position.y - self.center.y) <= self.radius * self.radius
    }

    /// The square of pixels that holds the disc.
    pub open spec fn in_bounding_box(&self, position: Position) -> bool {
        &&& self.center.x - self.radius <= position.x <= self.center.x + self.radius
        &&& self.center.y - self.radius <= position.y <= self.center.y + self.radius
    }

    /// Tests whether `position` is at most the radius away from the center.
    pub fn within_bound(&self, position: &Position) -> (within: bool)
        ensures
            within == self.is_within_bound(*position),
    {
        let dx = position.x as i128 - self.center.x as i128;
        let dy = position.y as i128 - self.center.y as i128;
        let radius = self.radius as i128;
        assert(0 <= dx * dx <= 0x1_0000_0000 * 0x1_0000_0000) by (nonlinear_arith)
            requires
                -0x1_0000_0000 < dx < 0x1_0000_0000,
        ;
        assert(0 <= dy * dy <= 0x1_0000_0000 * 0x1_0000_0000) by (nonlinear_arith)
            requires
                -0x1_0000_0000 < dy < 0x1_0000_0000,
        ;
        assert(0 <= radius * radius <= 0x1_0000_0000 * 0x1_0000_0000) by (nonlinear_arith)
            requires
                -0x1_0000_0000 < radius < 0x1_0000_0000,
        ;
        dx * dx + dy * dy <= radius * radius
    }
}

/// A pixel that is nearer to the center than the radius, along one axis, is
/// within the bound.
proof fn lemma_square_within(d: int, radius: int)
    by (nonlinear_arith)
    requires
        -radius <= d <= radius,
    ensures
        0 <= d * d <= radius * radius,
        d * d + 0 * 0 <= radius * radius,
        0 * 0 + d * d <= radius * radius,
{
}

impl Drawable for Circle {
    open spec fn drawn(&self, position: Position) -> Option<Color> {
        if self.in_bounding_box(position) && self.is_within_bound(position) {
            Some(self.color)
        } else {
            None
        }
    }

    fn fits(&self, screen_size: &Size) -> (ok: bool) {
        if self.radius < 0 {
            return true;
        }
        let radius = self.radius as i64;
        let left = nearest_coordinate(self.center.x as i64 - radius);
        let right = nearest_coordinate(self.center.x as i64 + radius);
        let top = nearest_coordinate(self.center.y as i64 - radius);
        let bottom = nearest_coordinate(self.center.y as i64 + radius);
        proof {
            let center = self.center;
            lemma_square_within(left - center.x, radius as int);
            lemma_square_within(right - center.x, radius as int);
            lemma_square_within(top - center.y, radius as int);
            lemma_square_within(bottom - center.y, radius as int);
            assert(self.drawn(Position { x: left, y: center.y }) is Some);
            assert(self.drawn(Position { x: right, y: center.y }) is Some);
            assert(self.drawn(Position { x: center.x, y: top }) is Some);
            assert(self.drawn(Position { x: center.x, y: bottom }) is Some);
        }
        1 <= left && right <= screen_size.width && 1 <= top && bottom <= screen_size.height
    }

    fn draw(&self, buffer: &mut [Color], screen_size: &Size) {
        if self.radius < 0 {
            return;
        }
        let radius = self.radius as i64;
        let left = nearest_coordinate(self.center.x as i64 - radius);
        let right = nearest_coordinate(self.center.x as i64 + radius);
        let top = nearest_coordinate(self.center.y as i64 - radius);
        let bottom = nearest_coordinate(self.center.y as i64 + radius);
        // The loops go through the square that holds the disc.
        let mut x: i64 = left as i64;
        while x <= right as i64
            invariant
                left <= x <= right + 1,
                top <= bottom,
                forall|q: Position|
                    self.in_bounding_box(q) <==> left <= q.x <= right && top <= q.y <= bottom,
                is_screen_size(*screen_size),
                forall|p: Position| #[trigger]
                    self.drawn(p) is Some ==> on_screen(p, *screen_size),
                buffer@.len() == old(buffer)@.len(),
                buffer@.len() == screen_size.area(),
                forall|q: Position|
                    on_screen(q, *screen_size) ==> buffer@[#[trigger] index_of(q, *screen_size)]
                        == if self.drawn(q) is Some && q.x < x {
                        self.color
                    } else {
                        old(buffer)@[index_of(q, *screen_size)]
                    },
            decreases right + 1 - x,
        {
            let mut y: i64 = top as i64;
            while y <= bottom as i64
                invariant
                    left <= x <= right,
                    top <= y <= bottom + 1,
                    forall|q: Position|
                        self.in_bounding_box(q) <==> left <= q.x <= right && top <= q.y <= bottom,
                    is_screen_size(*screen_size),
                    forall|p: Position| #[trigger]
                        self.drawn(p) is Some ==> on_screen(p, *screen_size),
                    buffer@.len() == old(buffer)@.len(),
                    buffer@.len() == screen_size.area(),
                    forall|q: Position|
                        on_screen(q, *screen_size) ==> buffer@[#[trigger] index_of(q, *screen_size)]
                            == if self.drawn(q) is Some && (q.x < x || (q.x == x && q.y < y)) {
                            self.color
                        } else {
                            old(buffer)@[index_of(q, *screen_size)]
                        },
                decreases bottom + 1 - y,
            {
                let position = Position { x: x as i32, y: y as i32 };
                if self.within_bound(&position) {
                    assert(self.drawn(position) is Some);
                    set_pixel(buffer, screen_size, position, self.color);
                }
                y += 1;
            }
            x += 1;
        }
    }
}

/// A buffer of pixels of two colors, laid out row by row, and the color
/// that it is cleared to.
#[derive(PartialEq, Eq, Debug)]
pub struct Screen {
    size: Size,
    buffer: Vec<Color>,
    background_color: Color,
}

pub const DEFAULT_SCREEN_WIDTH: i32 = 640;

pub const DEFAULT_SCREEN_HEIGHT: i32 = 480;

impl Screen {
    /// The width and height of the screen.
    pub closed spec fn size(&self) -> Size {
        self.size
    }

    /// The pixels of the screen, row by row.
    pub closed spec fn pixels(&self) -> Seq<Color> {
        self.buffer@
    }

    /// The color that the screen is cleared to.
    pub closed spec fn background(&self) -> Color {
        self.background_color
    }

    /// The buffer holds one pixel for every position of the size.
    pub open spec fn well_formed(&self) -> bool {
        &&& is_screen_size(self.size())
        &&& self.pixels().len() == self.size().area()
    }

    /// The pixel at `position`.
    pub open spec fn pixel(&self, position: Position) -> Color {
        self.pixels()[index_of(position, self.size())]
    }

    /// A screen of the given size, all black.
    pub fn with_size(size: Size) -> (screen: Screen)
        requires
            is_screen_size(size),
        ensures
            screen.well_formed(),
            screen.size() == size,
            screen.background() == Color::Black,
            forall|i: int| 0 <= i < screen.pixels().len() ==> screen.pixels()[i] == Color::Black,
    {
        let mut screen = Screen { size, buffer: Vec::new(), background_color: Color::Black };
        screen.resize(size.width, size.height);
        screen
    }

    pub fn set_background_color(&mut self, color: Color)
        ensures
            final(self).background() == color,
            final(self).size() == old(self).size(),
            final(self).pixels() == old(self).pixels(),
    {
        self.background_color = color
    }

    /// Gives the screen another size. The buffer keeps the pixels that it
    /// has room for, in their order, and every pixel that is new has the
    /// background color.
    pub fn resize(&mut self, width: i32, height: i32)
        requires
            is_screen_size(Size { width, height }),
        ensures
            final(self).well_formed(),
            final(self).size() == (Size { width, height }),
            final(self).background() == old(self).background(),
            forall|i: int|
                0 <= i < final(self).pixels().len() ==> final(self).pixels()[i] == if i < old(
                    self,
                ).pixels().len() {
                    old(self).pixels()[i]
                } else {
                    old(self).background()
                },
    {
        self.size = Size { width, height };
        let pixels = self.size.pixel_count() as usize;
        let kept = self.buffer.len();
        let ghost before = self.buffer@;
        self.buffer.resize(pixels, self.background_color);
        proof {
            if pixels > kept {
                assert(self.buffer@.subrange(0, kept as int) == before);
                assert forall|i: int| 0 <= i < kept implies self.buffer@[i] == before[i] by {
                    assert(self.buffer@.subrange(0, kept as int)[i] == self.buffer@[i]);
                }
            }
        }
    }

    /// Gives every pixel the background color.
    pub fn clear_buffer(&mut self)
        ensures
            final(self).size() == old(self).size(),
            final(self).background() == old(self).background(),
            final(self).pixels().len() == old(self).pixels().len(),
            forall|i: int|
                0 <= i < final(self).pixels().len() ==> final(self).pixels()[i] == old(
                    self,
                ).background(),
    {
        let mut k: usize = 0;
        while k < self.buffer.len()
            invariant
                k <= self.buffer@.len(),
                self.size == old(self).size,
                self.background_color == old(self).background_color,
                self.buffer@.len() == old(self).buffer@.len(),
                forall|i: int| 0 <= i < k ==> self.buffer@[i] == self.background_color,
            decreases self.buffer@.len() - k,
        {
            self.buffer[k] = self.background_color;
            k += 1;
        }
    }

    /// Lets the shapes draw themselves, one after the other.
    pub fn render<D: Drawable>(&mut self, objects: &[D])
        requires
            old(self).well_formed(),
            all_fit_screen(objects@, old(self).size()),
        ensures
            final(self).well_formed(),
            final(self).size() == old(self).size(),
            final(self).background() == old(self).background(),
            forall|q: Position|
                on_screen(q, old(self).size()) ==> #[trigger] final(self).pixel(q)
                    == all_drawn_over(objects@, q, old(self).pixel(q)),
    {
        let mut k: usize = 0;
        assert(objects@.take(0) =~= Seq::<D>::empty());
        while k < objects.len()
            invariant
                k <= objects@.len(),
                self.size == old(self).size,
                self.background_color == old(self).background_color,
                self.well_formed(),
                all_fit_screen(objects@, self.size),
                forall|q: Position|
                    on_screen(q, self.size) ==> self.buffer@[#[trigger] index_of(q, self.size)]
                        == all_drawn_over(
                        objects@.take(k as int),
                        q,
                        old(self).buffer@[index_of(q, self.size)],
                    ),
            decreases objects@.len() - k,
        {
            proof {
                let next = objects@.take(k + 1);
                assert(next.drop_last() =~= objects@.take(k as int));
                assert(next.last() == objects@[k as int]);
            }
            objects[k].draw(self.buffer.as_mut_slice(), &self.size);
            k += 1;
        }
        assert(objects@.take(k as int) =~= objects@);
    }

    pub fn size_ref(&self) -> (size: &Size)
        ensures
            *size == self.size(),
    {
        &self.size
    }

    /// The pixels of the screen, row by row.
    pub fn buffer_ref(&self) -> (pixels: &[Color])
        ensures
            pixels@ == self.pixels(),
    {
        self.buffer.as_slice()
    }
}

impl Default for Screen {
    /// A screen of `DEFAULT_SCREEN_WIDTH` by `DEFAULT_SCREEN_HEIGHT` pixels,
    /// all black.
    fn default() -> (screen: Screen)
        ensures
            screen.well_formed(),
            screen.size() == (Size { width: DEFAULT_SCREEN_WIDTH, height: DEFAULT_SCREEN_HEIGHT }),
            screen.background() == Color::Black,
            forall|i: int| 0 <= i < screen.pixels().len() ==> screen.pixels()[i] == Color::Black,
    {
        Screen::with_size(Size { width: DEFAULT_SCREEN_WIDTH, height: DEFAULT_SCREEN_HEIGHT })
    }
}

} // verus!
