//! The canvas: a buffer of pixels that shapes are rendered into.

use vstd::prelude::*;
use vstd::std_specs::cmp::{PartialEqSpec, PartialEqSpecImpl};
use crate::chunks::{
    lemma_chunk_within_buffer, lemma_chunks_are_consecutive, lemma_chunks_hold_whole_pixels,
    lemma_no_chunks_in_empty_buffer, pixels_per_chunk, whole_cache_lines, ChunkPlan,
};
use crate::color::Color;
use crate::drawable::{all_well_formed, lemma_painted_in_two_passes, paint, painted, Drawable};
use crate::geometry::{lemma_index_of_position, Position, Size};

verus! {

/// The pixel with the given index in a buffer of four bytes per pixel: red,
/// green, blue, alpha.
pub open spec fn pixel_of(bytes: Seq<u8>, index: int) -> Color {
    Color {
        r: bytes[4 * index],
        g: bytes[4 * index + 1],
        b: bytes[4 * index + 2],
        a: bytes[4 * index + 3],
    }
}

/// One of the four bytes of a pixel.
pub open spec fn channel(color: Color, which: int) -> u8 {
    if which == 0 {
        color.r
    } else if which == 1 {
        color.g
    } else if which == 2 {
        color.b
    } else {
        color.a
    }
}

/// The position of the pixel with the given index on a canvas of the given
/// width: the pixels are laid out row by row.
pub open spec fn position_of(index: int, width: int) -> Position {
    Position { x: (index % width) as i32, y: (index / width) as i32 }
}

/// The bytes of a run of pixels after the shapes have been painted over it.
/// The first pixel of the run has the index `first_pixel` on a canvas of the
/// given width.
pub open spec fn rendered<D: Drawable>(
    bytes: Seq<u8>,
    first_pixel: int,
    width: int,
    entities: Seq<D>,
) -> Seq<u8> {
    Seq::new(
        bytes.len(),
        |i: int|
            channel(
                painted(entities, position_of(first_pixel + i / 4, width), pixel_of(bytes, i / 4)),
                i % 4,
            ),
    )
}

/// Paints the shapes over every pixel of `chunk`, a run of whole pixels of a
/// canvas of the given width that starts with the pixel of index
/// `first_pixel`. Nothing but `chunk` is written to, so disjoint chunks of
/// one buffer can be rendered in any order, or at the same time.
pub fn render_chunk<D: Drawable>(chunk: &mut [u8], first_pixel: usize, width: i32, entities: &[D])
    requires
        old(chunk)@.len() % 4 == 0,
        width > 0,
        first_pixel + old(chunk)@.len() / 4 <= i32::MAX,
        all_well_formed(entities@),
    ensures
        final(chunk)@ == rendered(old(chunk)@, first_pixel as int, width as int, entities@),
{
    let pixels = chunk.len() / 4;
    let mut k: usize = 0;
    while k < pixels
        invariant
            k <= pixels,
            pixels == old(chunk)@.len() / 4,
            old(chunk)@.len() % 4 == 0,
            chunk@.len() == old(chunk)@.len(),
            chunk@.len() <= usize::MAX,
            width > 0,
            first_pixel + pixels <= i32::MAX,
            all_well_formed(entities@),
            forall|i: int|
                0 <= i < 4 * k ==> chunk@[i] == rendered(
                    old(chunk)@,
                    first_pixel as int,
                    width as int,
                    entities@,
                )[i],
            forall|i: int| 4 * k <= i < chunk@.len() ==> chunk@[i] == old(chunk)@[i],
        decreases pixels - k,
    {
        let index = (first_pixel + k) as i32;
        let position = Position { x: index % width, y: index / width };
        let at = 4 * k;
        let base = Color::from_rgba(chunk[at], chunk[at + 1], chunk[at + 2], chunk[at + 3]);
        let color = paint(entities, position, base);
        chunk[at] = color.r;
        chunk[at + 1] = color.g;
        chunk[at + 2] = color.b;
        chunk[at + 3] = color.a;
        k += 1;
    }
    assert(chunk@ =~= rendered(old(chunk)@, first_pixel as int, width as int, entities@));
}

/// After a render pass a pixel shows what it showed before with the shapes
/// painted over it, in their order.
pub proof fn lemma_rendered_pixel<D: Drawable>(
    bytes: Seq<u8>,
    first_pixel: int,
    width: int,
    entities: Seq<D>,
    index: int,
)
    requires
        0 <= index,
        4 * index + 3 < bytes.len(),
    ensures
        pixel_of(rendered(bytes, first_pixel, width, entities), index) == painted(
            entities,
            position_of(first_pixel + index, width),
            pixel_of(bytes, index),
        ),
{
    assert((4 * index) / 4 == index && (4 * index) % 4 == 0);
    assert((4 * index + 1) / 4 == index && (4 * index + 1) % 4 == 1);
    assert((4 * index + 2) / 4 == index && (4 * index + 2) % 4 == 2);
    assert((4 * index + 3) / 4 == index && (4 * index + 3) % 4 == 3);
}

/// After a render pass over a canvas the pixel at a position shows what it
/// showed before with the shapes painted over it as they are at that
/// position. The pixel at `(x, y)` is the one with the index
/// `y * width + x`.
pub proof fn lemma_rendered_position<D: Drawable>(
    size: Size,
    bytes: Seq<u8>,
    entities: Seq<D>,
    position: Position,
)
    requires
        bytes.len() == 4 * size.area(),
        size.holds(position),
    ensures
        pixel_of(rendered(bytes, 0, size.width as int, entities), size.index_of(position))
            == painted(entities, position, pixel_of(bytes, size.index_of(position))),
{
    lemma_index_of_position(size, position);
    lemma_rendered_pixel(bytes, 0, size.width as int, entities, size.index_of(position));
}

/// Two render passes, one after the other, leave what one pass with the
/// shapes of both leaves.
pub proof fn lemma_rendered_in_two_passes<D: Drawable>(
    bytes: Seq<u8>,
    first_pixel: int,
    width: int,
    first: Seq<D>,
    second: Seq<D>,
)
    requires
        bytes.len() % 4 == 0,
    ensures
        rendered(rendered(bytes, first_pixel, width, first), first_pixel, width, second)
            == rendered(bytes, first_pixel, width, first + second),
{
    let once = rendered(bytes, first_pixel, width, first);
    let twice = rendered(once, first_pixel, width, second);
    let both = rendered(bytes, first_pixel, width, first + second);
    assert forall|i: int| 0 <= i < bytes.len() implies twice[i] == both[i] by {
        let pixel = i / 4;
        lemma_rendered_pixel(bytes, first_pixel, width, first, pixel);
        lemma_painted_in_two_passes(
            first,
            second,
            position_of(first_pixel + pixel, width),
            pixel_of(bytes, pixel),
        );
    }
    assert(twice =~= both);
}

/// A render pass can be made chunk by chunk: to render chunk `k` of a plan
/// by itself gives the bytes that a pass over the whole buffer gives for the
/// byte range of that chunk. Together with the fact that the chunks of a plan
/// divide the buffer, this is what allows one task for each chunk.
pub proof fn lemma_render_chunk_by_chunk<D: Drawable>(
    bytes: Seq<u8>,
    width: int,
    entities: Seq<D>,
    plan: ChunkPlan,
    k: int,
)
    requires
        plan.well_formed(),
        plan.total_bytes == bytes.len(),
        0 <= k < plan.count(),
    ensures
        rendered(
            bytes.subrange(plan.start(k), plan.end(k)),
            plan.first_pixel(k),
            width,
            entities,
        ) == rendered(bytes, 0, width, entities).subrange(plan.start(k), plan.end(k)),
{
    let start = plan.start(k);
    let end = plan.end(k);
    let first = plan.first_pixel(k);
    lemma_chunk_within_buffer(plan, k);
    lemma_chunks_hold_whole_pixels(plan, k);
    let chunk = bytes.subrange(start, end);
    let alone = rendered(chunk, first, width, entities);
    let whole = rendered(bytes, 0, width, entities).subrange(start, end);
    assert(alone.len() == whole.len());
    assert forall|i: int| 0 <= i < alone.len() implies alone[i] == whole[i] by {
        let pixel = i / 4;
        assert((start + i) / 4 == first + pixel);
        assert((start + i) % 4 == i % 4);
        assert(4 * pixel + 3 < end - start);
        assert(chunk[4 * pixel] == bytes[4 * (first + pixel)]);
        assert(chunk[4 * pixel + 1] == bytes[4 * (first + pixel) + 1]);
        assert(chunk[4 * pixel + 2] == bytes[4 * (first + pixel) + 2]);
        assert(chunk[4 * pixel + 3] == bytes[4 * (first + pixel) + 3]);
        assert(pixel_of(chunk, pixel) == pixel_of(bytes, first + pixel));
    }
    assert(alone =~= whole);
}

/// Paints the shapes over every pixel of `buffer`, the pixels of a canvas
/// of the given width, one chunk of the plan after the other.
pub fn render_chunks<D: Drawable>(buffer: &mut [u8], plan: &ChunkPlan, width: i32, entities: &[D])
    requires
        plan.well_formed(),
        plan.total_bytes == old(buffer)@.len(),
        width > 0,
        old(buffer)@.len() / 4 <= i32::MAX,
        all_well_formed(entities@),
    ensures
        final(buffer)@ == rendered(old(buffer)@, 0, width as int, entities@),
{
    let count = plan.chunk_count();
    let mut done: usize = 0;
    let mut k: usize = 0;
    proof {
        lemma_no_chunks_in_empty_buffer(*plan);
    }
    while k < count
        invariant
            k <= count,
            count == plan.count(),
            plan.well_formed(),
            plan.total_bytes == old(buffer)@.len(),
            buffer@.len() == old(buffer)@.len(),
            width > 0,
            old(buffer)@.len() / 4 <= i32::MAX,
            all_well_formed(entities@),
            done == if k < count { plan.start(k as int) } else { plan.total_bytes as int },
            forall|i: int|
                0 <= i < done ==> buffer@[i] == rendered(
                    old(buffer)@,
                    0,
                    width as int,
                    entities@,
                )[i],
            forall|i: int| done <= i < buffer@.len() ==> buffer@[i] == old(buffer)@[i],
        decreases count - k,
    {
        let (start, end) = plan.chunk_range(k);
        let first = plan.chunk_first_pixel(k);
        proof {
            lemma_chunks_are_consecutive(*plan, k as int);
            lemma_chunks_hold_whole_pixels(*plan, k as int);
            lemma_render_chunk_by_chunk(old(buffer)@, width as int, entities@, *plan, k as int);
            assert(buffer@.subrange(start as int, end as int) =~= old(buffer)@.subrange(
                start as int,
                end as int,
            ));
        }
        let ghost before = buffer@;
        let (_, rest) = buffer.split_at_mut(start);
        let (chunk, _) = rest.split_at_mut(end - start);
        assert(chunk@ =~= before.subrange(start as int, end as int));
        render_chunk(chunk, first, width, entities);
        done = end;
        k += 1;
    }
    assert(buffer@ =~= rendered(old(buffer)@, 0, width as int, entities@));
}

/// A buffer of pixels, laid out row by row with four bytes per pixel, and
/// the color that it is cleared to.
#[derive(Debug)]
pub struct Canvas {
    size: Size,
    buffer: Vec<u8>,
    pub background_color: Color,
}

pub const DEFAULT_CANVAS_WIDTH: i32 = 640;

pub const DEFAULT_CANVAS_HEIGHT: i32 = 480;

impl Canvas {
    /// The width and height of the canvas.
    pub closed spec fn size(&self) -> Size {
        self.size
    }

    /// The bytes of the pixel buffer.
    pub closed spec fn bytes(&self) -> Seq<u8> {
        self.buffer@
    }

    /// The color that the canvas is cleared to: the field `background_color`.
    pub closed spec fn background(&self) -> Color {
        self.background_color
    }

    /// The buffer holds four bytes for every pixel of the size, no more and
    /// no less.
    pub open spec fn well_formed(&self) -> bool {
        &&& self.size().fits_canvas()
        &&& self.bytes().len() == 4 * self.size().area()
    }

    /// The pixel with the given index, counted row by row.
    pub open spec fn pixel(&self, index: int) -> Color {
        pixel_of(self.bytes(), index)
    }

    /// Every pixel of the canvas shows `color`.
    pub open spec fn filled_with(&self, color: Color) -> bool {
        forall|index: int| 0 <= index < self.size().area() ==> #[trigger] self.pixel(index) == color
    }

    /// A canvas of the given size, cleared to black.
    pub fn with_size(size: Size) -> (canvas: Canvas)
        requires
            size.fits_canvas(),
        ensures
            canvas.well_formed(),
            canvas.size() == size,
            canvas.background() == Color::black_spec(),
            canvas.filled_with(Color::black_spec()),
    {
        let mut canvas = Canvas { size, buffer: Vec::new(), background_color: Color::black() };
        canvas.resize(size.width, size.height);
        canvas
    }

    /// Gives the canvas another size and clears it to the background color.
    pub fn resize(&mut self, width: i32, height: i32)
        requires
            (Size { width, height }).fits_canvas(),
        ensures
            final(self).well_formed(),
            final(self).size() == (Size { width, height }),
            final(self).background() == old(self).background(),
            final(self).filled_with(old(self).background()),
    {
        self.size = Size { width, height };
        let pixels = self.size.pixel_count() as usize;
        self.buffer.resize(4 * pixels, 0);
        self.clear_buffer();
    }

    /// Overwrites every pixel with `color`.
    pub fn fill_buffer(&mut self, color: Color)
        requires
            old(self).well_formed(),
        ensures
            final(self).well_formed(),
            final(self).size() == old(self).size(),
            final(self).background() == old(self).background(),
            final(self).filled_with(color),
    {
        let pixels = self.buffer.len() / 4;
        let mut k: usize = 0;
        while k < pixels
            invariant
                k <= pixels,
                pixels == self.buffer@.len() / 4,
                self.buffer@.len() <= usize::MAX,
                self.buffer@.len() == old(self).buffer@.len(),
                self.size == old(self).size,
                self.background_color == old(self).background_color,
                forall|i: int| 0 <= i < 4 * k ==> self.buffer@[i] == channel(color, i % 4),
            decreases pixels - k,
        {
            let at = 4 * k;
            self.buffer[at] = color.r;
            self.buffer[at + 1] = color.g;
            self.buffer[at + 2] = color.b;
            self.buffer[at + 3] = color.a;
            k += 1;
        }
        assert forall|index: int| 0 <= index < self.size().area() implies #[trigger] self.pixel(
            index,
        ) == color by {
            assert((4 * index) % 4 == 0);
            assert((4 * index + 1) % 4 == 1);
            assert((4 * index + 2) % 4 == 2);
            assert((4 * index + 3) % 4 == 3);
        }
    }

    /// Overwrites every pixel with the background color.
    pub fn clear_buffer(&mut self)
        requires
            old(self).well_formed(),
        ensures
            final(self).well_formed(),
            final(self).size() == old(self).size(),
            final(self).background() == old(self).background(),
            final(self).filled_with(old(self).background()),
    {
        self.fill_buffer(self.background_color)
    }

    /// Paints the shapes over every pixel of the canvas, in the order of the
    /// slice: a later shape is painted over an earlier one. The pass goes
    /// through the buffer chunk by chunk, as a pool of workers would, but one
    /// chunk after the other.
    pub fn render<D: Drawable>(&mut self, entities: &[D])
        requires
            old(self).well_formed(),
            all_well_formed(entities@),
        ensures
            final(self).well_formed(),
            final(self).size() == old(self).size(),
            final(self).background() == old(self).background(),
            final(self).bytes() == rendered(
                old(self).bytes(),
                0,
                old(self).size().width as int,
                entities@,
            ),
    {
        if self.size.width > 0 {
            let plan = self.chunk_plan(1);
            render_chunks(self.buffer.as_mut_slice(), &plan, self.size.width, entities);
        } else {
            assert(self.size.width * self.size.height == 0) by (nonlinear_arith)
                requires
                    self.size.width == 0,
            ;
            assert(self.buffer@ =~= rendered(self.buffer@, 0, self.size.width as int, entities@));
        }
    }

    /// How the buffer of the canvas is divided into chunks for a pool of
    /// `workers` workers.
    pub fn chunk_plan(&self, workers: usize) -> (plan: ChunkPlan)
        requires
            self.well_formed(),
            workers > 0,
        ensures
            plan.well_formed(),
            plan.total_bytes == self.bytes().len(),
            plan.chunk_bytes == whole_cache_lines(
                4 * pixels_per_chunk(self.size().area(), workers as int),
            ),
    {
        ChunkPlan::new(self.buffer.len() / 4, workers)
    }

    pub fn size_ref(&self) -> (size: &Size)
        ensures
            *size == self.size(),
    {
        &self.size
    }

    /// The pixels of the canvas, row by row, four bytes per pixel: red,
    /// green, blue, alpha.
    pub fn buffer_ref(&self) -> (bytes: &[u8])
        ensures
            bytes@ == self.bytes(),
    {
        self.buffer.as_slice()
    }

    /// The pixels of the canvas for writing, as for rendering its chunks
    /// with `render_chunk`. The bytes of the canvas are then what the slice
    /// is left with.
    pub fn buffer_mut(&mut self) -> (bytes: &mut [u8])
        ensures
            bytes@ == old(self).bytes(),
            final(self).bytes() == final(bytes)@,
            final(self).size() == old(self).size(),
            final(self).background() == old(self).background(),
    {
        self.buffer.as_mut_slice()
    }
}

impl Default for Canvas {
    /// A canvas of `DEFAULT_CANVAS_WIDTH` by `DEFAULT_CANVAS_HEIGHT` pixels,
    /// cleared to black.
    fn default() -> (canvas: Canvas)
        ensures
            canvas.well_formed(),
            canvas.size() == (Size { width: DEFAULT_CANVAS_WIDTH, height: DEFAULT_CANVAS_HEIGHT }),
            canvas.background() == Color::black_spec(),
            canvas.filled_with(Color::black_spec()),
    {
        Canvas::with_size(Size { width: DEFAULT_CANVAS_WIDTH, height: DEFAULT_CANVAS_HEIGHT })
    }
}

impl PartialEqSpecImpl for Canvas {
    open spec fn obeys_eq_spec() -> bool {
        true
    }

    /// Two canvases are equal if they have the same size, the same bytes and
    /// the same background color.
    open spec fn eq_spec(&self, other: &Canvas) -> bool {
        &&& self.size() == other.size()
        &&& self.bytes() == other.bytes()
        &&& self.background() == other.background()
    }
}

impl PartialEq for Canvas {
    fn eq(&self, other: &Canvas) -> (equal: bool) {
        let same_bytes = self.buffer == other.buffer;
        proof {
            if same_bytes {
                assert(self.buffer@ =~= other.buffer@);
            }
            if self.buffer@ == other.buffer@ {
                assert(PartialEqSpec::eq_spec(&self.buffer, &other.buffer));
            }
        }
        self.size == other.size && same_bytes && self.background_color == other.background_color
    }
}

impl Eq for Canvas {

}

} // verus!
