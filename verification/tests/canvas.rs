use jeri::canvas::{DEFAULT_CANVAS_HEIGHT, DEFAULT_CANVAS_WIDTH};
use jeri::color::Color;
use jeri::drawable::{are_well_formed, paint};
use jeri::entities::{Circle, Rectangle};
use jeri::{Canvas, Position, Size};

fn pixel_at(canvas: &Canvas, x: usize, y: usize) -> Color {
    let at = 4 * (y * canvas.size_ref().width as usize + x);
    let bytes = canvas.buffer_ref();
    Color::from_rgba(bytes[at], bytes[at + 1], bytes[at + 2], bytes[at + 3])
}

#[test]
fn a_new_canvas_is_black() {
    let canvas = Canvas::with_size(Size { width: 7, height: 3 });
    assert_eq!(*canvas.size_ref(), Size { width: 7, height: 3 });
    assert_eq!(canvas.background_color, Color::black());
    assert_eq!(canvas.buffer_ref().len(), 84);
    assert!(canvas.buffer_ref().chunks_exact(4).all(|pixel| pixel == [0, 0, 0, 255]));
}

#[test]
fn a_canvas_without_pixels() {
    for size in [
        Size { width: 0, height: 0 },
        Size { width: 0, height: 9 },
        Size { width: 9, height: 0 },
    ] {
        let mut canvas = Canvas::with_size(size);
        assert!(canvas.buffer_ref().is_empty());
        canvas.render(&[Circle { center: Position { x: 0, y: 0 }, radius: 4, color: Color::red() }]);
        canvas.clear_buffer();
        canvas.fill_buffer(Color::green());
        assert!(canvas.buffer_ref().is_empty());
        assert_eq!(*canvas.size_ref(), size);
    }
}

#[test]
fn the_default_canvas() {
    let canvas = Canvas::default();
    assert_eq!(DEFAULT_CANVAS_WIDTH, 640);
    assert_eq!(DEFAULT_CANVAS_HEIGHT, 480);
    assert_eq!(*canvas.size_ref(), Size { width: 640, height: 480 });
    assert_eq!(canvas.buffer_ref().len(), 4 * 640 * 480);
    assert_eq!(canvas.background_color, Color::black());
    assert!(canvas == Canvas::with_size(Size { width: 640, height: 480 }));
}

#[test]
fn clearing_gives_every_pixel_the_background_color() {
    let mut canvas = Canvas::with_size(Size { width: 12, height: 10 });
    let circle = Circle { center: Position { x: 5, y: 5 }, radius: 4, color: Color::red() };
    canvas.background_color = Color::from_rgba(1, 2, 3, 4);
    canvas.render(&[circle]);
    assert_eq!(pixel_at(&canvas, 5, 5), Color::red());
    canvas.clear_buffer();
    assert!(canvas.buffer_ref().chunks_exact(4).all(|pixel| pixel == [1, 2, 3, 4]));
    assert_eq!(canvas.background_color, Color::from_rgba(1, 2, 3, 4));
    // Again, with nothing drawn in between.
    canvas.clear_buffer();
    assert!(canvas.buffer_ref().chunks_exact(4).all(|pixel| pixel == [1, 2, 3, 4]));
}

#[test]
fn filling_gives_every_pixel_the_color() {
    let mut canvas = Canvas::with_size(Size { width: 3, height: 2 });
    canvas.fill_buffer(Color::from_rgba(9, 8, 7, 6));
    assert_eq!(
        canvas.buffer_ref(),
        &[9, 8, 7, 6, 9, 8, 7, 6, 9, 8, 7, 6, 9, 8, 7, 6, 9, 8, 7, 6, 9, 8, 7, 6]
    );
    assert_eq!(canvas.background_color, Color::black());
}

#[test]
fn resizing_clears_to_the_background_color() {
    let mut canvas = Canvas::with_size(Size { width: 4, height: 4 });
    canvas.background_color = Color::blue();
    canvas.render(&[Circle { center: Position { x: 1, y: 1 }, radius: 2, color: Color::red() }]);
    canvas.resize(5, 3);
    assert_eq!(*canvas.size_ref(), Size { width: 5, height: 3 });
    assert_eq!(canvas.buffer_ref().len(), 60);
    assert!(canvas.buffer_ref().chunks_exact(4).all(|pixel| pixel == [0, 0, 255, 255]));
    canvas.resize(2, 1);
    assert_eq!(canvas.buffer_ref(), &[0, 0, 255, 255, 0, 0, 255, 255]);
    canvas.resize(0, 0);
    assert!(canvas.buffer_ref().is_empty());
    // After a resize the pixels lie in rows of the new width.
    canvas.resize(3, 2);
    canvas.render(&[Rectangle {
        center: Position { x: 2, y: 1 },
        size: Size { width: 0, height: 0 },
        color: Color::white(),
    }]);
    assert_eq!(pixel_at(&canvas, 2, 1), Color::white());
    assert_eq!(pixel_at(&canvas, 1, 1), Color::blue());
}

#[test]
fn pixels_lie_row_by_row() {
    let mut canvas = Canvas::with_size(Size { width: 3, height: 2 });
    let dot = Rectangle {
        center: Position { x: 1, y: 1 },
        size: Size { width: 1, height: 1 },
        color: Color::from_rgba(10, 20, 30, 255),
    };
    canvas.render(&[dot]);
    let black = [0, 0, 0, 255];
    let mut expected = Vec::new();
    for pixel in [black, black, black, black, [10, 20, 30, 255], black] {
        expected.extend_from_slice(&pixel);
    }
    assert_eq!(canvas.buffer_ref(), &expected);
}

#[test]
fn a_later_shape_is_painted_over_an_earlier_one() {
    let rectangle = |color| Rectangle {
        center: Position { x: 40, y: 40 },
        size: Size { width: 30, height: 30 },
        color,
    };
    let circle = |color| Circle { center: Position { x: 60, y: 60 }, radius: 20, color };

    let mut canvas = Canvas::with_size(Size { width: 100, height: 100 });
    canvas.render(&[rectangle(Color::red())]);
    canvas.render(&[circle(Color::blue())]);
    // Where the circle is opaque nothing of the rectangle is left.
    assert_eq!(pixel_at(&canvas, 50, 50), Color::blue());
    assert_eq!(pixel_at(&canvas, 55, 45), Color::blue());
    assert_eq!(pixel_at(&canvas, 30, 30), Color::red());
    assert_eq!(pixel_at(&canvas, 70, 70), Color::blue());
    assert_eq!(pixel_at(&canvas, 90, 10), Color::black());
    // On the rim of the circle the rectangle shows through.
    assert_eq!(pixel_at(&canvas, 48, 44), Color::from_rgba(128, 0, 127, 255));
    assert_eq!(pixel_at(&canvas, 51, 42), Color::from_rgba(192, 0, 63, 255));
    assert_eq!(pixel_at(&canvas, 46, 46), Color::from_rgba(64, 0, 191, 255));
    assert_eq!(pixel_at(&canvas, 40, 60), Color::from_rgba(0, 0, 127, 255));

    let mut reverse = Canvas::with_size(Size { width: 100, height: 100 });
    reverse.render(&[circle(Color::blue())]);
    reverse.render(&[rectangle(Color::red())]);
    assert_eq!(pixel_at(&reverse, 50, 50), Color::red());
    assert_eq!(pixel_at(&reverse, 70, 70), Color::blue());
}

#[test]
fn one_pass_with_two_shapes_is_two_passes_with_one() {
    let circles = |first: Color, second: Color| {
        [
            Circle { center: Position { x: 8, y: 8 }, radius: 6, color: first },
            Circle { center: Position { x: 12, y: 10 }, radius: 7, color: second },
        ]
    };
    let half_red = Color::red().with_alpha(128);
    let half_green = Color::green().with_alpha(77);
    let [first, second] = circles(half_red, half_green);
    let mut one_pass = Canvas::with_size(Size { width: 24, height: 20 });
    one_pass.render(&circles(half_red, half_green));
    let mut two_passes = Canvas::with_size(Size { width: 24, height: 20 });
    two_passes.render(&[first]);
    two_passes.render(&[second]);
    assert!(one_pass == two_passes);

    let mut other_order = Canvas::with_size(Size { width: 24, height: 20 });
    other_order.render(&circles(half_green, half_red));
    assert!(one_pass != other_order);
}

#[test]
fn painting_a_pixel() {
    let shapes = [
        Circle { center: Position { x: 0, y: 0 }, radius: 3, color: Color::white() },
        Circle { center: Position { x: 4, y: 0 }, radius: 3, color: Color::red().with_alpha(128) },
    ];
    let base = Color::from_rgba(0, 0, 200, 10);
    assert_eq!(paint(&shapes, Position { x: 9, y: 9 }, base), base);
    assert_eq!(paint(&shapes, Position { x: -2, y: 0 }, base), Color::white());
    assert_eq!(paint(&shapes, Position { x: 2, y: 0 }, base), Color::from_rgba(255, 127, 127, 255));
    assert_eq!(paint(&shapes, Position { x: 5, y: 0 }, base), Color::from_rgba(128, 0, 99, 128));
    assert_eq!(paint(&shapes[..0], Position { x: 0, y: 0 }, base), base);
}

#[test]
fn shapes_are_tested_before_they_are_sampled() {
    let small = Circle { center: Position { x: 0, y: 0 }, radius: 3, color: Color::white() };
    let large = Circle { center: Position { x: 0, y: 0 }, radius: 6000, color: Color::white() };
    assert!(are_well_formed(&[small]));
    assert!(!are_well_formed(&[large]));
    let small = Circle { center: Position { x: 0, y: 0 }, radius: 3, color: Color::white() };
    let large = Circle { center: Position { x: 0, y: 0 }, radius: 6000, color: Color::white() };
    assert!(!are_well_formed(&[small, large]));
    let none: [Circle; 0] = [];
    assert!(are_well_formed(&none));
}

#[test]
fn canvases_are_equal_by_size_bytes_and_background() {
    let size = Size { width: 4, height: 6 };
    let mut one = Canvas::with_size(size);
    let mut other = Canvas::with_size(size);
    assert!(one == other);
    other.background_color = Color::white();
    assert!(one != other);
    one.background_color = Color::white();
    assert!(one == other);
    other.fill_buffer(Color::red());
    assert!(one != other);
    one.fill_buffer(Color::red());
    assert!(one == other);
    let mut turned = Canvas::with_size(Size { width: 6, height: 4 });
    turned.background_color = Color::white();
    turned.fill_buffer(Color::red());
    assert_eq!(turned.buffer_ref(), one.buffer_ref());
    assert!(one != turned);
}

#[test]
fn sizes() {
    // The height comes first.
    let size = Size::new(3, 4);
    assert_eq!(size, Size { width: 4, height: 3 });
    assert_eq!(size.pixel_count(), 12);
    assert_eq!(Size::new(0, 77).pixel_count(), 0);
    assert_eq!(Size::new(-3, 4).pixel_count(), -12);
    assert_eq!(Size::new(46340, 46341).pixel_count(), 2147441940);
    assert_eq!(size * 3, Size { width: 12, height: 9 });
    assert_eq!(size * -1, Size { width: -4, height: -3 });
}

#[test]
fn the_sizes_that_a_canvas_can_have() {
    assert_eq!(Size { width: 4, height: 3 }.buffer_len(), Some(48));
    assert_eq!(Size { width: 0, height: 3 }.buffer_len(), Some(0));
    assert_eq!(Size { width: 0, height: i32::MAX }.buffer_len(), Some(0));
    assert_eq!(Size { width: 23170, height: 23170 }.buffer_len(), Some(2147395600));
    assert_eq!(Size { width: 536870911, height: 1 }.buffer_len(), Some(2147483644));
    assert_eq!(Size { width: 536870912, height: 1 }.buffer_len(), None);
    assert_eq!(Size { width: 65536, height: 8192 }.buffer_len(), None);
    assert_eq!(Size { width: i32::MAX, height: i32::MAX }.buffer_len(), None);
    assert_eq!(Size { width: -1, height: 3 }.buffer_len(), None);
    assert_eq!(Size { width: 3, height: -1 }.buffer_len(), None);
    assert_eq!(Size { width: -2, height: -2 }.buffer_len(), None);
}

#[test]
fn positions() {
    let position = Position::new(3, -4);
    assert_eq!(position, Position { x: 3, y: -4 });
    assert_eq!(position - Position::new(1, 1), Position { x: 2, y: -5 });
    assert_eq!(Position::new(i32::MAX, i32::MIN) - Position::new(1, -1), Position {
        x: i32::MAX - 1,
        y: i32::MIN + 1
    });
}
