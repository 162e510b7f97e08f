use jeri::color::Color;
use jeri::entities::{Circle, Line, Rectangle, Text, Triangle};
use jeri::{Drawable, Position, Size, Vector2};

fn at(x: i32, y: i32) -> Position {
    Position { x, y }
}

fn ink() -> Color {
    Color::from_rgba(9, 8, 7, 200)
}

fn rectangle(width: i32, height: i32) -> Rectangle {
    Rectangle { center: at(0, 0), size: Size { width, height }, color: ink() }
}

#[test]
fn a_rectangle_reaches_half_its_size_from_the_center() {
    let wide = rectangle(4, 2);
    assert_eq!(wide.color_at(at(2, 1)), Some(ink()));
    assert_eq!(wide.color_at(at(-2, -1)), Some(ink()));
    assert_eq!(wide.color_at(at(2, 2)), None);
    assert_eq!(wide.color_at(at(3, 0)), None);
    assert_eq!(wide.color_at(at(0, -2)), None);
}

#[test]
fn an_odd_size_is_rounded_down() {
    let odd = rectangle(3, 3);
    assert_eq!(odd.color_at(at(1, 1)), Some(ink()));
    assert_eq!(odd.color_at(at(-1, -1)), Some(ink()));
    assert_eq!(odd.color_at(at(2, 0)), None);
    assert_eq!(odd.color_at(at(0, -2)), None);
}

#[test]
fn a_rectangle_without_extent_is_one_pixel() {
    let dot = rectangle(0, 0);
    assert_eq!(dot.color_at(at(0, 0)), Some(ink()));
    assert_eq!(dot.color_at(at(1, 0)), None);
    assert_eq!(rectangle(-1, -1).color_at(at(0, 0)), Some(ink()));
    assert_eq!(rectangle(-2, 5).color_at(at(0, 0)), None);
}

#[test]
fn a_rectangle_at_the_end_of_the_coordinates() {
    let far = Rectangle {
        center: at(i32::MAX, 0),
        size: Size { width: i32::MAX, height: 3 },
        color: ink(),
    };
    assert_eq!(far.color_at(at(i32::MAX, 0)), Some(ink()));
    assert_eq!(far.color_at(at(1 << 30, 1)), Some(ink()));
    assert_eq!(far.color_at(at((1 << 30) - 1, 1)), None);
    assert_eq!(far.color_at(at(i32::MIN, 0)), None);
    assert_eq!(far.color_at(at(0, 0)), None);
}

#[test]
fn every_pixel_within_a_rectangle_has_its_exact_color() {
    let rectangle = Rectangle {
        center: at(20, 30),
        size: Size { width: 11, height: 6 },
        color: Color::from_rgba(1, 2, 3, 77),
    };
    for x in 15..=25 {
        for y in 27..=33 {
            assert_eq!(rectangle.color_at(at(x, y)), Some(Color::from_rgba(1, 2, 3, 77)));
        }
    }
    assert!(rectangle.is_well_formed());
}

#[test]
fn the_rim_of_a_circle_is_covered_in_part() {
    let color = Color::from_rgba(200, 100, 50, 128);
    let circle = Circle { center: at(0, 0), radius: 3, color };
    assert_eq!(circle.color_at(at(0, 0)), Some(color));
    assert_eq!(circle.color_at(at(3, 0)), Some(color.with_alpha(64)));
    assert_eq!(circle.color_at(at(-3, 0)), Some(color.with_alpha(64)));
    assert_eq!(circle.color_at(at(0, -3)), Some(color.with_alpha(64)));
    assert_eq!(circle.color_at(at(2, 2)), Some(color.with_alpha(96)));
    assert_eq!(circle.color_at(at(2, -2)), Some(color.with_alpha(96)));
    assert_eq!(circle.color_at(at(3, 1)), Some(color.with_alpha(32)));
    assert_eq!(circle.color_at(at(1, 3)), Some(color.with_alpha(32)));
    assert_eq!(circle.color_at(at(4, 0)), None);
    assert_eq!(circle.color_at(at(3, 3)), None);
}

#[test]
fn small_circles() {
    let point = Circle { center: at(5, 5), radius: 0, color: Color::white() };
    assert_eq!(point.color_at(at(5, 5)), None);
    let small = Circle { center: at(5, 5), radius: 1, color: Color::white() };
    assert_eq!(small.color_at(at(5, 5)), Some(Color::white()));
    assert_eq!(small.color_at(at(6, 5)), Some(Color::white().with_alpha(127)));
    assert_eq!(small.color_at(at(5, 4)), Some(Color::white().with_alpha(127)));
    assert_eq!(small.color_at(at(6, 6)), None);
    let inverted = Circle { center: at(5, 5), radius: -3, color: Color::white() };
    assert!(inverted.is_well_formed());
    assert_eq!(inverted.color_at(at(5, 5)), None);
}

#[test]
fn a_circle_is_empty_far_outside_and_full_deep_inside() {
    let color = Color::from_rgba(1, 2, 3, 201);
    for radius in [1, 2, 5, 17, 40] {
        let circle = Circle { center: at(7, -3), radius, color };
        for dx in -(radius + 3)..=radius + 3 {
            for dy in -(radius + 3)..=radius + 3 {
                let sampled = circle.color_at(at(7 + dx, -3 + dy));
                let squared = dx * dx + dy * dy;
                if squared > (radius + 1) * (radius + 1) {
                    assert_eq!(sampled, None);
                }
                if squared <= (radius - 1) * (radius - 1) {
                    assert_eq!(sampled, Some(color));
                }
            }
        }
    }
}

#[test]
fn the_radius_of_a_circle_is_limited() {
    let largest = Circle { center: at(0, 0), radius: 5461, color: ink() };
    assert!(largest.is_well_formed());
    assert_eq!(largest.color_at(at(5461, 0)), Some(ink().with_alpha(100)));
    assert_eq!(largest.color_at(at(3861, 3861)), Some(ink()));
    assert_eq!(largest.color_at(at(3862, 3862)), None);
    let too_large = Circle { center: at(0, 0), radius: 5462, color: ink() };
    assert!(!too_large.is_well_formed());
    assert!(!Circle { center: at(0, 0), radius: i32::MAX, color: ink() }.is_well_formed());
}

#[test]
fn a_circle_at_the_end_of_the_coordinates() {
    let circle = Circle { center: at(i32::MAX, i32::MIN), radius: 10, color: ink() };
    assert_eq!(circle.color_at(at(i32::MAX, i32::MIN)), Some(ink()));
    assert_eq!(circle.color_at(at(i32::MAX - 10, i32::MIN)), Some(ink().with_alpha(100)));
    assert_eq!(circle.color_at(at(i32::MIN, i32::MAX)), None);
}

#[test]
fn a_shallow_line_is_measured_column_by_column() {
    let line = Line { start: at(0, 0), end: at(10, 4), color: ink(), width: 3 };
    assert_eq!(line.color_at(at(0, 0)), Some(ink()));
    assert_eq!(line.color_at(at(10, 4)), Some(ink()));
    assert_eq!(line.color_at(at(5, 1)), Some(ink()));
    assert_eq!(line.color_at(at(5, 2)), Some(ink()));
    assert_eq!(line.color_at(at(5, 3)), Some(ink()));
    // Two pixels from the line: half the width and half a pixel.
    assert_eq!(line.color_at(at(5, 4)), Some(ink().with_alpha(0)));
    assert_eq!(line.color_at(at(5, 0)), Some(ink().with_alpha(0)));
    assert_eq!(line.color_at(at(5, 5)), None);
    assert_eq!(line.color_at(at(5, -1)), None);
    // The line passes (3, 1.2): the pixel below is 1.8 away, which leaves a
    // fifth of it covered.
    assert_eq!(line.color_at(at(3, 3)), Some(ink().with_alpha(40)));
    assert_eq!(line.color_at(at(3, 2)), Some(ink()));
    assert_eq!(line.color_at(at(11, 4)), None);
    assert_eq!(line.color_at(at(-1, 0)), None);
    assert_eq!(line.color_at(at(10, 6)), None);
}

#[test]
fn a_steep_line_is_measured_row_by_row() {
    let line = Line { start: at(2, 0), end: at(0, 9), color: Color::white(), width: 1 };
    assert_eq!(line.color_at(at(2, 0)), Some(Color::white()));
    assert_eq!(line.color_at(at(0, 9)), Some(Color::white()));
    assert_eq!(line.color_at(at(1, 4)), Some(Color::white().with_alpha(226)));
    assert_eq!(line.color_at(at(1, 5)), Some(Color::white().with_alpha(226)));
    assert_eq!(line.color_at(at(0, 5)), Some(Color::white().with_alpha(28)));
    assert_eq!(line.color_at(at(2, 4)), Some(Color::white().with_alpha(28)));
    assert_eq!(line.color_at(at(1, 9)), Some(Color::white().with_alpha(0)));
    assert_eq!(line.color_at(at(2, 5)), None);
    assert_eq!(line.color_at(at(0, 4)), None);
}

#[test]
fn the_direction_of_a_line_does_not_matter() {
    let forth = Line { start: at(3, 17), end: at(40, 5), color: ink(), width: 4 };
    let back = Line { start: at(40, 5), end: at(3, 17), color: ink(), width: 4 };
    for x in 0..45 {
        for y in 0..25 {
            assert_eq!(forth.color_at(at(x, y)), back.color_at(at(x, y)));
        }
    }
}

#[test]
fn a_line_between_one_pixel_and_itself() {
    let line = Line { start: at(4, 4), end: at(4, 4), color: ink(), width: 2 };
    assert_eq!(line.color_at(at(4, 4)), Some(ink()));
    assert_eq!(line.color_at(at(4, 3)), Some(ink()));
    assert_eq!(line.color_at(at(4, 5)), Some(ink()));
    assert_eq!(line.color_at(at(4, 2)), None);
    assert_eq!(line.color_at(at(3, 4)), None);
    assert_eq!(line.color_at(at(5, 4)), None);
}

#[test]
fn a_line_of_negative_width_is_empty() {
    let thin = Line { start: at(0, 0), end: at(5, 0), color: ink(), width: -1 };
    assert_eq!(thin.color_at(at(2, 0)), None);
    assert_eq!(thin.color_at(at(2, 1)), None);
    let thinner = Line { start: at(0, 0), end: at(5, 0), color: ink(), width: -2 };
    assert_eq!(thinner.color_at(at(2, 0)), None);
    let widest = Line { start: at(0, 0), end: at(5, 0), color: ink(), width: i32::MAX };
    assert_eq!(widest.color_at(at(2, (1 << 30) - 1)), Some(ink()));
    assert_eq!(widest.color_at(at(2, 1 << 30)), None);
}

#[test]
fn a_line_across_all_coordinates() {
    let line = Line {
        start: at(i32::MIN, i32::MIN),
        end: at(i32::MAX, i32::MAX),
        color: ink(),
        width: 3,
    };
    assert_eq!(line.color_at(at(0, 0)), Some(ink()));
    assert_eq!(line.color_at(at(5, 4)), Some(ink()));
    assert_eq!(line.color_at(at(5, 6)), Some(ink()));
    assert_eq!(line.color_at(at(5, 3)), Some(ink().with_alpha(0)));
    assert_eq!(line.color_at(at(5, 7)), Some(ink().with_alpha(0)));
    assert_eq!(line.color_at(at(5, 8)), None);
    assert_eq!(line.color_at(at(i32::MAX, i32::MAX)), Some(ink()));
    assert_eq!(line.color_at(at(i32::MAX, i32::MIN)), None);
}

#[test]
fn a_triangle_is_the_same_both_ways_round() {
    let one = Triangle { p1: at(0, 0), p2: at(6, 0), p3: at(0, 6), color: ink() };
    let other = Triangle { p1: at(0, 6), p2: at(6, 0), p3: at(0, 0), color: ink() };
    for x in -2..9 {
        for y in -2..9 {
            assert_eq!(one.color_at(at(x, y)), other.color_at(at(x, y)));
        }
    }
    assert_eq!(one.color_at(at(2, 2)), Some(ink()));
    assert_eq!(one.color_at(at(4, 1)), Some(ink()));
    assert_eq!(one.color_at(at(0, 0)), Some(ink().with_alpha(50)));
    assert_eq!(one.color_at(at(5, 0)), Some(ink().with_alpha(100)));
    assert_eq!(one.color_at(at(0, 5)), Some(ink().with_alpha(100)));
    assert_eq!(one.color_at(at(3, 3)), Some(ink().with_alpha(150)));
    assert_eq!(one.color_at(at(6, 6)), None);
    assert_eq!(one.color_at(at(7, 0)), None);
}

#[test]
fn a_triangle_without_area() {
    let flat = Triangle { p1: at(0, 0), p2: at(3, 3), p3: at(6, 6), color: ink() };
    assert_eq!(flat.color_at(at(3, 3)), Some(ink().with_alpha(100)));
    assert_eq!(flat.color_at(at(0, 0)), Some(ink().with_alpha(100)));
    assert_eq!(flat.color_at(at(3, 4)), None);
}

#[test]
fn a_triangle_across_all_coordinates() {
    let triangle = Triangle {
        p1: at(i32::MIN, i32::MIN),
        p2: at(i32::MAX, i32::MIN),
        p3: at(0, i32::MAX),
        color: ink(),
    };
    assert_eq!(triangle.color_at(at(0, 0)), Some(ink()));
    assert_eq!(triangle.color_at(at(i32::MAX, i32::MAX)), None);
    assert_eq!(triangle.color_at(at(i32::MIN, i32::MAX)), None);
    let inside = Vector2::new(0i128, 1);
    let outside = Vector2::new(0i128, -1);
    let (p1, p2, p3) = (Vector2::new(-4i128, 0), Vector2::new(4i128, 0), Vector2::new(0i128, 8));
    assert!(triangle.is_point_inside(inside, p1, p2, p3));
    assert!(triangle.is_point_inside(inside, p3, p2, p1));
    assert!(triangle.is_point_inside(p1, p1, p2, p3));
    assert!(!triangle.is_point_inside(outside, p1, p2, p3));
}

#[test]
fn the_cross_product_tells_the_side() {
    let east = Vector2::new(5i128, 0);
    let north = Vector2::new(0i128, 3);
    assert_eq!(Vector2::<i128>::cross_product_sign(east, north), 15);
    assert_eq!(Vector2::<i128>::cross_product_sign(north, east), -15);
    assert_eq!(Vector2::<i128>::cross_product_sign(east, east), 0);
    let far = Vector2::new(1i128 << 62, -(1i128 << 62));
    assert_eq!(Vector2::<i128>::cross_product_sign(far, north), 3 << 62);
}

fn text_picture(text: &Text, width: i32, height: i32) -> Vec<String> {
    (0..height)
        .map(|y| {
            (0..width)
                .map(|x| match text.color_at(at(x, y)) {
                    Some(color) => {
                        assert_eq!(color, text.color);
                        "W"
                    }
                    None => ".",
                })
                .collect::<Vec<_>>()
                .join(" ")
        })
        .collect()
}

#[test]
fn glyphs_stand_side_by_side_with_a_gap() {
    let text = Text::new("ab!".into(), at(1, 0), ink(), 1);
    assert!(text.is_well_formed());
    assert_eq!(
        text_picture(&text, 13, 10),
        vec![
            ". . . . . . . . . . . . .",
            ". . . . . . W . . . . W .",
            ". . W W . . W . . . . W .",
            ". . . . W . W . . . . W .",
            ". . W W W . W W W . . W .",
            ". W . . W . W . . W . . .",
            ". . W W W . W W W . . W .",
            ". . . . . . . . . . . . .",
            ". . . . . . . . . . . . .",
            ". . . . . . . . . . . . .",
        ]
    );
    assert_eq!(text.color_at(at(2, 10)), None);
    assert_eq!(text.color_at(at(2, -1)), None);
}

#[test]
fn a_larger_text_has_larger_pixels() {
    let text = Text::new("j?".into(), at(0, 1), ink(), 2);
    assert_eq!(
        text_picture(&text, 18, 12),
        vec![
            ". . . . . . . . . . . . . . . . . .",
            ". . . . . . . . . . . . . . . . . .",
            ". . . . . . . . . . . . . . . . . .",
            ". . . . . . . . . . W W W W W W . .",
            ". . . . . . . . . . W W W W W W . .",
            ". . . . W W . . W W . . . . . . W W",
            ". . . . W W . . W W . . . . . . W W",
            ". . . . . . . . . . . . . . . . W W",
            ". . . . . . . . . . . . . . . . W W",
            ". . W W W W . . . . . . W W W W . .",
            ". . W W W W . . . . . . W W W W . .",
            ". . . . W W . . . . . . . . . . . .",
        ]
    );
}

#[test]
fn a_text_of_size_zero_or_without_characters_is_empty() {
    let nothing = Text::new("ab".into(), at(0, 0), ink(), 0);
    let blank = Text::new(String::new(), at(0, 0), ink(), 3);
    let spaces = Text::new("   ".into(), at(0, 0), ink(), 3);
    for x in -3..30 {
        for y in -3..30 {
            assert_eq!(nothing.color_at(at(x, y)), None);
            assert_eq!(blank.color_at(at(x, y)), None);
            assert_eq!(spaces.color_at(at(x, y)), None);
        }
    }
}

#[test]
fn only_ascii_text_has_glyphs() {
    assert!(Text::new("plain".into(), at(0, 0), ink(), 1).is_well_formed());
    assert!(Text::new("\u{7f}\0".into(), at(0, 0), ink(), 1).is_well_formed());
    assert!(!Text::new("na\u{ef}ve".into(), at(0, 0), ink(), 1).is_well_formed());
    assert!(!Text::new("\u{80}".into(), at(0, 0), ink(), 1).is_well_formed());
}

#[test]
fn a_text_at_the_end_of_the_coordinates() {
    let text = Text::new("!!".into(), at(i32::MAX - 2, i32::MAX - 3), ink(), 255);
    assert_eq!(text.color_at(at(i32::MAX, i32::MAX)), None);
    let tall = Text::new("!".into(), at(i32::MAX - 2, i32::MAX - 300), ink(), 255);
    assert_eq!(tall.color_at(at(i32::MAX, i32::MAX)), Some(ink()));
    assert_eq!(tall.color_at(at(i32::MIN, i32::MIN)), None);
}
