//! Straight strokes, with anti-aliased edges.

use vstd::prelude::*;
use crate::color::Color;
use crate::drawable::Drawable;
use crate::entities::sampling::{abs, larger, max, min, multiply, smaller};
use crate::geometry::Position;

verus! {

/// A straight stroke between two pixels.
pub struct Line {
    pub start: Position,
    pub end: Position,
    pub color: Color,
    pub width: i32,
}

/// The alpha channel of a stroke at a pixel that the stroke covers by the
/// fraction `numerator / denominator`. A fraction above one counts as one,
/// and so does any fraction with the denominator zero, which belongs to a
/// stroke whose two ends are the same pixel.
pub open spec fn stroke_alpha(alpha: u8, numerator: int, denominator: int) -> u8 {
    if numerator >= denominator {
        alpha
    } else {
        (alpha * numerator / denominator) as u8
    }
}

fn magnitude(a: i128) -> (m: i128)
    requires
        a > i128::MIN,
    ensures
        m == abs(a as int),
{
    if a >= 0 { a } else { -a }
}

impl Line {
    /// The rectangle between the two ends, grown by half the width on every
    /// side.
    pub open spec fn in_bounding_box(&self, position: Position) -> bool {
        &&& 2 * position.x >= 2 * min(self.start.x as int, self.end.x as int) - self.width
        &&& 2 * position.x <= 2 * max(self.start.x as int, self.end.x as int) + self.width
        &&& 2 * position.y >= 2 * min(self.start.y as int, self.end.y as int) - self.width
        &&& 2 * position.y <= 2 * max(self.start.y as int, self.end.y as int) + self.width
    }

    /// Whether the stroke runs further along `x` than along `y`. Such a
    /// stroke is measured column by column, any other row by row.
    pub open spec fn is_shallow(&self) -> bool {
        abs(self.start.x - self.end.x) >= abs(self.start.y - self.end.y)
    }

    /// The length of the stroke along the axis by which it is measured.
    pub open spec fn span(&self) -> int {
        if self.is_shallow() {
            abs(self.start.x - self.end.x)
        } else {
            abs(self.start.y - self.end.y)
        }
    }

    /// Whether `position` lies between the two ends along the axis by which
    /// the stroke is measured.
    pub open spec fn in_segment_range(&self, position: Position) -> bool {
        if self.is_shallow() {
            min(self.start.x as int, self.end.x as int) <= position.x <= max(
                self.start.x as int,
                self.end.x as int,
            )
        } else {
            min(self.start.y as int, self.end.y as int) <= position.y <= max(
                self.start.y as int,
                self.end.y as int,
            )
        }
    }

    /// The distance between the center of the pixel at `position` and the
    /// line through the two ends, taken across the axis by which the stroke
    /// is measured, and multiplied by `span()` to remain an integer.
    pub open spec fn scaled_distance(&self, position: Position) -> int {
        abs(
            (self.start.y - self.end.y) * (position.x - self.start.x) - (self.start.x
                - self.end.x) * (position.y - self.start.y),
        )
    }

    /// The fraction of the pixel at `position` that the stroke covers is
    /// `width / 2 - distance + 1 / 2`. This is its numerator over the
    /// denominator `2 * span()`.
    pub open spec fn coverage_numerator(&self, position: Position) -> int {
        self.span() * (self.width + 1) - 2 * self.scaled_distance(position)
    }
}

impl Drawable for Line {
    open spec fn well_formed(&self) -> bool {
        true
    }

    /// A pixel whose center is further from the line than half the width and
    /// half a pixel is not covered. Up to one pixel on either edge of the
    /// stroke is covered in part.
    open spec fn sample(&self, position: Position) -> Option<Color> {
        if !self.in_bounding_box(position) || !self.in_segment_range(position)
            || self.coverage_numerator(position) < 0 {
            None
        } else {
            Some(
                Color {
                    a: stroke_alpha(
                        self.color.a,
                        self.coverage_numerator(position),
                        2 * self.span(),
                    ),
                    ..self.color
                },
            )
        }
    }

    fn is_well_formed(&self) -> (ok: bool) {
        true
    }

    fn color_at(&self, position: Position) -> (color: Option<Color>) {
        let x_start = smaller(self.start.x, self.end.x) as i128;
        let x_end = larger(self.start.x, self.end.x) as i128;
        let y_start = smaller(self.start.y, self.end.y) as i128;
        let y_end = larger(self.start.y, self.end.y) as i128;
        let px = position.x as i128;
        let py = position.y as i128;
        let width = self.width as i128;

        if !(2 * px >= 2 * x_start - width && 2 * px <= 2 * x_end + width && 2 * py >= 2 * y_start
            - width && 2 * py <= 2 * y_end + width) {
            return None;
        }
        let dx = self.start.x as i128 - self.end.x as i128;
        let dy = self.start.y as i128 - self.end.y as i128;

        // The stroke is measured along the axis on which it is longer, where
        // it has the better resolution.
        let span = if magnitude(dx) >= magnitude(dy) {
            if px < x_start || px > x_end {
                return None;
            }
            magnitude(dx)
        } else {
            if py < y_start || py > y_end {
                return None;
            }
            magnitude(dy)
        };
        let distance = magnitude(
            multiply(dy, px - self.start.x as i128) - multiply(dx, py - self.start.y as i128),
        );
        let numerator = multiply(span, width + 1) - 2 * distance;
        if numerator < 0 {
            return None;
        }
        let denominator = 2 * span;
        if numerator >= denominator {
            return Some(self.color);
        }
        let alpha = multiply(self.color.a as i128, numerator) / denominator;
        assert(0 <= alpha <= 255) by (nonlinear_arith)
            requires
                alpha == (self.color.a * numerator) / (denominator as int),
                0 <= numerator < denominator,
                0 <= self.color.a <= 255,
        ;
        Some(self.color.with_alpha(alpha as u8))
    }
}

} // verus!
