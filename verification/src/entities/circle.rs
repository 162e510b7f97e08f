//! Discs, with anti-aliased rims.

use vstd::prelude::*;
use crate::color::Color;
use crate::drawable::Drawable;
use crate::entities::sampling::{
    antialias, antialiased, hit, multiply, AA_FACTOR, AA_SCALE,
};
use crate::geometry::Position;

verus! {

/// A filled disc, given by its center and its radius.
pub struct Circle {
    pub center: Position,
    pub radius: i32,
    pub color: Color,
}

/// With a radius up to this limit the squared distances of the sub-samples
/// fit into 32 bits.
pub const CIRCLE_RADIUS_LIMIT: i32 = 16384;

/// Whether a sub-sample lies inside a disc of the given radius. The pixel
/// lies `dx` to the right of the center of the disc and `dy` below it, `sx`
/// and `sy` number the sub-sample from `0`: a sub-sample lies a sixth of a
/// pixel from the center of its pixel along each axis, to the left or above
/// for `0`, to the right or below for `1`. Distances are taken in sixths of
/// a pixel and compared by their squares.
pub open spec fn inside_disc(radius: int, dx: int, dy: int, sx: int, sy: int) -> bool {
    let ux = 2 * (AA_SCALE * dx + sx + 1) - AA_SCALE;
    let uy = 2 * (AA_SCALE * dy + sy + 1) - AA_SCALE;
    let sr = 2 * AA_SCALE * radius;
    ux * ux + uy * uy <= sr * sr
}

impl Circle {
    /// The square of pixels that holds the disc.
    pub open spec fn in_bounding_box(&self, position: Position) -> bool {
        &&& position.x >= self.center.x - self.radius
        &&& position.x <= self.center.x + self.radius
        &&& position.y >= self.center.y - self.radius
        &&& position.y <= self.center.y + self.radius
    }

    pub open spec fn covers_sub_sample(&self, position: Position, sx: int, sy: int) -> bool {
        inside_disc(
            self.radius as int,
            position.x - self.center.x,
            position.y - self.center.y,
            sx,
            sy,
        )
    }

    /// The number of sub-samples of the pixel at `position` that lie inside
    /// the disc.
    pub open spec fn covered(&self, position: Position) -> int {
        hit(self.covers_sub_sample(position, 0, 0)) + hit(self.covers_sub_sample(position, 0, 1))
            + hit(self.covers_sub_sample(position, 1, 0)) + hit(
            self.covers_sub_sample(position, 1, 1),
        )
    }

    fn sub_sample_hit(&self, position: Position, sx: i128, sy: i128) -> (count: u8)
        requires
            self.well_formed(),
            self.in_bounding_box(position),
            0 <= sx < AA_FACTOR,
            0 <= sy < AA_FACTOR,
        ensures
            count == hit(self.covers_sub_sample(position, sx as int, sy as int)),
    {
        let dx = 2 * (3 * (position.x as i128 - self.center.x as i128) + sx + 1) - 3;
        let dy = 2 * (3 * (position.y as i128 - self.center.y as i128) + sy + 1) - 3;
        let sr = 6 * (self.radius as i128);
        if multiply(dx, dx) + multiply(dy, dy) <= multiply(sr, sr) { 1 } else { 0 }
    }
}

impl Drawable for Circle {
    /// The radius stays under a third of `CIRCLE_RADIUS_LIMIT`.
    open spec fn well_formed(&self) -> bool {
        AA_SCALE * self.radius < CIRCLE_RADIUS_LIMIT
    }

    open spec fn sample(&self, position: Position) -> Option<Color> {
        if self.in_bounding_box(position) {
            antialiased(self.color, self.covered(position))
        } else {
            None
        }
    }

    fn is_well_formed(&self) -> (ok: bool) {
        (AA_SCALE as i64) * (self.radius as i64) < CIRCLE_RADIUS_LIMIT as i64
    }

    fn color_at(&self, position: Position) -> (color: Option<Color>) {
        let cx = self.center.x as i64;
        let cy = self.center.y as i64;
        let radius = self.radius as i64;
        let px = position.x as i64;
        let py = position.y as i64;
        if !(px >= cx - radius && px <= cx + radius && py >= cy - radius && py <= cy + radius) {
            return None;
        }
        let mut covered: u8 = 0;
        covered += self.sub_sample_hit(position, 0, 0);
        covered += self.sub_sample_hit(position, 0, 1);
        covered += self.sub_sample_hit(position, 1, 0);
        covered += self.sub_sample_hit(position, 1, 1);

        antialias(self.color, covered)
    }
}

proof fn lemma_sub_sample_far_outside(radius: int, dx: int, dy: int, sx: int, sy: int)
    requires
        0 <= sx <= 1,
        0 <= sy <= 1,
        -radius <= dx <= radius,
        -radius <= dy <= radius,
        dx * dx + dy * dy > (radius + 1) * (radius + 1),
    ensures
        !inside_disc(radius, dx, dy, sx, sy),
{
    let ux = 6 * dx + 2 * sx - 1;
    let uy = 6 * dy + 2 * sy - 1;
    let sr = 6 * radius;
    assert(ux * ux + uy * uy > sr * sr) by (nonlinear_arith)
        requires
            ux == 6 * dx + 2 * sx - 1,
            uy == 6 * dy + 2 * sy - 1,
            sr == 6 * radius,
            0 <= sx <= 1,
            0 <= sy <= 1,
            -radius <= dx <= radius,
            -radius <= dy <= radius,
            dx * dx + dy * dy > (radius + 1) * (radius + 1),
    {
        assert(ux * ux == 36 * (dx * dx) + 12 * ((2 * sx - 1) * dx) + (2 * sx - 1) * (2 * sx - 1));
        assert(uy * uy == 36 * (dy * dy) + 12 * ((2 * sy - 1) * dy) + (2 * sy - 1) * (2 * sy - 1));
        assert((2 * sx - 1) * dx >= -radius);
        assert((2 * sy - 1) * dy >= -radius);
        assert((radius + 1) * (radius + 1) == radius * radius + 2 * radius + 1);
        assert(sr * sr == 36 * (radius * radius));
    }
}

proof fn lemma_sub_sample_deep_inside(radius: int, dx: int, dy: int, sx: int, sy: int)
    requires
        0 <= sx <= 1,
        0 <= sy <= 1,
        radius >= 1,
        dx * dx + dy * dy <= (radius - 1) * (radius - 1),
    ensures
        inside_disc(radius, dx, dy, sx, sy),
        -radius < dx < radius,
        -radius < dy < radius,
{
    let ux = 6 * dx + 2 * sx - 1;
    let uy = 6 * dy + 2 * sy - 1;
    let sr = 6 * radius;
    assert(-radius < dx < radius && -radius < dy < radius) by (nonlinear_arith)
        requires
            radius >= 1,
            dx * dx + dy * dy <= (radius - 1) * (radius - 1),
    {
        if dx >= radius || dx <= -radius {
            assert(dx * dx >= radius * radius);
            assert(dy * dy >= 0);
        }
        if dy >= radius || dy <= -radius {
            assert(dy * dy >= radius * radius);
            assert(dx * dx >= 0);
        }
    }
    assert(ux * ux + uy * uy <= sr * sr) by (nonlinear_arith)
        requires
            ux == 6 * dx + 2 * sx - 1,
            uy == 6 * dy + 2 * sy - 1,
            sr == 6 * radius,
            0 <= sx <= 1,
            0 <= sy <= 1,
            radius >= 1,
            -radius < dx < radius,
            -radius < dy < radius,
            dx * dx + dy * dy <= (radius - 1) * (radius - 1),
    {
        assert(ux * ux == 36 * (dx * dx) + 12 * ((2 * sx - 1) * dx) + (2 * sx - 1) * (2 * sx - 1));
        assert(uy * uy == 36 * (dy * dy) + 12 * ((2 * sy - 1) * dy) + (2 * sy - 1) * (2 * sy - 1));
        assert((2 * sx - 1) * dx <= radius - 1);
        assert((2 * sy - 1) * dy <= radius - 1);
        assert((radius - 1) * (radius - 1) == radius * radius - 2 * radius + 1);
        assert(sr * sr == 36 * (radius * radius));
    }
}

/// A disc contributes nothing to a pixel whose distance from the center is
/// more than the radius and one pixel.
pub proof fn lemma_circle_far_outside(circle: Circle, position: Position)
    requires
        (position.x - circle.center.x) * (position.x - circle.center.x) + (position.y
            - circle.center.y) * (position.y - circle.center.y) > (circle.radius + 1) * (
        circle.radius + 1),
    ensures
        circle.sample(position) is None,
{
    if circle.in_bounding_box(position) {
        let radius = circle.radius as int;
        let dx = position.x - circle.center.x;
        let dy = position.y - circle.center.y;
        lemma_sub_sample_far_outside(radius, dx, dy, 0, 0);
        lemma_sub_sample_far_outside(radius, dx, dy, 0, 1);
        lemma_sub_sample_far_outside(radius, dx, dy, 1, 0);
        lemma_sub_sample_far_outside(radius, dx, dy, 1, 1);
    }
}

/// A disc contributes its color with the full alpha channel to a pixel whose
/// distance from the center is at most the radius less one pixel.
pub proof fn lemma_circle_deep_inside(circle: Circle, position: Position)
    requires
        circle.radius >= 1,
        (position.x - circle.center.x) * (position.x - circle.center.x) + (position.y
            - circle.center.y) * (position.y - circle.center.y) <= (circle.radius - 1) * (
        circle.radius - 1),
    ensures
        circle.sample(position) == Some(circle.color),
{
    let radius = circle.radius as int;
    let dx = position.x - circle.center.x;
    let dy = position.y - circle.center.y;
    lemma_sub_sample_deep_inside(radius, dx, dy, 0, 0);
    lemma_sub_sample_deep_inside(radius, dx, dy, 0, 1);
    lemma_sub_sample_deep_inside(radius, dx, dy, 1, 0);
    lemma_sub_sample_deep_inside(radius, dx, dy, 1, 1);
    assert(circle.covered(position) == 4);
    assert(circle.color.a * 4 / 4 == circle.color.a);
}

} // verus!
