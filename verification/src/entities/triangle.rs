//! Triangles, with anti-aliased edges.

use vstd::prelude::*;
use vstd::std_specs::ops::SubSpecImpl;
use crate::color::Color;
use crate::drawable::Drawable;
use crate::entities::sampling::{
    antialias, antialiased, hit, larger, max, min, multiply, smaller, AA_FACTOR, AA_SCALE,
    FACTOR_LIMIT,
};
use crate::geometry::{Position, Vector2};

verus! {

impl View for Vector2<i128> {
    type V = Vector2<int>;

    open spec fn view(&self) -> Vector2<int> {
        Vector2 { x: self.x as int, y: self.y as int }
    }
}

/// The third component of the cross product of two vectors of the plane. Its
/// sign says on which side of the first vector the second one lies.
pub open spec fn cross_product(p1: Vector2<int>, p2: Vector2<int>) -> int {
    p1.x * p2.y - p2.x * p1.y
}

pub open spec fn difference(p1: Vector2<int>, p2: Vector2<int>) -> Vector2<int> {
    Vector2 { x: p1.x - p2.x, y: p1.y - p2.y }
}

/// Whether `p` lies inside the triangle with the corners `p1`, `p2`, `p3`, or
/// on its border: `p` lies on the same side of all three edges, whichever way
/// round the corners are given.
pub open spec fn inside_triangle(
    p: Vector2<int>,
    p1: Vector2<int>,
    p2: Vector2<int>,
    p3: Vector2<int>,
) -> bool {
    let abp = cross_product(difference(p1, p2), difference(p1, p));
    let bcp = cross_product(difference(p2, p3), difference(p2, p));
    let cap = cross_product(difference(p3, p1), difference(p3, p));
    (abp >= 0 && bcp >= 0 && cap >= 0) || (abp <= 0 && bcp <= 0 && cap <= 0)
}

/// No coordinate is so large that differences and cross products could
/// leave the range of the integer type.
pub open spec fn in_sub_pixel_range(p: Vector2<i128>) -> bool {
    &&& -0x10_0000_0000 <= p.x <= 0x10_0000_0000
    &&& -0x10_0000_0000 <= p.y <= 0x10_0000_0000
}

impl SubSpecImpl<Vector2<i128>> for Vector2<i128> {
    open spec fn obeys_sub_spec() -> bool {
        true
    }

    open spec fn sub_req(self, rhs: Vector2<i128>) -> bool {
        &&& i128::MIN <= self.x - rhs.x <= i128::MAX
        &&& i128::MIN <= self.y - rhs.y <= i128::MAX
    }

    open spec fn sub_spec(self, rhs: Vector2<i128>) -> Vector2<i128> {
        Vector2 { x: (self.x - rhs.x) as i128, y: (self.y - rhs.y) as i128 }
    }
}

/// The difference of two vectors, coordinate by coordinate.
impl core::ops::Sub<Vector2<i128>> for Vector2<i128> {
    type Output = Vector2<i128>;

    fn sub(self, rhs: Vector2<i128>) -> (out: Vector2<i128>) {
        Vector2 { x: self.x - rhs.x, y: self.y - rhs.y }
    }
}

impl Vector2<i128> {
    pub fn cross_product_sign(p1: Vector2<i128>, p2: Vector2<i128>) -> (sign: i128)
        requires
            -FACTOR_LIMIT <= p1.x <= FACTOR_LIMIT,
            -FACTOR_LIMIT <= p1.y <= FACTOR_LIMIT,
            -FACTOR_LIMIT <= p2.x <= FACTOR_LIMIT,
            -FACTOR_LIMIT <= p2.y <= FACTOR_LIMIT,
        ensures
            sign == cross_product(p1@, p2@),
    {
        multiply(p1.x, p2.y) - multiply(p2.x, p1.y)
    }
}

/// A filled triangle, given by its three corners.
pub struct Triangle {
    pub p1: Position,
    pub p2: Position,
    pub p3: Position,
    pub color: Color,
}

/// The sub-pixel coordinate of the center of the pixel with coordinate `v`.
pub open spec fn upscaled_center(v: int) -> int {
    AA_SCALE * (2 * v + 1)
}

/// The sub-pixel coordinate of a sub-sample of the pixel with coordinate
/// `v`. The offsets `1` to `AA_FACTOR` divide the pixel into `AA_SCALE`
/// equal parts.
pub open spec fn upscaled_sample(v: int, offset: int) -> int {
    2 * (AA_SCALE * v + offset)
}

pub open spec fn upscaled_corner(corner: Position) -> Vector2<int> {
    Vector2 { x: upscaled_center(corner.x as int), y: upscaled_center(corner.y as int) }
}

fn upscale_corner(corner: Position) -> (out: Vector2<i128>)
    ensures
        out@ == upscaled_corner(corner),
        in_sub_pixel_range(out),
{
    Vector2 { x: 3 * (2 * (corner.x as i128) + 1), y: 3 * (2 * (corner.y as i128) + 1) }
}

impl Triangle {
    /// The smallest rectangle of pixels that holds all three corners.
    pub open spec fn in_bounding_box(&self, position: Position) -> bool {
        &&& min(min(self.p1.x as int, self.p2.x as int), self.p3.x as int) <= position.x
        &&& position.x <= max(max(self.p1.x as int, self.p2.x as int), self.p3.x as int)
        &&& min(min(self.p1.y as int, self.p2.y as int), self.p3.y as int) <= position.y
        &&& position.y <= max(max(self.p1.y as int, self.p2.y as int), self.p3.y as int)
    }

    /// Whether the sub-sample of the pixel at `position` with the offsets
    /// `sxo` and `syo` lies inside the triangle.
    pub open spec fn covers_sub_sample(&self, position: Position, sxo: int, syo: int) -> bool {
        inside_triangle(
            Vector2 {
                x: upscaled_sample(position.x as int, sxo),
                y: upscaled_sample(position.y as int, syo),
            },
            upscaled_corner(self.p1),
            upscaled_corner(self.p2),
            upscaled_corner(self.p3),
        )
    }

    /// The number of sub-samples of the pixel at `position` that lie inside
    /// the triangle.
    pub open spec fn covered(&self, position: Position) -> int {
        hit(self.covers_sub_sample(position, 1, 1)) + hit(self.covers_sub_sample(position, 1, 2))
            + hit(self.covers_sub_sample(position, 2, 1)) + hit(
            self.covers_sub_sample(position, 2, 2),
        )
    }

    /// Whether `p` lies inside the triangle with the corners `p1`, `p2` and
    /// `p3`, all in sub-pixel coordinates.
    pub fn is_point_inside(
        &self,
        p: Vector2<i128>,
        p1: Vector2<i128>,
        p2: Vector2<i128>,
        p3: Vector2<i128>,
    ) -> (inside: bool)
        requires
            in_sub_pixel_range(p),
            in_sub_pixel_range(p1),
            in_sub_pixel_range(p2),
            in_sub_pixel_range(p3),
        ensures
            inside == inside_triangle(p@, p1@, p2@, p3@),
    {
        let ab = p1 - p2;
        let ap = p1 - p;

        let bc = p2 - p3;
        let bp = p2 - p;

        let ca = p3 - p1;
        let cp = p3 - p;

        let abp = Vector2::<i128>::cross_product_sign(ab, ap);
        let bcp = Vector2::<i128>::cross_product_sign(bc, bp);
        let cap = Vector2::<i128>::cross_product_sign(ca, cp);

        (abp >= 0 && bcp >= 0 && cap >= 0) || (abp <= 0 && bcp <= 0 && cap <= 0)
    }

    fn sub_sample_hit(
        &self,
        position: Position,
        sxo: i128,
        syo: i128,
        p1: Vector2<i128>,
        p2: Vector2<i128>,
        p3: Vector2<i128>,
    ) -> (count: u8)
        requires
            1 <= sxo <= AA_FACTOR,
            1 <= syo <= AA_FACTOR,
            p1@ == upscaled_corner(self.p1),
            p2@ == upscaled_corner(self.p2),
            p3@ == upscaled_corner(self.p3),
            in_sub_pixel_range(p1),
            in_sub_pixel_range(p2),
            in_sub_pixel_range(p3),
        ensures
            count == hit(self.covers_sub_sample(position, sxo as int, syo as int)),
    {
        let p = Vector2 {
            x: 2 * (3 * (position.x as i128) + sxo),
            y: 2 * (3 * (position.y as i128) + syo),
        };
        if self.is_point_inside(p, p1, p2, p3) { 1 } else { 0 }
    }
}

impl Drawable for Triangle {
    open spec fn well_formed(&self) -> bool {
        true
    }

    open spec fn sample(&self, position: Position) -> Option<Color> {
        if self.in_bounding_box(position) {
            antialiased(self.color, self.covered(position))
        } else {
            None
        }
    }

    fn is_well_formed(&self) -> (ok: bool) {
        true
    }

    fn color_at(&self, position: Position) -> (color: Option<Color>) {
        let x_start = smaller(smaller(self.p1.x, self.p2.x), self.p3.x);
        let x_end = larger(larger(self.p1.x, self.p2.x), self.p3.x);
        let y_start = smaller(smaller(self.p1.y, self.p2.y), self.p3.y);
        let y_end = larger(larger(self.p1.y, self.p2.y), self.p3.y);
        if !(position.x >= x_start && position.x <= x_end && position.y >= y_start && position.y
            <= y_end) {
            return None;
        }
        let p1 = upscale_corner(self.p1);
        let p2 = upscale_corner(self.p2);
        let p3 = upscale_corner(self.p3);

        let mut covered: u8 = 0;
        covered += self.sub_sample_hit(position, 1, 1, p1, p2, p3);
        covered += self.sub_sample_hit(position, 1, 2, p1, p2, p3);
        covered += self.sub_sample_hit(position, 2, 1, p1, p2, p3);
        covered += self.sub_sample_hit(position, 2, 2, p1, p2, p3);

        antialias(self.color, covered)
    }
}

} // verus!
