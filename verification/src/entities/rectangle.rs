//! Rectangles.

use vstd::prelude::*;
use crate::color::Color;
use crate::drawable::Drawable;
use crate::geometry::{Position, Size};

verus! {

/// An axis-aligned filled rectangle, given by its center and its size.
pub struct Rectangle {
    pub center: Position,
    pub size: Size,
    pub color: Color,
}

/// Half of an extent, rounded towards zero.
pub open spec fn half(extent: int) -> int {
    if extent >= 0 {
        extent / 2
    } else {
        -((-extent) / 2)
    }
}

impl Rectangle {
    /// Whether the pixel at `position` belongs to the rectangle: in each
    /// direction it is at most half the extent away from the center. With an
    /// odd extent the half is rounded down.
    pub open spec fn covers(&self, position: Position) -> bool {
        &&& self.center.x - half(self.size.width as int) <= position.x
        &&& position.x <= self.center.x + half(self.size.width as int)
        &&& self.center.y - half(self.size.height as int) <= position.y
        &&& position.y <= self.center.y + half(self.size.height as int)
    }
}

impl Drawable for Rectangle {
    open spec fn well_formed(&self) -> bool {
        true
    }

    /// The edge is hard: a pixel has the rectangle's color or none.
    open spec fn sample(&self, position: Position) -> Option<Color> {
        if self.covers(position) {
            Some(self.color)
        } else {
            None
        }
    }

    fn is_well_formed(&self) -> (ok: bool) {
        true
    }

    fn color_at(&self, position: Position) -> (color: Option<Color>) {
        let half_width = (self.size.width / 2) as i64;
        let half_height = (self.size.height / 2) as i64;
        let cx = self.center.x as i64;
        let cy = self.center.y as i64;
        let px = position.x as i64;
        let py = position.y as i64;
        if !(px >= cx - half_width && px <= cx + half_width && py >= cy - half_height && py <= cy
            + half_height) {
            return None;
        }
        Some(self.color)
    }
}

/// Every pixel within the bounds of a rectangle shows the rectangle's exact
/// color, with the alpha channel unchanged.
pub proof fn lemma_rectangle_exact_color(rectangle: Rectangle, position: Position)
    requires
        rectangle.covers(position),
    ensures
        rectangle.sample(position) == Some(rectangle.color),
{
}

} // verus!
