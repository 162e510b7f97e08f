//! The sampling contract between shapes and the canvas.

use vstd::prelude::*;
use crate::color::{composite, lemma_composite_opaque, Color};
use crate::geometry::Position;

verus! {

/// A shape that can say, for any pixel, which color it contributes there.
pub trait Drawable: Send + Sync {
    /// What the shape needs to hold before it may be sampled.
    spec fn well_formed(&self) -> bool;

    /// The color that the shape contributes at `position`: `None` where it
    /// does not cover the pixel at all, else its color with the alpha channel
    /// scaled by the fraction of the pixel that it covers.
    spec fn sample(&self, position: Position) -> Option<Color>;

    /// Tests whether the shape may be sampled.
    fn is_well_formed(&self) -> (ok: bool)
        ensures
            ok == self.well_formed(),
    ;

    /// Samples the shape at the center of the pixel at `position`. The result
    /// depends on the shape and the position alone.
    fn color_at(&self, position: Position) -> (color: Option<Color>)
        requires
            self.well_formed(),
        ensures
            color == self.sample(position),
    ;
}

/// Every shape of the sequence may be sampled.
pub open spec fn all_well_formed<D: Drawable>(entities: Seq<D>) -> bool {
    forall|k: int| 0 <= k < entities.len() ==> (#[trigger] entities[k]).well_formed()
}

/// Tests whether every shape of the slice may be sampled.
pub fn are_well_formed<D: Drawable>(entities: &[D]) -> (ok: bool)
    ensures
        ok == all_well_formed(entities@),
{
    let mut k: usize = 0;
    while k < entities.len()
        invariant
            k <= entities@.len(),
            forall|i: int| 0 <= i < k ==> (#[trigger] entities@[i]).well_formed(),
        decreases entities@.len() - k,
    {
        if !entities[k].is_well_formed() {
            return false;
        }
        k += 1;
    }
    true
}

/// The color of a pixel that showed `base` after the shapes have been painted
/// over it at `position`, one after the other: a later shape is painted over
/// an earlier one.
pub open spec fn painted<D: Drawable>(entities: Seq<D>, position: Position, base: Color) -> Color
    decreases entities.len(),
{
    if entities.len() == 0 {
        base
    } else {
        let below = painted(entities.drop_last(), position, base);
        match entities.last().sample(position) {
            Some(color) => composite(below, color),
            None => below,
        }
    }
}

/// Paints the shapes over `base` at `position`, in the order of the slice.
pub fn paint<D: Drawable>(entities: &[D], position: Position, base: Color) -> (color: Color)
    requires
        all_well_formed(entities@),
    ensures
        color == painted(entities@, position, base),
{
    let mut color = base;
    let mut k: usize = 0;
    while k < entities.len()
        invariant
            k <= entities@.len(),
            all_well_formed(entities@),
            color == painted(entities@.take(k as int), position, base),
        decreases entities@.len() - k,
    {
        let sampled = entities[k].color_at(position);
        proof {
            let next = entities@.take(k + 1);
            assert(next.drop_last() =~= entities@.take(k as int));
            assert(next.last() == entities@[k as int]);
        }
        if let Some(over) = sampled {
            color = color.composite(over);
        }
        k += 1;
    }
    assert(entities@.take(k as int) =~= entities@);
    color
}

/// A shape that is opaque at a pixel hides what was painted there before it.
pub proof fn lemma_opaque_shape_hides_earlier<D: Drawable>(
    entities: Seq<D>,
    position: Position,
    base: Color,
)
    requires
        entities.len() > 0,
        entities.last().sample(position) matches Some(color) && color.a == 255,
    ensures
        Some(painted(entities, position, base)) == entities.last().sample(position),
{
    lemma_composite_opaque(
        painted(entities.drop_last(), position, base),
        entities.last().sample(position).unwrap(),
    );
}

/// A pixel that no shape covers remains as it was.
pub proof fn lemma_uncovered_pixel_remains<D: Drawable>(
    entities: Seq<D>,
    position: Position,
    base: Color,
)
    requires
        forall|k: int| 0 <= k < entities.len() ==> (#[trigger] entities[k]).sample(position) is None,
    ensures
        painted(entities, position, base) == base,
    decreases entities.len(),
{
    if entities.len() > 0 {
        let earlier = entities.drop_last();
        assert forall|k: int| 0 <= k < earlier.len() implies (#[trigger] earlier[k]).sample(
            position,
        ) is None by {
            assert(earlier[k] == entities[k]);
        }
        lemma_uncovered_pixel_remains(earlier, position, base);
        assert(entities.last() == entities[entities.len() - 1]);
    }
}

/// To paint two sequences of shapes one after the other is to paint the
/// shapes of both in one go.
pub proof fn lemma_painted_in_two_passes<D: Drawable>(
    first: Seq<D>,
    second: Seq<D>,
    position: Position,
    base: Color,
)
    ensures
        painted(first + second, position, base) == painted(
            second,
            position,
            painted(first, position, base),
        ),
    decreases second.len(),
{
    if second.len() == 0 {
        assert(first + second =~= first);
    } else {
        assert((first + second).drop_last() =~= first + second.drop_last());
        assert((first + second).last() == second.last());
        lemma_painted_in_two_passes(first, second.drop_last(), position, base);
    }
}

} // verus!
