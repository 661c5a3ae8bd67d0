//! Closed axis-aligned bounding-box overlap.
use vstd::prelude::*;

use crate::entity::Entity;
use crate::POSITION_SCALE;

verus! {

/// The rectangles of `a` and `b`, taken as closed sets, meet.
pub open spec fn overlaps_spec(a: Entity, b: Entity) -> bool {
    !(a.max_x() < b.min_x() || a.max_y() < b.min_y() || a.min_x() > b.max_x() || a.min_y()
        > b.max_y())
}

/// Whether the rectangles of `a` and `b` meet; touching edges count.
pub fn overlaps(a: &Entity, b: &Entity) -> (r: bool)
    ensures
        r == overlaps_spec(*a, *b),
{
    let scale = POSITION_SCALE as i128;
    let a_min_x = a.position.x as i128;
    let a_min_y = a.position.y as i128;
    let b_min_x = b.position.x as i128;
    let b_min_y = b.position.y as i128;
    let a_max_x = a_min_x + a.width as i128 * scale;
    let a_max_y = a_min_y + a.height as i128 * scale;
    let b_max_x = b_min_x + b.width as i128 * scale;
    let b_max_y = b_min_y + b.height as i128 * scale;
    !(a_max_x < b_min_x || a_max_y < b_min_y || a_min_x > b_max_x || a_min_y > b_max_y)
}

/// The overlap test does not depend on the order of its arguments.
pub proof fn lemma_overlaps_symmetric(a: Entity, b: Entity)
    ensures
        overlaps_spec(a, b) == overlaps_spec(b, a),
{
}

/// Rectangles that share only part of a boundary edge overlap: a vertical
/// edge of one lies on a vertical edge of the other while their vertical
/// extents meet, or the same with the axes swapped.
pub proof fn lemma_shared_edge_overlaps(a: Entity, b: Entity)
    requires
        ((a.max_x() == b.min_x() || a.min_x() == b.max_x()) && a.min_y() <= b.max_y()
            && b.min_y() <= a.max_y()) || ((a.max_y() == b.min_y() || a.min_y() == b.max_y())
            && a.min_x() <= b.max_x() && b.min_x() <= a.max_x()),
    ensures
        overlaps_spec(a, b),
{
}

/// Rectangles separated by a positive gap on either axis do not overlap.
pub proof fn lemma_gap_separates(a: Entity, b: Entity)
    requires
        a.max_x() < b.min_x() || b.max_x() < a.min_x() || a.max_y() < b.min_y() || b.max_y()
            < a.min_y(),
    ensures
        !overlaps_spec(a, b),
{
}

} // verus!
