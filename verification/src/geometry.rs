//! Points, axis-aligned boxes and the camera's visible rectangle.

use vstd::prelude::*;

verus! {

/// The top-left corner of an axis-aligned box, in world units.
#[derive(Clone, Copy, Debug, PartialEq, Eq, Structural)]
pub struct Position {
    pub x: i32,
    pub y: i32,
}

/// The camera: the centre of the visible rectangle and the rectangle's size.
#[derive(Clone, Copy, Debug, PartialEq, Eq, Structural)]
pub struct Camera {
    pub position: Position,
    pub viewport_width: i32,
    pub viewport_height: i32,
}

/// The integer nearest to `v` that an `i32` can hold.
pub open spec fn clamp_i32(v: int) -> int {
    if v < i32::MIN {
        i32::MIN as int
    } else if v > i32::MAX {
        i32::MAX as int
    } else {
        v
    }
}

/// `base + delta`, held at the ends of the `i32` range.
pub fn shift(base: i32, delta: i32) -> (moved: i32)
    ensures
        moved == clamp_i32(base + delta),
{
    let wide: i64 = base as i64 + delta as i64;
    if wide < i32::MIN as i64 {
        i32::MIN
    } else if wide > i32::MAX as i64 {
        i32::MAX
    } else {
        wide as i32
    }
}

/// `base - delta`, held at the ends of the `i32` range.
pub fn shift_back(base: i32, delta: i32) -> (moved: i32)
    ensures
        moved == clamp_i32(base - delta),
{
    let wide: i64 = base as i64 - delta as i64;
    if wide < i32::MIN as i64 {
        i32::MIN
    } else if wide > i32::MAX as i64 {
        i32::MAX
    } else {
        wide as i32
    }
}

/// Whether box A (corner `pos_a`, size `width_a` x `height_a`) and box B
/// overlap: on both axes, each box starts before the other one ends. Boxes
/// that only share an edge do not overlap.
pub open spec fn boxes_overlap(
    pos_a: Position,
    pos_b: Position,
    width_a: i32,
    height_a: i32,
    width_b: i32,
    height_b: i32,
) -> bool {
    &&& pos_a.x < pos_b.x + width_b
    &&& pos_a.x + width_a > pos_b.x
    &&& pos_a.y < pos_b.y + height_b
    &&& pos_a.y + height_a > pos_b.y
}

/// The axis-aligned bounding-box test.
#[verifier::when_used_as_spec(boxes_overlap)]
pub fn overlaps(
    pos_a: Position,
    pos_b: Position,
    width_a: i32,
    height_a: i32,
    width_b: i32,
    height_b: i32,
) -> (hit: bool)
    ensures
        hit == boxes_overlap(pos_a, pos_b, width_a, height_a, width_b, height_b),
{
    (pos_a.x as i64) < pos_b.x as i64 + width_b as i64
        && pos_a.x as i64 + width_a as i64 > pos_b.x as i64
        && (pos_a.y as i64) < pos_b.y as i64 + height_b as i64
        && pos_a.y as i64 + height_a as i64 > pos_b.y as i64
}

/// The overlap test does not depend on which box is named first.
pub proof fn lemma_overlaps_symmetric(
    pos_a: Position,
    pos_b: Position,
    width_a: i32,
    height_a: i32,
    width_b: i32,
    height_b: i32,
)
    ensures
        boxes_overlap(pos_a, pos_b, width_a, height_a, width_b, height_b) == boxes_overlap(
            pos_b,
            pos_a,
            width_b,
            height_b,
            width_a,
            height_a,
        ),
{
}

/// Whether the box at `position` of size `width` x `height` overlaps the
/// rectangle of size `viewport_width` x `viewport_height` whose centre is the
/// camera's position. Both sides of each comparison are doubled, so that an
/// odd viewport size needs no rounding.
pub open spec fn box_in_viewport(camera: Camera, position: Position, width: i32, height: i32) -> bool {
    &&& 2 * position.x < 2 * camera.position.x + camera.viewport_width
    &&& 2 * (position.x + width) > 2 * camera.position.x - camera.viewport_width
    &&& 2 * position.y < 2 * camera.position.y + camera.viewport_height
    &&& 2 * (position.y + height) > 2 * camera.position.y - camera.viewport_height
}

/// Whether a box is at least partly inside the camera's visible rectangle.
#[verifier::when_used_as_spec(box_in_viewport)]
pub fn in_viewport(camera: Camera, position: Position, width: i32, height: i32) -> (visible: bool)
    ensures
        visible == box_in_viewport(camera, position, width, height),
{
    let cx: i64 = 2 * (camera.position.x as i64);
    let cy: i64 = 2 * (camera.position.y as i64);
    let vw: i64 = camera.viewport_width as i64;
    let vh: i64 = camera.viewport_height as i64;
    2 * (position.x as i64) < cx + vw
        && 2 * (position.x as i64 + width as i64) > cx - vw
        && 2 * (position.y as i64) < cy + vh
        && 2 * (position.y as i64 + height as i64) > cy - vh
}

} // verus!
