//! Components: a 2D vector type, angle arithmetic, and the component record.

use vstd::prelude::*;

verus! {

/// One whole unit in the fixed-point encoding used throughout the scene:
/// a coordinate, size, angle or duration of `x` units is stored as the
/// integer `x * UNIT` (millionths).
pub const UNIT: i64 = 1_000_000;

/// A two-dimensional vector in fixed-point millionths of a unit.
#[derive(Clone, Copy, PartialEq, Eq, Structural, Debug)]
pub struct Vec2 {
    pub x: i64,
    pub y: i64,
}

impl Vec2 {
    pub fn new(x: i64, y: i64) -> (v: Vec2)
        ensures
            v.x == x,
            v.y == y,
    {
        Vec2 { x, y }
    }
}

/// The rotation angle after `frame_time` has elapsed: the angle decreases
/// by exactly the elapsed time (the spin rate is minus one unit of angle
/// per unit of time).
pub open spec fn spec_rotation_after(rotation: int, frame_time: int) -> int {
    rotation - frame_time
}

/// Per-frame angle update, exact in the fixed-point encoding.
pub fn rotation_after(rotation: i64, frame_time: i64) -> (r: i64)
    requires
        0 <= frame_time,
        i64::MIN <= rotation - frame_time,
    ensures
        r == spec_rotation_after(rotation as int, frame_time as int),
{
    rotation - frame_time
}

/// One renderable unit: a mesh handle, a translation, the size its cuboid
/// mesh was built with, and its current rotation angle.
#[derive(Clone, Copy, PartialEq, Eq, Structural, Debug)]
pub struct DummyComponent {
    /// Handle of the component's own cuboid mesh.
    pub model: u64,
    /// Position of the component in the world.
    pub translation: Vec2,
    /// Size the cuboid mesh was built with.
    pub size: Vec2,
    /// Current rotation angle.
    pub rotation: i64,
}

impl DummyComponent {
    /// A new component placed at `translation`, with a cuboid mesh of the
    /// given `size` under the handle `model`, not yet rotated.
    pub fn new(translation: Vec2, size: Vec2, model: u64) -> (c: DummyComponent)
        ensures
            c.translation == translation,
            c.size == size,
            c.model == model,
            c.rotation == 0,
    {
        DummyComponent { model, translation, size, rotation: 0 }
    }

    /// The component as it stands after one frame of length `frame_time`:
    /// only the rotation changes, by exactly `-frame_time`.
    pub open spec fn spec_updated(self, frame_time: int) -> DummyComponent {
        DummyComponent {
            rotation: spec_rotation_after(self.rotation as int, frame_time as int) as i64,
            ..self
        }
    }

    /// Advance this component by one frame of length `frame_time`.
    pub fn update(&mut self, frame_time: i64)
        requires
            0 <= frame_time,
            i64::MIN <= old(self).rotation - frame_time,
        ensures
            *final(self) == old(self).spec_updated(frame_time as int),
            final(self).rotation == spec_rotation_after(
                old(self).rotation as int,
                frame_time as int,
            ),
            final(self).translation == old(self).translation,
            final(self).size == old(self).size,
            final(self).model == old(self).model,
    {
        self.rotation = rotation_after(self.rotation, frame_time);
    }
}

} // verus!
