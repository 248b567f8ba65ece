//! The scene: shared resources, the live components, the per-frame update
//! and the per-frame draw list.

use vstd::prelude::*;

use crate::component::DummyComponent;
use crate::component::UNIT;
use crate::component::Vec2;

verus! {

/// Scene-wide resources, shared by every component: the one sprite that
/// every draw command uses. Created once at scene start and never mutated.
#[derive(Clone, Copy, PartialEq, Eq, Structural, Debug)]
pub struct DummyResources {
    /// Handle of the shared sprite.
    pub sprite: u64,
}

/// One emitted draw command: a mesh, the transform to place it with, and
/// the sprite to paint it with.
#[derive(Clone, Copy, PartialEq, Eq, Structural, Debug)]
pub struct DrawCommand {
    /// Mesh handle of the component being drawn.
    pub model: u64,
    /// The component's translation.
    pub translation: Vec2,
    /// The component's rotation angle.
    pub rotation: i64,
    /// Handle of the shared sprite.
    pub sprite: u64,
}

/// The draw command that a frame emits for one component, given the shared
/// sprite: the component's own mesh and transform, the scene's one sprite.
pub open spec fn spec_draw(c: DummyComponent, sprite: u64) -> DrawCommand {
    DrawCommand { model: c.model, translation: c.translation, rotation: c.rotation, sprite }
}

/// A scene: the shared resources, the camera's minimum scaling, and the
/// live components in the order they were added.
pub struct Scene {
    /// The shared resources.
    pub resources: DummyResources,
    /// The camera's minimum world scaling, in fixed-point millionths.
    pub camera_scale: i64,
    /// The live components.
    pub components: Vec<DummyComponent>,
}

impl Scene {
    /// A fresh scene holding the shared sprite, no components yet, and a
    /// camera scaling of one unit until [`Scene::set_scaling`] is called.
    pub fn new(sprite: u64) -> (s: Scene)
        ensures
            s.resources.sprite == sprite,
            s.camera_scale == UNIT,
            s.components@.len() == 0,
    {
        Scene { resources: DummyResources { sprite }, camera_scale: UNIT, components: Vec::new() }
    }

    /// Set the camera's minimum world scaling.
    pub fn set_scaling(&mut self, scale: i64)
        ensures
            final(self).camera_scale == scale,
            final(self).resources == old(self).resources,
            final(self).components@ == old(self).components@,
    {
        self.camera_scale = scale;
    }

    /// Register one more component; everything already in the scene stays
    /// as it was.
    pub fn add(&mut self, component: DummyComponent)
        ensures
            final(self).components@ == old(self).components@.push(component),
            final(self).resources == old(self).resources,
            final(self).camera_scale == old(self).camera_scale,
    {
        self.components.push(component);
    }

    /// Advance every live component by one frame of length `frame_time`.
    /// Each component's rotation decreases by exactly `frame_time`; its
    /// translation, size and mesh, and every other component, are untouched.
    #[verifier::loop_isolation(false)]
    pub fn update(&mut self, frame_time: i64)
        requires
            0 <= frame_time,
            forall|k: int|
                0 <= k < old(self).components@.len() ==> i64::MIN <= old(
                    self,
                ).components@[k].rotation - frame_time,
        ensures
            final(self).resources == old(self).resources,
            final(self).camera_scale == old(self).camera_scale,
            final(self).components@.len() == old(self).components@.len(),
            forall|k: int|
                0 <= k < old(self).components@.len() ==> final(self).components@[k] == old(
                    self,
                ).components@[k].spec_updated(frame_time as int),
    {
        let n = self.components.len();
        let mut i: usize = 0;
        while i < n
            invariant
                i <= n,
                n == self.components@.len(),
                self.components@.len() == old(self).components@.len(),
                self.resources == old(self).resources,
                self.camera_scale == old(self).camera_scale,
                forall|k: int| i <= k < n ==> self.components@[k] == old(self).components@[k],
                forall|k: int|
                    0 <= k < i ==> self.components@[k] == old(self).components@[k].spec_updated(
                        frame_time as int,
                    ),
            decreases n - i,
        {
            let mut c = self.components[i];
            c.update(frame_time);
            self.components.set(i, c);
            i = i + 1;
        }
    }

    /// The draw list of the current frame: one command per live component,
    /// in order, each pairing the component's own mesh and transform with
    /// the one shared sprite.
    #[verifier::loop_isolation(false)]
    pub fn render(&self) -> (cmds: Vec<DrawCommand>)
        ensures
            cmds@.len() == self.components@.len(),
            forall|k: int|
                0 <= k < self.components@.len() ==> cmds@[k] == spec_draw(
                    self.components@[k],
                    self.resources.sprite,
                ),
    {
        let n = self.components.len();
        let mut cmds: Vec<DrawCommand> = Vec::new();
        let mut i: usize = 0;
        while i < n
            invariant
                i <= n,
                n == self.components@.len(),
                cmds@.len() == i,
                forall|k: int|
                    0 <= k < i ==> cmds@[k] == spec_draw(
                        self.components@[k],
                        self.resources.sprite,
                    ),
            decreases n - i,
        {
            let c = self.components[i];
            cmds.push(
                DrawCommand {
                    model: c.model,
                    translation: c.translation,
                    rotation: c.rotation,
                    sprite: self.resources.sprite,
                },
            );
            i = i + 1;
        }
        cmds
    }
}

/// The initial scene of the example: the shared sprite, a camera minimum
/// scaling of five units, and two cuboids — the first at translation
/// (3, 0) with size (1/2, 1/2), the second at translation (-3, 1) with
/// size (1, 1) — both not yet rotated.
pub fn init_scene(sprite: u64, first_model: u64, second_model: u64) -> (s: Scene)
    ensures
        s.resources.sprite == sprite,
        s.camera_scale == 5 * UNIT,
        s.components@.len() == 2,
        s.components@[0].model == first_model,
        s.components@[0].translation.x == 3 * UNIT,
        s.components@[0].translation.y == 0,
        s.components@[0].size.x == UNIT / 2,
        s.components@[0].size.y == UNIT / 2,
        s.components@[0].rotation == 0,
        s.components@[1].model == second_model,
        s.components@[1].translation.x == -3 * UNIT,
        s.components@[1].translation.y == UNIT,
        s.components@[1].size.x == UNIT,
        s.components@[1].size.y == UNIT,
        s.components@[1].rotation == 0,
{
    let mut s = Scene::new(sprite);
    s.set_scaling(5 * UNIT);
    s.add(
        DummyComponent::new(Vec2::new(3 * UNIT, 0), Vec2::new(UNIT / 2, UNIT / 2), first_model),
    );
    s.add(DummyComponent::new(Vec2::new(-3 * UNIT, UNIT), Vec2::new(UNIT, UNIT), second_model));
    s
}

} // verus!
