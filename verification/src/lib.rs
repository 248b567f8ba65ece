//! A model of a small scene of spinning cuboid components.
//!
//! The scene holds one shared sprite handle and a list of components; each
//! component has a mesh handle, a translation, a size and a rotation angle.
//! Every frame each component's angle decreases by exactly the elapsed
//! frame time, and one draw command per component is emitted, pairing the
//! component's own mesh with the shared sprite.
//!
//! All coordinates, sizes, angles and durations are fixed-point integers in
//! millionths of a unit (see [`component::UNIT`]), so the per-frame angle
//! arithmetic is exact.

pub mod component;
pub mod scene;
