//! Fixed-point vectors, rotations and entity transforms.

use vstd::prelude::*;
use crate::fx::SCALE;

verus! {

/// A 2D fixed-point vector (pointer-motion deltas, movement intent).
#[derive(Clone, Copy, PartialEq, Eq, Structural, Debug)]
pub struct Vec2Fx {
    pub x: i64,
    pub y: i64,
}

impl Vec2Fx {
    /// The zero vector.
    pub fn zero() -> (r: Vec2Fx)
        ensures
            r.x == 0,
            r.y == 0,
    {
        Vec2Fx { x: 0, y: 0 }
    }
}

/// A 3D fixed-point vector (positions, basis vectors).
#[derive(Clone, Copy, PartialEq, Eq, Structural, Debug)]
pub struct Vec3Fx {
    pub x: i64,
    pub y: i64,
    pub z: i64,
}

impl Vec3Fx {
    /// The zero vector.
    pub fn zero() -> (r: Vec3Fx)
        ensures
            r.x == 0,
            r.y == 0,
            r.z == 0,
    {
        Vec3Fx { x: 0, y: 0, z: 0 }
    }
}

/// An orientation, recorded by its defining parameters; the host scene graph
/// turns it into its own rotation representation.
#[derive(Clone, Copy, PartialEq, Eq, Structural, Debug)]
pub enum RotationFx {
    /// The identity rotation (a freshly spawned entity).
    Identity,
    /// A pure rotation about the vertical axis by the given fixed-point
    /// angle in radians.
    Yaw(i64),
    /// The rotation component of a look-at transform whose eye sits at the
    /// given point, whose target is the local origin and whose up reference
    /// is the world vertical axis.
    FaceOriginFrom(Vec3Fx),
}

/// An entity transform: a position, an orientation, and the two horizontal
/// basis vectors of the orientation's rotation matrix, which the host scene
/// graph keeps current and the controller reads for movement projection.
/// For the camera entity, `position` is local to its parent player entity.
#[derive(Clone, Copy, PartialEq, Eq, Structural, Debug)]
pub struct TransformFx {
    pub position: Vec3Fx,
    pub rotation: RotationFx,
    /// First basis column (the entity's right direction).
    pub axis_x: Vec3Fx,
    /// Third basis column (the entity's forward direction).
    pub axis_z: Vec3Fx,
}

impl Default for TransformFx {
    /// An identity transform at the origin, with unit basis vectors.
    fn default() -> (t: TransformFx)
        ensures
            t.position == (Vec3Fx { x: 0, y: 0, z: 0 }),
            t.rotation == RotationFx::Identity,
            t.axis_x == (Vec3Fx { x: SCALE, y: 0, z: 0 }),
            t.axis_z == (Vec3Fx { x: 0, y: 0, z: SCALE }),
    {
        TransformFx {
            position: Vec3Fx { x: 0, y: 0, z: 0 },
            rotation: RotationFx::Identity,
            axis_x: Vec3Fx { x: SCALE, y: 0, z: 0 },
            axis_z: Vec3Fx { x: 0, y: 0, z: SCALE },
        }
    }
}

} // verus!
