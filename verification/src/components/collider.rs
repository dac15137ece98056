//! The box with which an entity takes part in collisions.

use vstd::prelude::*;
use crate::components::transform::Transform;
use crate::units::{abs, is_step, lemma_scaled_shrinks, scale, scaled, DIAGONAL_DEN, DIAGONAL_NUM};

verus! {

/// How a body answers to the resolver: a static body is never moved by it.
#[derive(Clone, Copy, Debug, PartialEq, Eq, Hash, Structural)]
pub enum BodyType {
    Static,
    Kinematic,
    Dynamic,
}

/// A box around the position of its entity, given by the offsets of its
/// left, right, bottom and top edge, and the displacement that the entity
/// asks for in this frame. A trigger is seen by overlap queries and blocks
/// nothing.
#[derive(Clone, Copy, Debug, PartialEq, Eq)]
pub struct Collider {
    pub aabb_offset: [i32; 4],
    pub velocity: [i64; 2],
    pub is_trigger: bool,
    pub body_type: BodyType,
}

impl Collider {
    /// The box is not inside out, and the velocity is a displacement that
    /// one frame can produce.
    pub open spec fn wf(self) -> bool {
        &&& self.aabb_offset[0] <= self.aabb_offset[1]
        &&& self.aabb_offset[2] <= self.aabb_offset[3]
        &&& is_step(self.velocity[0] as int)
        &&& is_step(self.velocity[1] as int)
    }

    /// The box of the collider around a position: left, right, bottom, top.
    pub open spec fn aabb(self, position: [i64; 3]) -> [i64; 4] {
        [
            (position[0] + self.aabb_offset[0]) as i64,
            (position[0] + self.aabb_offset[1]) as i64,
            (position[1] + self.aabb_offset[2]) as i64,
            (position[1] + self.aabb_offset[3]) as i64,
        ]
    }

    pub fn get_aabb(&self, transform: &Transform) -> (aabb: [i64; 4])
        requires
            transform.wf(),
        ensures
            aabb == self.aabb(transform.position),
            aabb[0] == transform.position[0] + self.aabb_offset[0],
            aabb[1] == transform.position[0] + self.aabb_offset[1],
            aabb[2] == transform.position[1] + self.aabb_offset[2],
            aabb[3] == transform.position[1] + self.aabb_offset[3],
    {
        [
            transform.position[0] + self.aabb_offset[0] as i64,
            transform.position[0] + self.aabb_offset[1] as i64,
            transform.position[1] + self.aabb_offset[2] as i64,
            transform.position[1] + self.aabb_offset[3] as i64,
        ]
    }
}

impl Default for Collider {
    /// A kinematic, solid body at rest, one unit wide to the left of its
    /// position and half a unit high around it.
    fn default() -> (c: Collider)
        ensures
            c == (Collider {
                aabb_offset: [(-1_000_000i32), 0i32, (-250_000i32), 250_000i32],
                velocity: [0i64, 0i64],
                is_trigger: false,
                body_type: BodyType::Kinematic,
            }),
            c.wf(),
    {
        Collider {
            aabb_offset: [-1_000_000, 0, -250_000, 250_000],
            velocity: [0, 0],
            is_trigger: false,
            body_type: BodyType::Kinematic,
        }
    }
}

/// A movement on the tile grid as it appears on the isometric grid. A
/// movement along one axis is kept. A diagonal one is shortened by the factor
/// 1/sqrt(5), and its horizontal part doubled, so that it runs along the
/// edges of the tiles as they are drawn.
pub open spec fn isometric(vx: int, vy: int) -> (int, int) {
    if vx != 0 && vy != 0 {
        (
            scaled(vx, 2 * DIAGONAL_NUM as int, DIAGONAL_DEN as int),
            scaled(vy, DIAGONAL_NUM as int, DIAGONAL_DEN as int),
        )
    } else {
        (vx, vy)
    }
}

/// The isometric movement is no longer, along either axis, than the movement
/// on the tile grid.
pub proof fn lemma_isometric_shrinks(vx: int, vy: int)
    ensures
        abs(isometric(vx, vy).0) <= abs(vx),
        abs(isometric(vx, vy).1) <= abs(vy),
{
    lemma_scaled_shrinks(vx, 2 * DIAGONAL_NUM as int, DIAGONAL_DEN as int);
    lemma_scaled_shrinks(vy, DIAGONAL_NUM as int, DIAGONAL_DEN as int);
}

/// Converts a movement on the tile grid into one on the isometric grid.
pub fn convert_velocity(velocity: [i64; 2]) -> (v: [i64; 2])
    ensures
        v[0] == isometric(velocity[0] as int, velocity[1] as int).0,
        v[1] == isometric(velocity[0] as int, velocity[1] as int).1,
        abs(v[0] as int) <= abs(velocity[0] as int),
        abs(v[1] as int) <= abs(velocity[1] as int),
{
    proof {
        lemma_isometric_shrinks(velocity[0] as int, velocity[1] as int);
    }
    if velocity[0] != 0 && velocity[1] != 0 {
        [scale(velocity[0], 2 * DIAGONAL_NUM, DIAGONAL_DEN), scale(velocity[1], DIAGONAL_NUM, DIAGONAL_DEN)]
    } else {
        velocity
    }
}

} // verus!
