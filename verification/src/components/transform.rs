//! Where an entity stands, how large it is drawn and where it faces.

use vstd::prelude::*;
use crate::components::direction::Direction;
use crate::units::{depth, depth_of, in_world, UNIT};

verus! {

/// Position, size and facing of an entity. The position is `[x, y, depth]`.
#[derive(Clone, Copy, Debug, PartialEq, Eq)]
pub struct Transform {
    pub position: [i64; 3],
    pub size: [i64; 2],
    pub direction: Direction,
}

impl Transform {
    /// Both coordinates lie inside the world.
    pub open spec fn wf(self) -> bool {
        in_world(self.position[0] as int) && in_world(self.position[1] as int)
    }

    /// The transform after a displacement by `(dx, dy)`; the depth follows
    /// the new height, the facing is kept.
    pub open spec fn shifted(self, dx: int, dy: int) -> Transform {
        Transform {
            position: [
                (self.position[0] + dx) as i64,
                (self.position[1] + dy) as i64,
                depth_of(self.position[1] + dy) as i64,
            ],
            ..self
        }
    }

    /// The transform after a move by `(dx, dy)`: displaced, and turned into
    /// the direction of the move unless the move has no length.
    pub open spec fn moved(self, dx: int, dy: int) -> Transform {
        if dx == 0 && dy == 0 {
            self.shifted(dx, dy)
        } else {
            Transform { direction: Direction::of_step(dx, dy), ..self.shifted(dx, dy) }
        }
    }

    /// The model matrix, column by column: a scaling by the size followed by
    /// a translation to the position. Its entries are in sub-units.
    pub open spec fn matrix(self) -> [[i64; 4]; 4] {
        [
            [self.size[0], 0i64, 0i64, 0i64],
            [0i64, self.size[1], 0i64, 0i64],
            [0i64, 0i64, UNIT, 0i64],
            [self.position[0], self.position[1], self.position[2], UNIT],
        ]
    }

    /// A transform at a position, facing left.
    pub fn new(position: [i64; 3], size: [i64; 2]) -> (t: Transform)
        ensures
            t == (Transform { position, size, direction: Direction::Left }),
    {
        Transform { position, size, direction: Direction::Left }
    }

    /// Displaces the entity and derives its depth from the new height.
    pub fn translate(&mut self, delta: [i64; 2])
        requires
            in_world(old(self).position[0] + delta[0]),
            in_world(old(self).position[1] + delta[1]),
        ensures
            *final(self) == old(self).shifted(delta[0] as int, delta[1] as int),
            final(self).wf(),
    {
        let x: i64 = self.position[0] + delta[0];
        let y: i64 = self.position[1] + delta[1];
        self.position = [x, y, depth(y)];
    }

    /// Moves the entity: displaces it, derives its depth from the new height
    /// and turns it into the direction of the move.
    pub fn move_position(&mut self, delta: [i64; 2])
        requires
            in_world(old(self).position[0] + delta[0]),
            in_world(old(self).position[1] + delta[1]),
        ensures
            *final(self) == old(self).moved(delta[0] as int, delta[1] as int),
            final(self).wf(),
    {
        self.translate(delta);
        if delta[0] != 0 || delta[1] != 0 {
            self.direction = crate::components::direction::check_direction(delta);
        }
    }

    /// The place of the facing in the clockwise round; an entity that faces
    /// nowhere is drawn facing down.
    pub fn get_direction(&self) -> (i: u8)
        ensures
            i == (if self.direction is Still {
                Direction::Down.spec_index()
            } else {
                self.direction.spec_index()
            }),
    {
        match self.direction {
            Direction::Still => Direction::Down.index(),
            d => d.index(),
        }
    }

    pub fn get_matrix(&self) -> (m: [[i64; 4]; 4])
        ensures
            m == self.matrix(),
    {
        [
            [self.size[0], 0, 0, 0],
            [0, self.size[1], 0, 0],
            [0, 0, UNIT, 0],
            [self.position[0], self.position[1], self.position[2], UNIT],
        ]
    }
}

} // verus!
