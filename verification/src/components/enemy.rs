//! What makes an entity an enemy.

use vstd::prelude::*;

verus! {

/// The timer of an enemy that is due to look for the player at once.
pub const RETARGET_NOW: u32 = 99_000;

/// An enemy looks for the player every `RETARGET_SPAN / speed` milliseconds.
pub const RETARGET_SPAN: u32 = 1_000_000;

/// An enemy: its speed in sub-units per millisecond, and the milliseconds
/// since it last looked for the player.
#[derive(Clone, Copy, Debug, PartialEq, Eq)]
pub struct Enemy {
    pub speed: u32,
    pub tick: u32,
}

impl Enemy {
    /// The enemy can move, and its timer has not run past the longest span.
    pub open spec fn wf(self) -> bool {
        self.speed >= 1 && self.tick <= RETARGET_SPAN
    }

    /// Whether, `dt` milliseconds on, the enemy is due to look for the
    /// player: more than `RETARGET_SPAN / speed` milliseconds have passed.
    pub open spec fn due(self, dt: u16) -> bool {
        (self.tick + dt) * self.speed > RETARGET_SPAN
    }

    pub fn new(speed: u32) -> (e: Enemy)
        ensures
            e == (Enemy { speed, tick: RETARGET_NOW }),
    {
        Enemy { speed, tick: RETARGET_NOW }
    }

    /// Lets `dt` milliseconds pass, and tells whether the enemy is due to
    /// look for the player; if it is, its timer starts again.
    pub fn update_tick(&mut self, dt: u16) -> (due: bool)
        requires
            old(self).wf(),
        ensures
            due == old(self).due(dt),
            final(self).speed == old(self).speed,
            final(self).tick == (if due {
                0
            } else {
                old(self).tick + dt
            }),
            final(self).wf(),
    {
        let t: u64 = self.tick as u64 + dt as u64;
        let s: u64 = self.speed as u64;
        assert(t * s <= 1_065_535 * 0xffff_ffff) by (nonlinear_arith)
            requires
                0 <= t <= 1_065_535,
                0 <= s <= 0xffff_ffff,
        ;
        if t * s > RETARGET_SPAN as u64 {
            self.tick = 0;
            true
        } else {
            assert(t <= 1_000_000) by (nonlinear_arith)
                requires
                    t * s <= 1_000_000,
                    s >= 1,
                    t >= 0,
            ;
            self.tick = t as u32;
            false
        }
    }
}

} // verus!
