//! Projectiles, and the latch by which an entity asks for one.

use vstd::prelude::*;
use crate::units::is_step;

verus! {

/// The fastest that a projectile moves along one axis, in sub-units per
/// millisecond.
pub const MOVEMENT_MAX: i64 = 15_000_000_000;

/// A projectile in flight: how long it lives, how long it has lived, both in
/// milliseconds, and how far it moves per millisecond.
#[derive(Clone, Copy, Debug, PartialEq, Eq)]
pub struct Attack {
    pub duration: u32,
    pub elapsed: u32,
    pub movement: [i64; 2],
}

impl Attack {
    /// The movement is no faster than a projectile may be.
    pub open spec fn wf(self) -> bool {
        -(MOVEMENT_MAX as int) <= self.movement[0] <= MOVEMENT_MAX as int && -(MOVEMENT_MAX as int)
            <= self.movement[1] <= MOVEMENT_MAX as int
    }

    /// A projectile dies when it has lived as long as it lasts.
    pub open spec fn expired(self) -> bool {
        self.elapsed >= self.duration
    }

    /// The projectile after `dt` more milliseconds. The time lived stops
    /// counting at the largest value it can hold, where every projectile
    /// has died.
    pub open spec fn aged(self, dt: u16) -> Attack {
        Attack {
            elapsed: if self.elapsed + dt > u32::MAX {
                u32::MAX
            } else {
                (self.elapsed + dt) as u32
            },
            ..self
        }
    }

    /// The displacement of the projectile in a frame of `dt` milliseconds.
    pub open spec fn step(self, dt: u16) -> (int, int) {
        (self.movement[0] * dt, self.movement[1] * dt)
    }

    pub fn new(duration: u32, movement: [i64; 2]) -> (a: Attack)
        ensures
            a == (Attack { duration, elapsed: 0, movement }),
    {
        Attack { duration, elapsed: 0, movement }
    }

    /// Lets `dt` milliseconds pass, and tells whether the projectile has died.
    pub fn advance(&mut self, dt: u16) -> (dead: bool)
        ensures
            *final(self) == old(self).aged(dt),
            dead == final(self).expired(),
    {
        self.elapsed = self.elapsed.saturating_add(dt as u32);
        self.elapsed >= self.duration
    }

    pub fn is_expired(&self) -> (dead: bool)
        ensures
            dead == self.expired(),
    {
        self.elapsed >= self.duration
    }

    /// The displacement of the projectile in a frame of `dt` milliseconds.
    pub fn velocity(&self, dt: u16) -> (v: [i64; 2])
        requires
            self.wf(),
        ensures
            v[0] == self.step(dt).0,
            v[1] == self.step(dt).1,
            is_step(v[0] as int),
            is_step(v[1] as int),
    {
        let t: i64 = dt as i64;
        let mx: i64 = self.movement[0];
        let my: i64 = self.movement[1];
        assert(-15_000_000_000 * 65_535 <= mx * t <= 15_000_000_000 * 65_535) by (nonlinear_arith)
            requires
                -15_000_000_000 <= mx <= 15_000_000_000,
                0 <= t <= 65_535,
        ;
        assert(-15_000_000_000 * 65_535 <= my * t <= 15_000_000_000 * 65_535) by (nonlinear_arith)
            requires
                -15_000_000_000 <= my <= 15_000_000_000,
                0 <= t <= 65_535,
        ;
        [mx * t, my * t]
    }
}

/// The sum of the lengths of some frames.
pub open spec fn total_time(frames: Seq<u16>) -> int
    decreases frames.len(),
{
    if frames.len() == 0 {
        0
    } else {
        total_time(frames.drop_last()) + frames.last()
    }
}

/// A projectile after a run of frames.
pub open spec fn aged_through(a: Attack, frames: Seq<u16>) -> Attack
    decreases frames.len(),
{
    if frames.len() == 0 {
        a
    } else {
        aged_through(a, frames.drop_last()).aged(frames.last())
    }
}

/// A new projectile has died after a run of frames exactly if the frames add
/// up to its duration or more.
pub proof fn lemma_attack_lifetime(a: Attack, frames: Seq<u16>)
    requires
        a.elapsed == 0,
    ensures
        aged_through(a, frames).expired() <==> total_time(frames) >= a.duration,
        aged_through(a, frames).duration == a.duration,
        aged_through(a, frames).elapsed == (if total_time(frames) > u32::MAX {
            u32::MAX as int
        } else {
            total_time(frames)
        }),
    decreases frames.len(),
{
    if frames.len() > 0 {
        lemma_attack_lifetime(a, frames.drop_last());
    }
}

/// The wish of an entity to fire: set by whoever steers the entity, cleared
/// by the spawner that answers it.
#[derive(Clone, Copy, Debug, Default, PartialEq, Eq)]
pub struct AttackMaker {
    pub fire: bool,
}

impl AttackMaker {
    pub fn get_fire_condition(&self) -> (fire: bool)
        ensures
            fire == self.fire,
    {
        self.fire
    }

    pub fn set_fire(&mut self)
        ensures
            final(self).fire,
    {
        self.fire = true;
    }

    pub fn fire_finished(&mut self)
        ensures
            !final(self).fire,
    {
        self.fire = false;
    }
}

} // verus!
