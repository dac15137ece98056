//! The animation of a sprite: which sequence it plays and how far it has got.

use vstd::prelude::*;
use crate::components::direction::Direction;
use crate::resources::animation_data_handler::AnimationSet;

verus! {

/// The speed scale at which a sequence plays at its own durations.
pub const SCALE_ONE: u32 = 1_000;

/// The speed, in sub-units per millisecond, of a character whose sequences
/// play at their own durations.
pub const REFERENCE_SPEED: u32 = 5_000;

/// No animation has waited longer than this in one frame of its sequence.
pub const ELAPSED_MAX: u64 = 0x4000_0000_0000_0000;

/// The state of an animation. `table` is the place of the character's set of
/// sequences, of which `current_sequence` plays and shows its frame
/// `current_frame`, for `elapsed_in_frame` milliseconds by now. A frame lasts
/// for the duration of the sequence times `speed_scale`, which is in
/// thousandths. While `loop_lock` holds the sequence plays once, cannot be
/// replaced, and gives way to `resume_sequence` when it ends.
#[derive(Clone, Copy, Debug, PartialEq, Eq)]
pub struct Animation {
    pub table: usize,
    pub current_sequence: usize,
    pub current_frame: usize,
    pub elapsed_in_frame: u64,
    pub speed_scale: u32,
    pub loop_lock: bool,
    pub resume_sequence: usize,
    pub facing: Direction,
}

/// The speed scale of a character of a speed: a character twice as fast as
/// the reference plays its sequences in half the time.
pub open spec fn scale_of(speed: u32) -> u32 {
    (REFERENCE_SPEED * SCALE_ONE / speed as int) as u32
}

pub fn speed_scale(speed: u32) -> (scale: u32)
    requires
        speed >= 1,
    ensures
        scale == scale_of(speed),
        scale == REFERENCE_SPEED * SCALE_ONE / speed as int,
{
    assert(5_000_000int / speed as int <= 5_000_000) by (nonlinear_arith)
        requires
            speed >= 1,
    ;
    assert(0 <= 5_000_000int / speed as int) by (nonlinear_arith)
        requires
            speed >= 1,
    ;
    REFERENCE_SPEED * SCALE_ONE / speed
}

impl Animation {
    /// The sequences and the frame that the state names exist in `set`.
    pub open spec fn wf(self, set: AnimationSet) -> bool {
        &&& set.wf()
        &&& self.current_sequence < set.sequences.len()
        &&& self.resume_sequence < set.sequences.len()
        &&& self.current_frame < set.sequences[self.current_sequence as int].frames.len()
        &&& self.elapsed_in_frame <= ELAPSED_MAX
    }

    /// The atlas cell that the animation shows.
    pub open spec fn cell(self, set: AnimationSet) -> [u8; 2] {
        set.sequences[self.current_sequence as int].frames[self.current_frame as int]
    }

    /// Whether the frame has been shown for its time, `dt` milliseconds on.
    pub open spec fn frame_over(self, dt: u16, set: AnimationSet) -> bool {
        (self.elapsed_in_frame + dt) * SCALE_ONE >= set.sequences[self.current_sequence as int].frame_duration()
            * self.speed_scale
    }

    /// The state after `dt` more milliseconds. Where the frame is over, the
    /// next one begins; after the last frame the sequence starts again, or,
    /// under a lock, gives way to the sequence to resume, which ends the lock.
    pub open spec fn advanced(self, dt: u16, set: AnimationSet) -> Animation {
        if !self.frame_over(dt, set) {
            Animation { elapsed_in_frame: (self.elapsed_in_frame + dt) as u64, ..self }
        } else if self.current_frame + 1 < set.sequences[self.current_sequence as int].frames.len() {
            Animation {
                elapsed_in_frame: 0,
                current_frame: (self.current_frame + 1) as usize,
                ..self
            }
        } else if self.loop_lock {
            Animation {
                elapsed_in_frame: 0,
                current_frame: 0,
                current_sequence: self.resume_sequence,
                loop_lock: false,
                ..self
            }
        } else {
            Animation { elapsed_in_frame: 0, current_frame: 0, ..self }
        }
    }

    /// The state after a request for sequence `id`. Nothing changes where
    /// that sequence plays already, or a lock holds. Else the sequence
    /// starts at its first frame; a request with `lock` notes the sequence
    /// that played until now as the one to resume.
    pub open spec fn with_sequence(self, id: usize, lock: bool) -> Animation {
        if id == self.current_sequence || self.loop_lock {
            self
        } else {
            Animation {
                resume_sequence: if lock {
                    self.current_sequence
                } else {
                    self.resume_sequence
                },
                current_sequence: id,
                current_frame: 0,
                loop_lock: lock,
                ..self
            }
        }
    }

    /// The state after a turn to `facing`: where the facing changes, the
    /// sequence starts again at its first frame.
    pub open spec fn with_facing(self, facing: Direction) -> Animation {
        if facing == self.facing {
            self
        } else {
            Animation { facing, current_frame: 0, ..self }
        }
    }

    /// An animation at the first frame of the first sequence of a set, due
    /// to step at once.
    pub fn new(table: usize, facing: Direction) -> (a: Animation)
        ensures
            a == (Animation {
                table,
                current_sequence: 0,
                current_frame: 0,
                elapsed_in_frame: 99_000,
                speed_scale: SCALE_ONE,
                loop_lock: false,
                resume_sequence: 0,
                facing,
            }),
            forall|set: AnimationSet| set.wf() ==> a.wf(set),
    {
        Animation {
            table,
            current_sequence: 0,
            current_frame: 0,
            elapsed_in_frame: 99_000,
            speed_scale: SCALE_ONE,
            loop_lock: false,
            resume_sequence: 0,
            facing,
        }
    }

    /// Lets `dt` milliseconds pass.
    pub fn advance(&mut self, dt: u16, set: &AnimationSet)
        requires
            old(self).wf(*set),
        ensures
            *final(self) == old(self).advanced(dt, *set),
            final(self).wf(*set),
    {
        let sequence = &set.sequences[self.current_sequence];
        let elapsed: u64 = self.elapsed_in_frame + dt as u64;
        let duration: u64 = sequence.get_frame_duration() as u64;
        let scale: u64 = self.speed_scale as u64;
        assert(duration * scale <= 0xffff_ffff * 0xffff_ffff) by (nonlinear_arith)
            requires
                0 <= duration <= 0xffff_ffff,
                0 <= scale <= 0xffff_ffff,
        ;
        if elapsed as u128 * (SCALE_ONE as u128) < (duration * scale) as u128 {
            self.elapsed_in_frame = elapsed;
        } else {
            self.elapsed_in_frame = 0;
            if self.current_frame + 1 < sequence.len() {
                self.current_frame = self.current_frame + 1;
            } else {
                self.current_frame = 0;
                if self.loop_lock {
                    self.current_sequence = self.resume_sequence;
                    self.loop_lock = false;
                }
            }
        }
    }

    /// Asks for sequence `id`, to play once if `lock` is set.
    pub fn change_sequence(&mut self, id: usize, lock: bool, set: &AnimationSet)
        requires
            old(self).wf(*set),
            id < set.sequences.len(),
        ensures
            *final(self) == old(self).with_sequence(id, lock),
            final(self).wf(*set),
    {
        if id != self.current_sequence && !self.loop_lock {
            if lock {
                self.resume_sequence = self.current_sequence;
            }
            self.current_sequence = id;
            self.current_frame = 0;
            self.loop_lock = lock;
        }
    }

    /// Turns the sprite to `facing`.
    pub fn change_facing(&mut self, facing: Direction)
        ensures
            *final(self) == old(self).with_facing(facing),
            forall|set: AnimationSet| old(self).wf(set) ==> final(self).wf(set),
    {
        if facing != self.facing {
            self.facing = facing;
            self.current_frame = 0;
        }
    }

    /// The atlas cell that the animation shows.
    pub fn get_cell(&self, set: &AnimationSet) -> (cell: [u8; 2])
        requires
            self.wf(*set),
        ensures
            cell == self.cell(*set),
    {
        set.sequences[self.current_sequence].frames[self.current_frame]
    }
}

/// The state after `n` frames of `dt` milliseconds each.
pub open spec fn advanced_by(a: Animation, dt: u16, set: AnimationSet, n: nat) -> Animation
    decreases n,
{
    if n == 0 {
        a
    } else {
        advanced_by(a.advanced(dt, set), dt, set, (n - 1) as nat)
    }
}

/// Whether a frame of `dt` milliseconds is long enough for a sequence to
/// step at a speed scale, whatever time it has waited.
pub open spec fn steps_each_frame(set: AnimationSet, sequence: int, scale: u32, dt: u16) -> bool {
    dt * SCALE_ONE >= set.sequences[sequence].frame_duration() * scale
}

/// To let `m + n` frames pass is to let `m` pass and then `n`.
pub proof fn lemma_advanced_by_split(a: Animation, dt: u16, set: AnimationSet, m: nat, n: nat)
    ensures
        advanced_by(a, dt, set, m + n) == advanced_by(advanced_by(a, dt, set, m), dt, set, n),
    decreases m,
{
    if m > 0 {
        lemma_advanced_by_split(a.advanced(dt, set), dt, set, (m - 1) as nat, n);
        assert(m + n - 1 == (m - 1) as nat + n);
    }
}

/// Where every frame steps and the sequence has `k` frames left after the
/// one shown, `k` frames on it shows the frame `k` places further.
pub proof fn lemma_advanced_within(a: Animation, dt: u16, set: AnimationSet, k: nat)
    requires
        a.wf(set),
        k > 0 ==> steps_each_frame(set, a.current_sequence as int, a.speed_scale, dt),
        a.current_frame + k < set.sequences[a.current_sequence as int].frames.len(),
    ensures
        advanced_by(a, dt, set, k) == (if k == 0 {
            a
        } else {
            Animation { current_frame: (a.current_frame + k) as usize, elapsed_in_frame: 0, ..a }
        }),
    decreases k,
{
    if k > 0 {
        let d = set.sequences[a.current_sequence as int].frame_duration();
        assert((a.elapsed_in_frame + dt) * SCALE_ONE >= dt * SCALE_ONE);
        assert(a.frame_over(dt, set));
        let b = a.advanced(dt, set);
        assert(b == Animation {
            current_frame: (a.current_frame + 1) as usize,
            elapsed_in_frame: 0,
            ..a
        });
        lemma_advanced_within(b, dt, set, (k - 1) as nat);
    }
}

/// Wraparound. Let a sequence of `n` frames play, and let every frame of
/// `dt` milliseconds be long enough for it to step. Then `n` frames on the
/// animation shows the frame that it showed at first. Without a lock it
/// still plays the same sequence; under a lock it plays the sequence to
/// resume, and the lock has ended. Under a lock this asks that the animation
/// starts at the first frame, or that the sequence to resume has more frames
/// than the number of the frame shown and steps every frame too.
pub proof fn lemma_wraparound(a: Animation, dt: u16, set: AnimationSet)
    requires
        a.wf(set),
        steps_each_frame(set, a.current_sequence as int, a.speed_scale, dt),
        a.loop_lock && a.current_frame > 0 ==> a.current_frame < set.sequences[a.resume_sequence as int].frames.len()
            && steps_each_frame(set, a.resume_sequence as int, a.speed_scale, dt),
    ensures
        ({
            let n = set.sequences[a.current_sequence as int].frames@.len();
            let b = advanced_by(a, dt, set, n);
            &&& b.current_frame == a.current_frame
            &&& b.current_sequence == (if a.loop_lock {
                a.resume_sequence
            } else {
                a.current_sequence
            })
            &&& !b.loop_lock
            &&& b.wf(set)
        }),
{
    let n = set.sequences[a.current_sequence as int].frames@.len();
    let first = a.current_frame as nat;
    let rest = (n - 1 - first) as nat;
    lemma_advanced_within(a, dt, set, rest);
    let last = advanced_by(a, dt, set, rest);
    assert(last.current_frame == n - 1);
    assert((last.elapsed_in_frame + dt) * SCALE_ONE >= dt * SCALE_ONE);
    assert(last.frame_over(dt, set));
    let wrapped = last.advanced(dt, set);
    assert(advanced_by(last, dt, set, 1) == wrapped) by {
        assert(advanced_by(wrapped, dt, set, 0) == wrapped);
    }
    lemma_advanced_by_split(a, dt, set, rest, 1);
    lemma_advanced_within(wrapped, dt, set, first);
    lemma_advanced_by_split(a, dt, set, rest + 1, first);
    assert(rest + 1 + first == n);
}

/// A sequence asked for with a lock plays once and gives way to the
/// sequence that played before: where every frame is long enough for the
/// new sequence to step, the animation plays the earlier sequence again, at
/// its first frame and without a lock, as many frames on as the new sequence
/// has.
pub proof fn lemma_one_shot_resumes(a: Animation, id: usize, dt: u16, set: AnimationSet)
    requires
        a.wf(set),
        !a.loop_lock,
        id < set.sequences.len(),
        id != a.current_sequence,
        steps_each_frame(set, id as int, a.speed_scale, dt),
    ensures
        ({
            let b = advanced_by(
                a.with_sequence(id, true),
                dt,
                set,
                set.sequences[id as int].frames@.len(),
            );
            &&& b.current_sequence == a.current_sequence
            &&& b.current_frame == 0
            &&& !b.loop_lock
        }),
{
    lemma_wraparound(a.with_sequence(id, true), dt, set);
}

} // verus!
