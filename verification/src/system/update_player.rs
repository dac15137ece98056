//! Steering of the player's character by the keys that are held.

use vstd::prelude::*;
use crate::components::animation::{scale_of, speed_scale, Animation};
use crate::components::attack::AttackMaker;
use crate::components::collider::{convert_velocity, isometric, lemma_isometric_shrinks, Collider};
use crate::components::direction::{check_direction, Direction};
use crate::components::transform::Transform;
use crate::resources::animation_data_handler::AnimationDataHandler;
use crate::resources::delta_time::DeltaTime;
use crate::resources::input_handler::InputHandler;
use crate::units::is_step;
use crate::world::{all_have_room, records_wf, Record, PLAYER_SEQUENCE_ATTACK, SEQUENCE_IDLE, SEQUENCE_MOVE};

verus! {

/// Turns the held keys into the facing, the animation and the velocity of
/// the player's character, and into its wish to fire.
pub struct UpdatePlayer;

/// The movement that the held keys ask for in a frame of `dt` milliseconds,
/// at a speed: opposite keys cancel.
pub open spec fn wish(input: InputHandler, speed: u32, dt: u16) -> (int, int) {
    let s = speed * dt;
    (
        (if input.right {
            s
        } else {
            0
        }) - (if input.left {
            s
        } else {
            0
        }),
        (if input.up {
            s
        } else {
            0
        }) - (if input.down {
            s
        } else {
            0
        }),
    )
}

/// The sequence that the held keys ask for: the attack if its key is held,
/// else the move if a key that steers is held, else rest.
pub open spec fn wished_sequence(input: InputHandler) -> usize {
    if input.attack1 {
        PLAYER_SEQUENCE_ATTACK
    } else if input.up || input.down || input.left || input.right {
        SEQUENCE_MOVE
    } else {
        SEQUENCE_IDLE
    }
}

/// The wished movement, and so the isometric one, is a displacement that one
/// frame can produce.
pub proof fn lemma_wish_is_step(input: InputHandler, speed: u32, dt: u16)
    ensures
        is_step(wish(input, speed, dt).0),
        is_step(wish(input, speed, dt).1),
        is_step(isometric(wish(input, speed, dt).0, wish(input, speed, dt).1).0),
        is_step(isometric(wish(input, speed, dt).0, wish(input, speed, dt).1).1),
{
    assert(0 <= speed * dt <= 0xffff_ffff * 0xffff) by (nonlinear_arith)
        requires
            0 <= speed <= 0xffff_ffff,
            0 <= dt <= 0xffff,
    ;
    lemma_isometric_shrinks(wish(input, speed, dt).0, wish(input, speed, dt).1);
}

impl UpdatePlayer {
    /// Whether the system steers the entity: it is a player's character with
    /// a place, a body, an animation and the means to fire.
    pub open spec fn steers(r: Record) -> bool {
        r.player is Some && r.attack_maker is Some && r.collider is Some && r.animation is Some
            && r.transform is Some
    }

    /// The entity after the system has run on it. An entity that the system
    /// does not steer, or whose animation is under a lock, is left as it is.
    /// Else the character turns into the direction of the wished movement,
    /// if that has one; its animation takes the speed scale of its speed;
    /// with the attack key held it stops, sets its wish to fire and starts
    /// the attack sequence under a lock; else its velocity is the wished
    /// movement, made isometric, and its sequence the move or rest.
    pub open spec fn updated(r: Record, input: InputHandler, dt: u16) -> Record {
        if !Self::steers(r) || r.animation.unwrap().loop_lock {
            r
        } else {
            let p = r.player.unwrap();
            let t = r.transform.unwrap();
            let c = r.collider.unwrap();
            let a = r.animation.unwrap();
            let w = wish(input, p.speed, dt);
            let direction = Direction::of_step(w.0, w.1);
            let turned = if direction is Still {
                a
            } else {
                a.with_facing(direction)
            };
            let scaled = Animation { speed_scale: scale_of(p.speed), ..turned };
            let v = if input.attack1 {
                (0, 0)
            } else {
                isometric(w.0, w.1)
            };
            Record {
                transform: Some(
                    if direction is Still {
                        t
                    } else {
                        Transform { direction, ..t }
                    },
                ),
                animation: Some(scaled.with_sequence(wished_sequence(input), input.attack1)),
                collider: Some(Collider { velocity: [v.0 as i64, v.1 as i64], ..c }),
                attack_maker: if input.attack1 {
                    Some(AttackMaker { fire: true })
                } else {
                    r.attack_maker
                },
                ..r
            }
        }
    }

    /// The movement that the held keys ask for.
    pub fn wished_movement(input: &InputHandler, speed: u32, dt: u16) -> (m: [i64; 2])
        ensures
            m[0] == wish(*input, speed, dt).0,
            m[1] == wish(*input, speed, dt).1,
    {
        let speed: i64 = speed as i64;
        let frame: i64 = dt as i64;
        assert(0 <= speed * frame <= 0xffff_ffff * 0xffff) by (nonlinear_arith)
            requires
                0 <= speed <= 0xffff_ffff,
                0 <= frame <= 0xffff,
        ;
        let s: i64 = speed * frame;
        let right: i64 = if input.right {
            s
        } else {
            0
        };
        let left: i64 = if input.left {
            s
        } else {
            0
        };
        let up: i64 = if input.up {
            s
        } else {
            0
        };
        let down: i64 = if input.down {
            s
        } else {
            0
        };
        [right - left, up - down]
    }

    /// The sequence that the held keys ask for.
    pub fn wished(input: &InputHandler) -> (sequence: usize)
        ensures
            sequence == wished_sequence(*input),
    {
        if input.attack1 {
            PLAYER_SEQUENCE_ATTACK
        } else if input.up || input.down || input.left || input.right {
            SEQUENCE_MOVE
        } else {
            SEQUENCE_IDLE
        }
    }

    /// Runs the system on one entity.
    pub fn update(r: &mut Record, input: &InputHandler, dt: u16, animations: &AnimationDataHandler)
        requires
            old(r).wf(*animations),
        ensures
            *final(r) == Self::updated(*old(r), *input, dt),
            final(r).wf(*animations),
    {
        match (r.player, r.attack_maker, r.collider, r.animation, r.transform) {
            (Some(p), Some(maker), Some(collider), Some(animation), Some(transform)) => {
                if animation.loop_lock {
                    return ;
                }
                let mut maker = maker;
                let mut collider = collider;
                let mut animation = animation;
                let mut transform = transform;
                let set = &animations.sets[animation.table];
                let movement = Self::wished_movement(input, p.speed, dt);
                let direction = check_direction(movement);
                if direction != Direction::Still {
                    transform.direction = direction;
                    animation.change_facing(direction);
                }
                animation.speed_scale = speed_scale(p.speed);
                if input.attack1 {
                    maker.set_fire();
                    collider.velocity = [0, 0];
                } else {
                    collider.velocity = convert_velocity(movement);
                    proof {
                        lemma_wish_is_step(*input, p.speed, dt);
                    }
                }
                animation.change_sequence(Self::wished(input), input.attack1, set);
                r.attack_maker = Some(maker);
                r.collider = Some(collider);
                r.animation = Some(animation);
                r.transform = Some(transform);
                proof {
                    let u = Self::updated(*old(r), *input, dt);
                    assert(r.collider.unwrap().velocity =~= u.collider.unwrap().velocity);
                }
            },
            _ => {},
        }
    }

    /// Runs the system on every entity.
    pub fn run(
        &self,
        records: &mut Vec<Record>,
        input: &InputHandler,
        dt: DeltaTime,
        animations: &AnimationDataHandler,
    )
        requires
            forall|i: int| 0 <= i < old(records).len() ==> (#[trigger] old(records)[i]).wf(*animations),
        ensures
            final(records)@ == old(records)@.map_values(|r: Record| Self::updated(r, *input, dt.0)),
            forall|n: u64|
                records_wf(old(records)@, n, *animations) ==> records_wf(final(records)@, n, *animations),
            all_have_room(old(records)@) ==> all_have_room(final(records)@),
    {
        let count = records.len();
        let mut i: usize = 0;
        while i < count
            invariant
                0 <= i <= count,
                records.len() == count,
                old(records).len() == count,
                forall|j: int|
                    0 <= j < i ==> #[trigger] records[j] == Self::updated(old(records)[j], *input, dt.0),
                forall|j: int| i <= j < count ==> #[trigger] records[j] == old(records)[j],
                forall|j: int| 0 <= j < count ==> (#[trigger] records[j]).wf(*animations),
            decreases count - i,
        {
            Self::update(&mut records[i], input, dt.0, animations);
            i += 1;
        }
        assert(records@ =~= old(records)@.map_values(|r: Record| Self::updated(r, *input, dt.0)));
    }
}

} // verus!
