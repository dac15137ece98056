//! The enemies: where they turn, and when they chase or strike.

use vstd::prelude::*;
use crate::components::animation::{scale_of, speed_scale, Animation};
use crate::components::collider::{convert_velocity, isometric, lemma_isometric_shrinks, Collider};
use crate::components::direction::{direction_to_f32_array, Direction};
use crate::components::enemy::{Enemy, RETARGET_NOW};
use crate::components::transform::Transform;
use crate::resources::animation_data_handler::AnimationDataHandler;
use crate::resources::center::Center;
use crate::resources::delta_time::DeltaTime;
use crate::units::{abs, directed, is_step};
use crate::world::{all_have_room, records_wf, Record, ENEMY_SEQUENCE_ATTACK, SEQUENCE_IDLE, SEQUENCE_MOVE};

verus! {

/// Lets the enemies look for the player from time to time, and sets their
/// facing, animation and velocity by what they find.
pub struct UpdateEnemy;

/// The tangent of 22.5 degrees is `TAN_FLAT / TAN_DEN`, that of 67.5 degrees
/// `TAN_STEEP / TAN_DEN`, both to eight decimal places.
pub const TAN_DEN: i64 = 100_000_000;

pub const TAN_FLAT: i64 = 41_421_356;

pub const TAN_STEEP: i64 = 241_421_356;

/// An enemy closer to the player than this, squared, strikes: the square of
/// the distance is below two square units.
pub const MELEE_RANGE: i128 = 2_000_000_000_000;

/// An enemy closer to the player than this, squared, gives chase: the square
/// of the distance is below ninety square units.
pub const AGGRO_RANGE: i128 = 90_000_000_000_000;

/// Whether a vector is steep: its slope is `TAN_STEEP / TAN_DEN` or more.
pub open spec fn is_steep(dx: int, dy: int) -> bool {
    abs(dy) * TAN_DEN >= TAN_STEEP * abs(dx)
}

/// Whether a vector is flat: its slope is below `TAN_FLAT / TAN_DEN`.
pub open spec fn is_flat(dx: int, dy: int) -> bool {
    abs(dy) * TAN_DEN < TAN_FLAT * abs(dx)
}

/// The compass direction of a vector. A steep vector points up or down, a
/// flat one right or left, any other along the diagonal of its quadrant;
/// the vector of no length has the direction `Still`.
pub open spec fn direction_of(dx: int, dy: int) -> Direction {
    if dx == 0 && dy == 0 {
        Direction::Still
    } else if is_steep(dx, dy) {
        if dy > 0 {
            Direction::Up
        } else {
            Direction::Down
        }
    } else if !is_flat(dx, dy) {
        if dx > 0 {
            if dy > 0 {
                Direction::UpRight
            } else {
                Direction::DownRight
            }
        } else {
            if dy > 0 {
                Direction::UpLeft
            } else {
                Direction::DownLeft
            }
        }
    } else {
        if dx > 0 {
            Direction::Right
        } else {
            Direction::Left
        }
    }
}

/// Totality: every vector but the one of no length has one of the eight
/// compass directions.
pub proof fn lemma_direction_total(dx: int, dy: int)
    requires
        dx != 0 || dy != 0,
    ensures
        !(direction_of(dx, dy) is Still),
        0 <= direction_of(dx, dy).spec_index() < 8,
{
}

/// Whether a vector lies on a seam between two sectors. The two thresholds
/// are rounded, so that an eighth of a turn does not carry the one exactly
/// onto the other: between them lie slivers, a few billionths of slope wide,
/// whose vectors do not change sector as their neighbours do.
pub open spec fn on_seam(dx: int, dy: int) -> bool {
    let sum = abs(dx) + abs(dy);
    let gap = abs(abs(dx) - abs(dy));
    let steep = is_steep(dx, dy);
    let diagonal = !steep && !is_flat(dx, dy);
    if dx == 0 || dy == 0 {
        false
    } else if (dx > 0) == (dy > 0) {
        diagonal && gap * TAN_DEN >= TAN_FLAT * sum
    } else {
        (diagonal && sum * TAN_DEN < TAN_STEEP * gap) || (steep && sum * TAN_DEN >= TAN_STEEP * gap)
    }
}

/// Rotation. Turning a vector clockwise by an eighth of a turn, which
/// `(dx + dy, dy - dx)` does while stretching it, carries its direction one
/// place on in the clockwise round, for every vector that is off the seams,
/// and for no vector on them.
pub proof fn lemma_rotation_advances(dx: int, dy: int)
    requires
        dx != 0 || dy != 0,
    ensures
        !on_seam(dx, dy) <==> direction_of(dx + dy, dy - dx) == direction_of(dx, dy).clockwise(),
{
    let a = abs(dx);
    let b = abs(dy);
    assert(Direction::at(1) == Direction::UpLeft);
    assert(Direction::at(2) == Direction::Up);
    assert(Direction::at(3) == Direction::UpRight);
    assert(Direction::at(4) == Direction::Right);
    assert(Direction::at(5) == Direction::DownRight);
    assert(Direction::at(6) == Direction::Down);
    assert(Direction::at(7) == Direction::DownLeft);
    assert(Direction::at(8) == Direction::Left);
    if dx > 0 && dy > 0 {
        assert(abs(dx + dy) == a + b);
        assert(abs(dy - dx) == abs(a - b));
    } else if dx < 0 && dy < 0 {
        assert(abs(dx + dy) == a + b);
        assert(abs(dy - dx) == abs(a - b));
    } else if dx > 0 && dy < 0 {
        assert(abs(dy - dx) == a + b);
        assert(abs(dx + dy) == abs(a - b));
    } else if dx < 0 && dy > 0 {
        assert(abs(dy - dx) == a + b);
        assert(abs(dx + dy) == abs(a - b));
    }
}

/// A vector and its double have one direction.
pub proof fn lemma_direction_of_double(dx: int, dy: int)
    ensures
        direction_of(2 * dx, 2 * dy) == direction_of(dx, dy),
{
    assert(abs(2 * dx) == 2 * abs(dx));
    assert(abs(2 * dy) == 2 * abs(dy));
}

/// Rotation the other way. Turning a vector counter-clockwise by an eighth
/// of a turn, which `(dx - dy, dx + dy)` does while stretching it, carries
/// its direction one place back in the clockwise round, for every vector
/// whose turn is off the seams, and for no other.
pub proof fn lemma_rotation_retreats(dx: int, dy: int)
    requires
        dx != 0 || dy != 0,
    ensures
        !on_seam(dx - dy, dx + dy) <==> direction_of(dx - dy, dx + dy).clockwise() == direction_of(dx, dy),
{
    lemma_rotation_advances(dx - dy, dx + dy);
    lemma_direction_of_double(dx, dy);
    assert((dx - dy) + (dx + dy) == 2 * dx);
    assert((dx + dy) - (dx - dy) == 2 * dy);
}

/// The direction in which `target_pos` lies as seen from `self_pos`.
pub fn compute_direction(self_pos: [i64; 2], target_pos: [i64; 2]) -> (dir: Direction)
    ensures
        dir == direction_of(target_pos[0] - self_pos[0], target_pos[1] - self_pos[1]),
        dir is Still <==> self_pos[0] == target_pos[0] && self_pos[1] == target_pos[1],
{
    let dx: i128 = target_pos[0] as i128 - self_pos[0] as i128;
    let dy: i128 = target_pos[1] as i128 - self_pos[1] as i128;
    let ax: i128 = if dx < 0 {
        -dx
    } else {
        dx
    };
    let ay: i128 = if dy < 0 {
        -dy
    } else {
        dy
    };
    if dx == 0 && dy == 0 {
        Direction::Still
    } else if ay * (TAN_DEN as i128) >= (TAN_STEEP as i128) * ax {
        if dy > 0 {
            Direction::Up
        } else {
            Direction::Down
        }
    } else if ay * (TAN_DEN as i128) >= (TAN_FLAT as i128) * ax {
        if dx > 0 {
            if dy > 0 {
                Direction::UpRight
            } else {
                Direction::DownRight
            }
        } else {
            if dy > 0 {
                Direction::UpLeft
            } else {
                Direction::DownLeft
            }
        }
    } else {
        if dx > 0 {
            Direction::Right
        } else {
            Direction::Left
        }
    }
}

/// The square of the distance between two points.
pub open spec fn distance_squared(ax: int, ay: int, bx: int, by: int) -> int {
    (bx - ax) * (bx - ax) + (by - ay) * (by - ay)
}

/// What an enemy does at a squared distance from the player: close by it
/// strikes, within sight it gives chase, else it rests. The answer is the
/// sequence that its animation plays.
pub open spec fn tier(d2: int) -> usize {
    if d2 < MELEE_RANGE {
        ENEMY_SEQUENCE_ATTACK
    } else if d2 < AGGRO_RANGE {
        SEQUENCE_MOVE
    } else {
        SEQUENCE_IDLE
    }
}

/// The displacement of a character that walks for `dt` milliseconds at a
/// speed in the direction it faces, as it appears on the isometric grid.
pub open spec fn walk(facing: Direction, speed: u32, dt: u16) -> (int, int) {
    isometric(directed(facing.signs().0, speed * dt), directed(facing.signs().1, speed * dt))
}

/// A walk is a displacement that one frame can produce.
pub proof fn lemma_walk_is_step(facing: Direction, speed: u32, dt: u16)
    ensures
        is_step(walk(facing, speed, dt).0),
        is_step(walk(facing, speed, dt).1),
{
    assert(0 <= speed * dt <= 0xffff_ffff * 0xffff) by (nonlinear_arith)
        requires
            0 <= speed <= 0xffff_ffff,
            0 <= dt <= 0xffff,
    ;
    lemma_isometric_shrinks(
        directed(facing.signs().0, speed * dt),
        directed(facing.signs().1, speed * dt),
    );
}

impl UpdateEnemy {
    /// Whether the system steers the entity: it is an enemy with a place, a
    /// body and an animation.
    pub open spec fn steers(r: Record) -> bool {
        r.enemy is Some && r.transform is Some && r.collider is Some && r.animation is Some
    }

    /// The sequence that an enemy at a place plays when it has looked for
    /// the player.
    pub open spec fn tier_at(t: Transform, center: Center) -> usize {
        tier(distance_squared(t.position[0] as int, t.position[1] as int, center.0 as int, center.1 as int))
    }

    /// An enemy that the system steers, after it has looked for the player.
    /// It takes up the sequence of what it does now, and with a new sequence
    /// the speed scale of its speed; if it strikes, its animation is under a
    /// lock from now on, whether or not the sequence is new; unless it
    /// rests, it turns to where the player is.
    pub open spec fn retargeted(r: Record, center: Center) -> Record {
        let e = r.enemy.unwrap();
        let t = r.transform.unwrap();
        let a = r.animation.unwrap();
        let sequence = Self::tier_at(t, center);
        let played = if sequence != a.current_sequence {
            Animation {
                speed_scale: scale_of(e.speed),
                ..a.with_sequence(sequence, sequence == ENEMY_SEQUENCE_ATTACK)
            }
        } else {
            a
        };
        let struck = if sequence == ENEMY_SEQUENCE_ATTACK {
            Animation { loop_lock: true, ..played }
        } else {
            played
        };
        let direction = direction_of(center.0 - t.position[0], center.1 - t.position[1]);
        if sequence != SEQUENCE_IDLE && !(direction is Still) {
            Record {
                transform: Some(Transform { direction, ..t }),
                animation: Some(struck.with_facing(direction)),
                ..r
            }
        } else {
            Record { animation: Some(struck), ..r }
        }
    }

    /// An enemy that the system steers and that is under no lock, with the
    /// velocity of what it does: it walks where it faces if it gives chase,
    /// and stands if it does not.
    pub open spec fn driven(r: Record, dt: u16) -> Record {
        let v = if r.animation.unwrap().current_sequence != SEQUENCE_MOVE {
            (0, 0)
        } else {
            walk(r.transform.unwrap().direction, r.enemy.unwrap().speed, dt)
        };
        Record { collider: Some(Collider { velocity: [v.0 as i64, v.1 as i64], ..r.collider.unwrap() }), ..r }
    }

    /// The entity after the system has run on it. An entity that the system
    /// does not steer is left as it is. An enemy whose animation is under a
    /// lock only has its timer set so that it looks for the player as soon
    /// as the lock ends. Any other enemy lets the frame pass on its timer;
    /// if it is due, it looks for the player and starts its timer again; at
    /// last it takes the velocity of what it does.
    pub open spec fn updated(r: Record, center: Center, dt: u16) -> Record {
        if !Self::steers(r) {
            r
        } else if r.animation.unwrap().loop_lock {
            Record { enemy: Some(Enemy { tick: RETARGET_NOW, ..r.enemy.unwrap() }), ..r }
        } else {
            let e = r.enemy.unwrap();
            if e.due(dt) {
                Self::driven(
                    Self::retargeted(Record { enemy: Some(Enemy { tick: 0, ..e }), ..r }, center),
                    dt,
                )
            } else {
                Self::driven(Record { enemy: Some(Enemy { tick: (e.tick + dt) as u32, ..e }), ..r }, dt)
            }
        }
    }

    /// The sequence that an enemy at a place plays when it has looked for
    /// the player.
    pub fn get_tier(t: &Transform, center: &Center) -> (sequence: usize)
        ensures
            sequence == Self::tier_at(*t, *center),
    {
        let dx: i128 = center.0 as i128 - t.position[0] as i128;
        let dy: i128 = center.1 as i128 - t.position[1] as i128;
        if dx <= -10_000_000 || dx >= 10_000_000 || dy <= -10_000_000 || dy >= 10_000_000 {
            assert(dx * dx + dy * dy >= 100_000_000_000_000) by (nonlinear_arith)
                requires
                    dx <= -10_000_000 || dx >= 10_000_000 || dy <= -10_000_000 || dy >= 10_000_000,
            ;
            return SEQUENCE_IDLE;
        }
        assert(0 <= dx * dx <= 100_000_000_000_000) by (nonlinear_arith)
            requires
                -10_000_000 < dx < 10_000_000,
        ;
        assert(0 <= dy * dy <= 100_000_000_000_000) by (nonlinear_arith)
            requires
                -10_000_000 < dy < 10_000_000,
        ;
        let d2: i128 = dx * dx + dy * dy;
        if d2 < MELEE_RANGE {
            ENEMY_SEQUENCE_ATTACK
        } else if d2 < AGGRO_RANGE {
            SEQUENCE_MOVE
        } else {
            SEQUENCE_IDLE
        }
    }

    /// The displacement of a character that walks for a frame.
    pub fn get_walk(facing: Direction, speed: u32, dt: u16) -> (v: [i64; 2])
        ensures
            v[0] == walk(facing, speed, dt).0,
            v[1] == walk(facing, speed, dt).1,
            is_step(v[0] as int),
            is_step(v[1] as int),
    {
        proof {
            lemma_walk_is_step(facing, speed, dt);
        }
        let signs = direction_to_f32_array(facing);
        let pace: i64 = speed as i64;
        let frame: i64 = dt as i64;
        assert(0 <= pace * frame <= 0xffff_ffff * 0xffff) by (nonlinear_arith)
            requires
                0 <= pace <= 0xffff_ffff,
                0 <= frame <= 0xffff,
        ;
        let s: i64 = pace * frame;
        let x: i64 = if signs[0] > 0 {
            s
        } else if signs[0] < 0 {
            -s
        } else {
            0
        };
        let y: i64 = if signs[1] > 0 {
            s
        } else if signs[1] < 0 {
            -s
        } else {
            0
        };
        convert_velocity([x, y])
    }

    /// Lets an enemy look for the player.
    pub fn retarget(r: &mut Record, center: &Center, animations: &AnimationDataHandler)
        requires
            old(r).wf(*animations),
            Self::steers(*old(r)),
            !old(r).animation.unwrap().loop_lock,
        ensures
            *final(r) == Self::retargeted(*old(r), *center),
            final(r).wf(*animations),
            Self::steers(*final(r)),
    {
        match (r.enemy, r.transform, r.animation) {
            (Some(e), Some(t), Some(a)) => {
                let mut t = t;
                let mut a = a;
                let set = &animations.sets[a.table];
                let sequence = Self::get_tier(&t, center);
                if sequence != a.current_sequence {
                    a.change_sequence(sequence, sequence == ENEMY_SEQUENCE_ATTACK, set);
                    a.speed_scale = speed_scale(e.speed);
                }
                if sequence == ENEMY_SEQUENCE_ATTACK {
                    a.loop_lock = true;
                }
                let direction = compute_direction(
                    [t.position[0], t.position[1]],
                    [center.0, center.1],
                );
                if sequence != SEQUENCE_IDLE && direction != Direction::Still {
                    t.direction = direction;
                    a.change_facing(direction);
                }
                r.transform = Some(t);
                r.animation = Some(a);
            },
            _ => {},
        }
    }

    /// Runs the system on one entity.
    pub fn update(r: &mut Record, center: &Center, dt: u16, animations: &AnimationDataHandler)
        requires
            old(r).wf(*animations),
        ensures
            *final(r) == Self::updated(*old(r), *center, dt),
            final(r).wf(*animations),
    {
        match (r.enemy, r.transform, r.collider, r.animation) {
            (Some(e), Some(_), Some(_), Some(a)) => {
                let mut e = e;
                if a.loop_lock {
                    e.tick = RETARGET_NOW;
                    r.enemy = Some(e);
                    return ;
                }
                let due = e.update_tick(dt);
                r.enemy = Some(e);
                if due {
                    Self::retarget(r, center, animations);
                }
                Self::drive(r, dt, animations);
            },
            _ => {},
        }
    }

    /// Gives an enemy the velocity of what it does.
    pub fn drive(r: &mut Record, dt: u16, animations: &AnimationDataHandler)
        requires
            old(r).wf(*animations),
            Self::steers(*old(r)),
        ensures
            *final(r) == Self::driven(*old(r), dt),
            final(r).wf(*animations),
    {
        match (r.enemy, r.transform, r.collider, r.animation) {
            (Some(e), Some(t), Some(c), Some(a)) => {
                let mut c = c;
                c.velocity = if a.current_sequence != SEQUENCE_MOVE {
                    [0, 0]
                } else {
                    Self::get_walk(t.direction, e.speed, dt)
                };
                r.collider = Some(c);
                proof {
                    assert(c.velocity =~= Self::driven(*old(r), dt).collider.unwrap().velocity);
                }
            },
            _ => {},
        }
    }

    /// Runs the system on every entity.
    pub fn run(
        &self,
        records: &mut Vec<Record>,
        center: &Center,
        dt: DeltaTime,
        animations: &AnimationDataHandler,
    )
        requires
            forall|i: int| 0 <= i < old(records).len() ==> (#[trigger] old(records)[i]).wf(*animations),
        ensures
            final(records)@ == old(records)@.map_values(|r: Record| Self::updated(r, *center, dt.0)),
            forall|n: u64|
                records_wf(old(records)@, n, *animations) ==> records_wf(final(records)@, n, *animations),
            all_have_room(old(records)@) ==> all_have_room(final(records)@),
    {
        let count = records.len();
        let mut i: usize = 0;
        while i < count
            invariant
                0 <= i <= count,
                records.len() == count,
                old(records).len() == count,
                forall|j: int|
                    0 <= j < i ==> #[trigger] records[j] == Self::updated(old(records)[j], *center, dt.0),
                forall|j: int| i <= j < count ==> #[trigger] records[j] == old(records)[j],
                forall|j: int| 0 <= j < count ==> (#[trigger] records[j]).wf(*animations),
            decreases count - i,
        {
            Self::update(&mut records[i], center, dt.0, animations);
            i += 1;
        }
        assert(records@ =~= old(records)@.map_values(|r: Record| Self::updated(r, *center, dt.0)));
    }
}

} // verus!
