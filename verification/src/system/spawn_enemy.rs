//! The spawner of enemies.

use vstd::prelude::*;
use crate::components::collider::{BodyType, Collider};
use crate::components::direction::Direction;
use crate::components::enemy::{Enemy, RETARGET_NOW};
use crate::components::transform::Transform;
use crate::resources::animation_data_handler::AnimationDataHandler;
use crate::resources::delta_time::DeltaTime;
use crate::resources::enemy_manager::{first_named, EnemyManager, EnemyTemplate};
use crate::resources::random::RandomSource;
use crate::units::UNIT;
use crate::world::{all_have_room, records_wf, Entity, Record};

verus! {

/// Lets an enemy appear whenever one is due.
pub struct SpawnEnemy;

/// The middle of the place where enemies appear.
pub const SPAWN_X: i64 = 20 * UNIT;

pub const SPAWN_Y: i64 = 2 * UNIT;

/// The depth at which an enemy appears.
pub const SPAWN_DEPTH: i64 = 200_000;

/// The name of the kind of enemy that appears.
pub open spec fn spawn_kind() -> Seq<char> {
    "zombie"@
}

impl SpawnEnemy {
    /// The enemy of a kind that appears at an offset from the middle of the
    /// place, under a name: it has the sprite, animation, size and speed of
    /// its kind, is due to look for the player at once, faces down, and has
    /// the body that every character has.
    pub open spec fn enemy(kind: EnemyTemplate, entity: Entity, offset: [i64; 2]) -> Record {
        Record {
            entity,
            transform: Some(
                Transform {
                    position: [(SPAWN_X + offset[0]) as i64, (SPAWN_Y + offset[1]) as i64, SPAWN_DEPTH],
                    size: kind.size,
                    direction: Direction::Down,
                },
            ),
            tile: Some(kind.tile),
            animation: Some(kind.animations),
            collider: Some(
                Collider {
                    aabb_offset: [(-1_000_000i32), 0i32, (-250_000i32), 250_000i32],
                    velocity: [0i64, 0i64],
                    is_trigger: false,
                    body_type: BodyType::Kinematic,
                },
            ),
            attack: None,
            attack_maker: None,
            enemy: Some(Enemy { speed: kind.speed, tick: RETARGET_NOW }),
            player: None,
        }
    }

    /// The entities after an enemy has appeared at an offset: the enemy
    /// comes after all the others and has the next name. Where no kind has
    /// the name of the kind that appears, none does.
    pub open spec fn spawned(
        records: Seq<Record>,
        next_id: u64,
        kinds: Seq<EnemyTemplate>,
        offset: [i64; 2],
    ) -> Seq<Record> {
        match first_named(kinds, spawn_kind()) {
            Some(i) => records.push(Self::enemy(kinds[i], Entity(next_id), offset)),
            None => records,
        }
    }

    /// The entities after the system has run, `offset` being what was drawn
    /// if an enemy was due.
    pub open spec fn after(
        records: Seq<Record>,
        next_id: u64,
        manager: EnemyManager,
        dt: u16,
        offset: [i64; 2],
    ) -> Seq<Record> {
        if manager.due(dt) {
            Self::spawned(records, next_id, manager.enemy_templates@, offset)
        } else {
            records
        }
    }

    /// Lets an enemy appear at an offset from the middle of the place.
    pub fn spawn(
        records: &mut Vec<Record>,
        next_id: &mut u64,
        manager: &EnemyManager,
        offset: [i64; 2],
        animations: &AnimationDataHandler,
    )
        requires
            RandomSource::is_offset(offset),
            manager.wf(*animations),
            records_wf(old(records)@, *old(next_id), *animations),
            *old(next_id) < u64::MAX,
        ensures
            final(records)@ == Self::spawned(
                old(records)@,
                *old(next_id),
                manager.enemy_templates@,
                offset,
            ),
            *final(next_id) == *old(next_id) + final(records).len() - old(records).len(),
            final(records).len() <= old(records).len() + 1,
            records_wf(final(records)@, *final(next_id), *animations),
            all_have_room(old(records)@) ==> all_have_room(final(records)@),
    {
        let name = "zombie".to_string();
        match manager.find(&name) {
            Some(i) => {
                let kind = &manager.enemy_templates[i];
                let made = Record {
                    entity: Entity(*next_id),
                    transform: Some(
                        Transform {
                            position: [SPAWN_X + offset[0], SPAWN_Y + offset[1], SPAWN_DEPTH],
                            size: kind.size,
                            direction: Direction::Down,
                        },
                    ),
                    tile: Some(kind.tile.duplicate()),
                    animation: Some(kind.animations),
                    collider: Some(Collider::default()),
                    attack: None,
                    attack_maker: None,
                    enemy: Some(Enemy::new(kind.speed)),
                    player: None,
                };
                assert(made == Self::enemy(*kind, Entity(*next_id), offset));
                assert(made.wf(*animations));
                assert(made.has_room());
                records.push(made);
                *next_id = *next_id + 1;
            },
            None => {},
        }
    }

    /// Runs the system: lets the frame pass on the clock of the enemies,
    /// and, if an enemy is due, draws where it appears and lets it appear.
    pub fn run(
        &self,
        records: &mut Vec<Record>,
        next_id: &mut u64,
        manager: &mut EnemyManager,
        dt: DeltaTime,
        rng: &mut RandomSource,
        animations: &AnimationDataHandler,
    ) -> (offset: [i64; 2])
        requires
            old(manager).wf(*animations),
            records_wf(old(records)@, *old(next_id), *animations),
            *old(next_id) < u64::MAX,
        ensures
            RandomSource::is_offset(offset),
            final(records)@ == Self::after(old(records)@, *old(next_id), *old(manager), dt.0, offset),
            *final(next_id) == *old(next_id) + final(records).len() - old(records).len(),
            final(records).len() <= old(records).len() + 1,
            final(manager).enemy_templates == old(manager).enemy_templates,
            final(manager).spawn_timer == old(manager).spawn_timer,
            final(manager).timer_current == old(manager).timer_after(dt.0),
            final(manager).wf(*animations),
            records_wf(final(records)@, *final(next_id), *animations),
            all_have_room(old(records)@) ==> all_have_room(final(records)@),
    {
        if manager.update_spawn_timer(dt.0) {
            let offset = rng.spawn_offset();
            Self::spawn(records, next_id, manager, offset, animations);
            offset
        } else {
            [0, 0]
        }
    }
}

} // verus!
