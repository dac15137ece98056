//! The spawner of projectiles.

use vstd::prelude::*;
use crate::components::attack::{Attack, AttackMaker};
use crate::components::collider::{BodyType, Collider};
use crate::components::direction::{direction_to_f32_array, Direction};
use crate::components::tile::Tile;
use crate::components::transform::Transform;
use crate::resources::animation_data_handler::AnimationDataHandler;
use crate::resources::projectile::ProjectileTemplate;
use crate::units::{directed, UNIT};
use crate::world::{all_have_room, records_wf, Entity, Record};

verus! {

/// Answers every wish to fire with one projectile.
pub struct FireWeapon;

/// A projectile to make: where it starts and which way it flies.
#[derive(Clone, Copy, Debug, PartialEq, Eq)]
pub struct BulletData {
    pub start_position: [i64; 3],
    pub direction: Direction,
}

/// How fast a projectile of a speed flies in a direction, in sub-units per
/// millisecond: at the speed along each axis of the direction, and twice as
/// fast sideways as up or down, to make up for the flat view of the grid.
pub open spec fn flight(direction: Direction, speed: u32) -> [i64; 2] {
    [directed(direction.signs().0, 2 * speed) as i64, directed(direction.signs().1, speed as int) as i64]
}

impl FireWeapon {
    /// Whether an entity fires: it has a place, and its wish to fire is set.
    pub open spec fn fires(r: Record) -> bool {
        r.transform is Some && r.attack_maker is Some && r.attack_maker.unwrap().fire
    }

    /// The entity after its wish to fire has been answered.
    pub open spec fn disarmed(r: Record) -> Record {
        if Self::fires(r) {
            Record { attack_maker: Some(AttackMaker { fire: false }), ..r }
        } else {
            r
        }
    }

    /// The projectiles to make for some entities, in the order of the
    /// entities: one for each that fires, from where it stands and the way
    /// it faces.
    pub open spec fn requests(records: Seq<Record>) -> Seq<BulletData>
        decreases records.len(),
    {
        if records.len() == 0 {
            Seq::empty()
        } else if Self::fires(records.last()) {
            Self::requests(records.drop_last()).push(
                BulletData {
                    start_position: records.last().transform.unwrap().position,
                    direction: records.last().transform.unwrap().direction,
                },
            )
        } else {
            Self::requests(records.drop_last())
        }
    }

    /// The projectile made on a request, under a name: an entity of unit
    /// size at the start, with the cell of its direction from the
    /// projectiles' sprite, a flight of the template's duration and speed,
    /// and the template's box as a trigger.
    pub open spec fn bullet(request: BulletData, entity: Entity, template: ProjectileTemplate) -> Record {
        Record {
            entity,
            transform: Some(
                Transform {
                    position: request.start_position,
                    size: [UNIT, UNIT],
                    direction: request.direction,
                },
            ),
            tile: Some(
                Tile { tile_index: [request.direction.spec_index() as u8, 0u8], ..template.tile },
            ),
            animation: None,
            collider: Some(
                Collider {
                    aabb_offset: template.aabb_offset,
                    velocity: [0i64, 0i64],
                    is_trigger: true,
                    body_type: BodyType::Dynamic,
                },
            ),
            attack: Some(
                Attack {
                    duration: template.duration,
                    elapsed: 0,
                    movement: flight(request.direction, template.speed),
                },
            ),
            attack_maker: None,
            enemy: None,
            player: None,
        }
    }

    /// The projectiles made on some requests, named from `first` on.
    pub open spec fn bullets(requests: Seq<BulletData>, first: u64, template: ProjectileTemplate) -> Seq<
        Record,
    > {
        Seq::new(
            requests.len(),
            |k: int| Self::bullet(requests[k], Entity((first + k) as u64), template),
        )
    }

    /// Makes the projectile of a request.
    pub fn make_bullet(request: BulletData, entity: Entity, template: &ProjectileTemplate) -> (r: Record)
        requires
            template.wf(),
        ensures
            r == Self::bullet(request, entity, *template),
    {
        let signs = direction_to_f32_array(request.direction);
        let speed: i64 = template.speed as i64;
        let x: i64 = if signs[0] > 0 {
            2 * speed
        } else if signs[0] < 0 {
            -(2 * speed)
        } else {
            0
        };
        let y: i64 = if signs[1] > 0 {
            speed
        } else if signs[1] < 0 {
            -speed
        } else {
            0
        };
        let movement: [i64; 2] = [x, y];
        assert(movement =~= flight(request.direction, template.speed));
        Record {
            entity,
            transform: Some(
                Transform {
                    position: request.start_position,
                    size: [UNIT, UNIT],
                    direction: request.direction,
                },
            ),
            tile: Some(
                Tile {
                    tile_index: [request.direction.index(), 0],
                    uv_size: template.tile.uv_size,
                    atlas: template.tile.atlas.clone(),
                },
            ),
            animation: None,
            collider: Some(
                Collider {
                    aabb_offset: template.aabb_offset,
                    velocity: [0, 0],
                    is_trigger: true,
                    body_type: BodyType::Dynamic,
                },
            ),
            attack: Some(Attack { duration: template.duration, elapsed: 0, movement }),
            attack_maker: None,
            enemy: None,
            player: None,
        }
    }

    /// There are no more projectiles to make than entities.
    pub proof fn lemma_requests_len(records: Seq<Record>)
        ensures
            Self::requests(records).len() <= records.len(),
        decreases records.len(),
    {
        if records.len() > 0 {
            Self::lemma_requests_len(records.drop_last());
        }
    }

    /// Every projectile to make starts where an entity stands.
    pub proof fn lemma_requests_from(records: Seq<Record>, k: int)
        requires
            0 <= k < Self::requests(records).len(),
        ensures
            exists|i: int|
                0 <= i < records.len() && (#[trigger] records[i]).transform is Some
                    && records[i].transform.unwrap().position == Self::requests(
                    records,
                )[k].start_position,
        decreases records.len(),
    {
        if records.len() > 0 {
            let rest = records.drop_last();
            if Self::fires(records.last()) && k == Self::requests(rest).len() {
                assert(records[records.len() - 1] == records.last());
            } else {
                Self::lemma_requests_from(rest, k);
                let i = choose|i: int|
                    0 <= i < rest.len() && (#[trigger] rest[i]).transform is Some
                        && rest[i].transform.unwrap().position == Self::requests(rest)[k].start_position;
                assert(records[i] == rest[i]);
            }
        }
    }

    /// Runs the system. First every entity that fires has its wish cleared
    /// and its projectile noted; then the projectiles are made, after all
    /// the entities that were there, and are given the next names.
    pub fn run(
        &self,
        records: &mut Vec<Record>,
        next_id: &mut u64,
        template: &ProjectileTemplate,
        animations: &AnimationDataHandler,
    )
        requires
            template.wf(),
            records_wf(old(records)@, *old(next_id), *animations),
            *old(next_id) + old(records).len() <= u64::MAX,
        ensures
            final(records)@ == old(records)@.map_values(|r: Record| Self::disarmed(r)) + Self::bullets(
                Self::requests(old(records)@),
                *old(next_id),
                *template,
            ),
            *final(next_id) == *old(next_id) + Self::requests(old(records)@).len(),
            records_wf(final(records)@, *final(next_id), *animations),
            all_have_room(old(records)@) ==> all_have_room(final(records)@),
    {
        let count = records.len();
        let mut pending: Vec<BulletData> = Vec::new();
        let mut i: usize = 0;
        while i < count
            invariant
                0 <= i <= count,
                records.len() == count,
                old(records).len() == count,
                pending@ == Self::requests(old(records)@.take(i as int)),
                forall|j: int| 0 <= j < i ==> #[trigger] records[j] == Self::disarmed(old(records)[j]),
                forall|j: int| i <= j < count ==> #[trigger] records[j] == old(records)[j],
            decreases count - i,
        {
            assert(old(records)@.take(i + 1).drop_last() == old(records)@.take(i as int));
            let r = &mut records[i];
            match (r.attack_maker, r.transform) {
                (Some(maker), Some(t)) => {
                    if maker.get_fire_condition() {
                        let mut maker = maker;
                        maker.fire_finished();
                        r.attack_maker = Some(maker);
                        pending.push(BulletData { start_position: t.position, direction: t.direction });
                    }
                },
                _ => {},
            }
            i += 1;
        }
        assert(old(records)@.take(i as int) == old(records)@);
        proof {
            Self::lemma_requests_len(old(records)@);
        }
        let ghost disarmed = records@;
        assert(disarmed =~= old(records)@.map_values(|r: Record| Self::disarmed(r)));
        let mut k: usize = 0;
        while k < pending.len()
            invariant
                0 <= k <= pending.len(),
                template.wf(),
                pending@ == Self::requests(old(records)@),
                pending.len() <= count,
                *old(next_id) + count <= u64::MAX,
                *next_id == *old(next_id) + k,
                records@ == disarmed + Self::bullets(pending@.take(k as int), *old(next_id), *template),
            decreases pending.len() - k,
        {
            let made = Self::make_bullet(pending[k], Entity(*next_id), template);
            records.push(made);
            *next_id = *next_id + 1;
            assert(records@ =~= disarmed + Self::bullets(
                pending@.take(k + 1),
                *old(next_id),
                *template,
            ));
            k += 1;
        }
        assert(pending@.take(k as int) == pending@);
        proof {
            let made = Self::bullets(pending@, *old(next_id), *template);
            assert forall|j: int| 0 <= j < records.len() implies (#[trigger] records[j]).wf(*animations)
                && records[j].entity.0 < *next_id by {
                if j >= count {
                    let q = j - count;
                    assert(records[j] == made[q]);
                    Self::lemma_requests_from(old(records)@, q);
                    let i = choose|i: int|
                        0 <= i < old(records)@.len() && (#[trigger] old(records)@[i]).transform is Some
                            && old(records)@[i].transform.unwrap().position == pending@[q].start_position;
                    assert(old(records)@[i].wf(*animations));
                } else {
                    assert(old(records)@[j].wf(*animations));
                }
            }
            assert forall|a: int, b: int| 0 <= a < b < records.len() implies (#[trigger] records[a]).entity.0
                < (#[trigger] records[b]).entity.0 by {
                if b >= count {
                    assert(records[b] == made[b - count]);
                    if a >= count {
                        assert(records[a] == made[a - count]);
                    }
                }
            }
            if all_have_room(old(records)@) {
                assert forall|j: int| 0 <= j < records.len() implies (#[trigger] records[j]).has_room() by {
                    if j >= count {
                        let q = j - count;
                        assert(records[j] == made[q]);
                        Self::lemma_requests_from(old(records)@, q);
                        let i = choose|i: int|
                            0 <= i < old(records)@.len() && (#[trigger] old(records)@[i]).transform is Some
                                && old(records)@[i].transform.unwrap().position
                                == pending@[q].start_position;
                        assert(old(records)@[i].has_room());
                    } else {
                        assert(old(records)@[j].has_room());
                    }
                }
            }
        }
    }
}

} // verus!
