//! The making of the player's character.

use vstd::prelude::*;
use crate::components::animation::{Animation, SCALE_ONE};
use crate::components::attack::AttackMaker;
use crate::components::collider::{BodyType, Collider};
use crate::components::direction::Direction;
use crate::components::player::Player;
use crate::components::tile::Tile;
use crate::components::transform::Transform;
use crate::units::{has_headroom, UNIT};
use crate::world::{all_have_room, Entity, Record, World, PLAYER_SEQUENCE_ATTACK};

verus! {

/// The speed of the player's character, in sub-units per millisecond.
pub const PLAYER_SPEED: u32 = 5_000;

/// The width and the height of the player's character.
pub const PLAYER_SIZE: i64 = 2 * UNIT;

/// The depth at which the player's character appears.
pub const PLAYER_DEPTH: i64 = 200_000;

/// The name of the animations of the player's character.
pub open spec fn player_animations() -> Seq<char> {
    "player"@
}

/// Whether a record is the player's character as it is made at `(x, y)`,
/// under a name, with the set of animations at `table`: two units wide and
/// high, facing down, at rest, able to fire, with the body that every
/// character has and the first cell of the atlas `character`, which is
/// sixteen cells wide and eight high.
pub open spec fn is_player(r: Record, entity: Entity, x: i64, y: i64, table: usize) -> bool {
    &&& r.entity == entity
    &&& r.player == Some(Player { speed: PLAYER_SPEED })
    &&& r.attack_maker == Some(AttackMaker { fire: false })
    &&& r.collider == Some(
        Collider {
            aabb_offset: [(-1_000_000i32), 0i32, (-250_000i32), 250_000i32],
            velocity: [0i64, 0i64],
            is_trigger: false,
            body_type: BodyType::Kinematic,
        },
    )
    &&& r.tile is Some
    &&& r.tile.unwrap().atlas@ == "character"@
    &&& r.tile.unwrap().tile_index == [0u8, 0u8]
    &&& r.tile.unwrap().uv_size == [62_500u32, 125_000u32]
    &&& r.transform == Some(
        Transform { position: [x, y, PLAYER_DEPTH], size: [PLAYER_SIZE, PLAYER_SIZE], direction: Direction::Down },
    )
    &&& r.animation == Some(
        Animation {
            table,
            current_sequence: 0,
            current_frame: 0,
            elapsed_in_frame: 99_000,
            speed_scale: SCALE_ONE,
            loop_lock: false,
            resume_sequence: 0,
            facing: Direction::Down,
        },
    )
    &&& r.attack is None
    &&& r.enemy is None
}

/// Whether the world has what the player's character needs: a name to give
/// out, and, at `table`, the first set of animations named `player`, with
/// the sequences that the character plays.
pub open spec fn can_make_player(world: World, table: int) -> bool {
    &&& world.next_id < u64::MAX
    &&& 0 <= table < world.animations.sets.len()
    &&& world.animations.sets[table].name@ == player_animations()
    &&& forall|j: int| 0 <= j < table ==> (#[trigger] world.animations.sets[j]).name@ != player_animations()
    &&& world.animations.sets[table].sequences.len() > PLAYER_SEQUENCE_ATTACK
}

/// Makes the player's character at `(player_x, player_y)` and tells its
/// name. None is made where the world lacks what the character needs.
pub fn player(world: &mut World, player_x: i64, player_y: i64) -> (made: Option<Entity>)
    requires
        old(world).wf(),
        has_headroom(player_x as int),
        has_headroom(player_y as int),
    ensures
        final(world).wf(),
        all_have_room(old(world).records@) ==> all_have_room(final(world).records@),
        match made {
            Some(entity) => {
                &&& exists|table: int| can_make_player(*old(world), table) && is_player(
                    final(world).records@.last(),
                    entity,
                    player_x,
                    player_y,
                    table as usize,
                )
                &&& entity == Entity(old(world).next_id)
                &&& final(world).records.len() == old(world).records.len() + 1
                &&& final(world).records@.drop_last() == old(world).records@
                &&& *final(world) == (World {
                    records: final(world).records,
                    next_id: (old(world).next_id + 1) as u64,
                    ..*old(world)
                })
            },
            None => {
                &&& forall|table: int| !can_make_player(*old(world), table)
                &&& *final(world) == *old(world)
            },
        },
{
    let name = "player".to_string();
    let table = match world.animations.find(&name) {
        Some(table) => table,
        None => {
            return None;
        },
    };
    if world.animations.sets[table].sequences.len() <= PLAYER_SEQUENCE_ATTACK || world.next_id == u64::MAX {
        assert forall|t: int| !can_make_player(*world, t) by {
            if can_make_player(*world, t) {
                assert(t == table);
            }
        }
        return None;
    }
    let entity = Entity(world.next_id);
    let made = Record {
        entity,
        transform: Some(
            Transform {
                position: [player_x, player_y, PLAYER_DEPTH],
                size: [PLAYER_SIZE, PLAYER_SIZE],
                direction: Direction::Down,
            },
        ),
        tile: Some(Tile { tile_index: [0, 0], uv_size: [62_500, 125_000], atlas: "character".to_string() }),
        animation: Some(Animation::new(table, Direction::Down)),
        collider: Some(Collider::default()),
        attack: None,
        attack_maker: Some(AttackMaker { fire: false }),
        enemy: None,
        player: Some(Player { speed: PLAYER_SPEED }),
    };
    assert(made.wf(world.animations));
    assert(is_player(made, entity, player_x, player_y, table));
    assert(can_make_player(*world, table as int));
    world.records.push(made);
    world.next_id = world.next_id + 1;
    assert(world.records@.drop_last() =~= old(world).records@);
    assert(world.records@.last() == made);
    Some(entity)
}

} // verus!
