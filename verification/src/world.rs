//! The entities and what they carry.

use vstd::prelude::*;
use crate::components::animation::Animation;
use crate::components::attack::{Attack, AttackMaker};
use crate::components::collider::Collider;
use crate::components::enemy::Enemy;
use crate::components::player::Player;
use crate::components::tile::Tile;
use crate::components::transform::Transform;
use crate::resources::animation_data_handler::AnimationDataHandler;
use crate::resources::camera::Camera;
use crate::resources::center::Center;
use crate::resources::delta_time::DeltaTime;
use crate::resources::enemy_manager::EnemyManager;
use crate::resources::input_handler::InputHandler;
use crate::resources::projectile::ProjectileTemplate;
use crate::resources::tile_map_storage::{total_rows, TileMapStorage};
use crate::units::{has_headroom, STEP_MAX, WORLD_EDGE};

verus! {

/// The sequence that a character at rest plays.
pub const SEQUENCE_IDLE: usize = 0;

/// The sequence that a character on the move plays.
pub const SEQUENCE_MOVE: usize = 1;

/// The sequence that an enemy plays once when it strikes.
pub const ENEMY_SEQUENCE_ATTACK: usize = 2;

/// The sequence that the player's character plays once when it attacks.
pub const PLAYER_SEQUENCE_ATTACK: usize = 3;

/// The name of an entity. Names are given out in rising order and never
/// given out twice.
#[derive(Clone, Copy, Debug, PartialEq, Eq, Hash)]
pub struct Entity(pub u64);

/// An entity with the components that it carries.
#[derive(Debug, PartialEq, Eq)]
pub struct Record {
    pub entity: Entity,
    pub transform: Option<Transform>,
    pub tile: Option<Tile>,
    pub animation: Option<Animation>,
    pub collider: Option<Collider>,
    pub attack: Option<Attack>,
    pub attack_maker: Option<AttackMaker>,
    pub enemy: Option<Enemy>,
    pub player: Option<Player>,
}

impl Record {
    /// Every component is well formed, the animation of a character has
    /// the sequences that its kind plays, and the animation of an entity
    /// with a place faces where the entity faces.
    pub open spec fn wf(self, animations: AnimationDataHandler) -> bool {
        &&& self.transform matches Some(t) ==> t.wf()
        &&& self.transform is Some && self.animation is Some ==> self.animation.unwrap().facing
            == self.transform.unwrap().direction
        &&& self.collider matches Some(c) ==> c.wf()
        &&& self.attack matches Some(a) ==> a.wf()
        &&& self.enemy matches Some(e) ==> e.wf()
        &&& self.player matches Some(p) ==> p.wf()
        &&& self.animation matches Some(a) ==> {
            &&& a.table < animations.sets.len()
            &&& a.wf(animations.sets[a.table as int])
            &&& self.player is Some ==> animations.sets[a.table as int].sequences.len()
                > PLAYER_SEQUENCE_ATTACK
            &&& self.enemy is Some ==> animations.sets[a.table as int].sequences.len()
                > ENEMY_SEQUENCE_ATTACK
        }
    }

    /// An entity with a place stands so far inside the world that no step
    /// leads out of it.
    pub open spec fn has_room(self) -> bool {
        self.transform matches Some(t) ==> has_headroom(t.position[0] as int) && has_headroom(
            t.position[1] as int,
        )
    }

    /// An entity that carries nothing.
    pub fn new(entity: Entity) -> (r: Record)
        ensures
            r == (Record {
                entity,
                transform: None,
                tile: None,
                animation: None,
                collider: None,
                attack: None,
                attack_maker: None,
                enemy: None,
                player: None,
            }),
            forall|animations: AnimationDataHandler| r.wf(animations),
            r.has_room(),
    {
        Record {
            entity,
            transform: None,
            tile: None,
            animation: None,
            collider: None,
            attack: None,
            attack_maker: None,
            enemy: None,
            player: None,
        }
    }
}

/// Every record is well formed, the names rise along the records, and each
/// is below the next name to give out.
pub open spec fn records_wf(records: Seq<Record>, next_id: u64, animations: AnimationDataHandler) -> bool {
    &&& forall|i: int| 0 <= i < records.len() ==> (#[trigger] records[i]).wf(animations)
    &&& forall|i: int, j: int|
        0 <= i < j < records.len() ==> (#[trigger] records[i]).entity.0 < (#[trigger] records[j]).entity.0
    &&& forall|i: int| 0 <= i < records.len() ==> (#[trigger] records[i]).entity.0 < next_id
}

/// Every entity has room to move.
pub open spec fn all_have_room(records: Seq<Record>) -> bool {
    forall|i: int| 0 <= i < records.len() ==> (#[trigger] records[i]).has_room()
}

/// The entities and the state that the systems share. `next_id` is the
/// next name to give out, `player` the name of the player's character.
#[derive(Debug, PartialEq, Eq)]
pub struct World {
    pub records: Vec<Record>,
    pub next_id: u64,
    pub player: Option<Entity>,
    pub animations: AnimationDataHandler,
    pub input_handler: InputHandler,
    pub delta_time: DeltaTime,
    pub center: Center,
    pub camera: Camera,
    pub tile_map_storage: TileMapStorage,
    pub enemy_manager: EnemyManager,
    pub projectile: ProjectileTemplate,
}

impl World {
    /// Every part of the world is well formed.
    pub open spec fn wf(self) -> bool {
        &&& self.animations.wf()
        &&& records_wf(self.records@, self.next_id, self.animations)
        &&& self.center.wf()
        &&& self.camera.wf()
        &&& self.tile_map_storage.wf()
        &&& self.enemy_manager.wf(self.animations)
        &&& self.projectile.wf()
    }

    /// The world can take a frame without running into the limits of the
    /// machine: every entity has room to move, there are names left for
    /// all entities that a frame can make, and neither the entities, after
    /// a frame, nor the rows of the ground are more than an instance buffer
    /// can hold.
    pub open spec fn ready(self) -> bool {
        &&& all_have_room(self.records@)
        &&& self.next_id + self.records.len() + 2 <= u64::MAX
        &&& 2 * self.records.len() + 2 <= u32::MAX
        &&& total_rows(self.tile_map_storage.tiles@) <= u32::MAX
    }

    /// Whether the world is as it is first made: without entities,
    /// animations or kinds of enemies; no key is held; the frame is a
    /// twentieth of a second long; the centre is the origin, and the camera
    /// shows sixteen by twelve units around it; an enemy is due at once and
    /// then every two seconds; the projectiles are those of the atlas
    /// `projectiles`, last a second, fly five units a second and are half a
    /// unit wide and high.
    pub open spec fn fresh(self) -> bool {
        &&& self.records.len() == 0
        &&& self.next_id == 0
        &&& self.player is None
        &&& self.animations.sets.len() == 0
        &&& self.input_handler == InputHandler::default_flags()
        &&& self.delta_time == DeltaTime(50)
        &&& self.center == Center(0, 0)
        &&& self.camera == (Camera { position: [0i64, 0i64], extent: [16u32, 12u32], viewport: [16u32, 12u32] })
        &&& self.enemy_manager.enemy_templates.len() == 0
        &&& self.enemy_manager.spawn_timer == 2_000
        &&& self.enemy_manager.timer_current == 99_000
        &&& self.projectile.tile.atlas@ == "projectiles"@
        &&& self.projectile.tile.uv_size == [125_000u32, 333_333u32]
        &&& self.projectile.tile.tile_index == [0u8, 0u8]
        &&& self.projectile.duration == 1_000
        &&& self.projectile.speed == 5_000
        &&& self.projectile.aabb_offset == [(-250_000i32), 250_000i32, (-250_000i32), 250_000i32]
    }

    /// A world on a ground, as it is first made. It can take a frame unless
    /// the ground has more rows than an instance buffer can hold.
    pub fn new(tile_map_storage: TileMapStorage) -> (world: World)
        requires
            tile_map_storage.wf(),
        ensures
            world.wf(),
            world.fresh(),
            world.tile_map_storage == tile_map_storage,
            world.ready() <==> total_rows(tile_map_storage.tiles@) <= u32::MAX,
    {
        World {
            records: Vec::new(),
            next_id: 0,
            player: None,
            animations: AnimationDataHandler::default(),
            input_handler: InputHandler::default(),
            delta_time: DeltaTime(50),
            center: Center::default(),
            camera: Camera::init_orthographic(16, 12),
            tile_map_storage,
            enemy_manager: EnemyManager::default(),
            projectile: ProjectileTemplate::default(),
        }
    }

    /// Whether the world can take a frame.
    pub fn is_ready(&self) -> (ready: bool)
        ensures
            ready == self.ready(),
    {
        if self.records.len() > 0x7fff_fffe {
            return false;
        }
        if self.next_id > u64::MAX - self.records.len() as u64 - 2 {
            return false;
        }
        if self.tile_map_storage.count_rows().is_none() {
            return false;
        }
        let mut i: usize = 0;
        while i < self.records.len()
            invariant
                0 <= i <= self.records.len(),
                forall|j: int| 0 <= j < i ==> (#[trigger] self.records[j]).has_room(),
            decreases self.records.len() - i,
        {
            match self.records[i].transform {
                Some(t) => {
                    if t.position[0] < -(WORLD_EDGE - STEP_MAX) || t.position[0] > WORLD_EDGE - STEP_MAX
                        || t.position[1] < -(WORLD_EDGE - STEP_MAX) || t.position[1] > WORLD_EDGE
                        - STEP_MAX {
                        return false;
                    }
                },
                None => {},
            }
            i += 1;
        }
        true
    }

    /// Takes in a new entity that carries nothing yet, and tells its name and
    /// its place; none if all names are given out.
    pub fn create_entity(&mut self) -> (made: Option<(Entity, usize)>)
        requires
            old(self).wf(),
        ensures
            final(self).wf(),
            match made {
                Some((entity, place)) => {
                    &&& old(self).next_id < u64::MAX
                    &&& entity == Entity(old(self).next_id)
                    &&& place == old(self).records.len()
                    &&& final(self).records@ == old(self).records@.push(
                        Record {
                            entity,
                            transform: None,
                            tile: None,
                            animation: None,
                            collider: None,
                            attack: None,
                            attack_maker: None,
                            enemy: None,
                            player: None,
                        },
                    )
                    &&& *final(self) == (World {
                        records: final(self).records,
                        next_id: (old(self).next_id + 1) as u64,
                        ..*old(self)
                    })
                },
                None => old(self).next_id == u64::MAX && *final(self) == *old(self),
            },
            all_have_room(old(self).records@) ==> all_have_room(final(self).records@),
    {
        if self.next_id == u64::MAX {
            return None;
        }
        let entity = Entity(self.next_id);
        let place = self.records.len();
        self.records.push(Record::new(entity));
        self.next_id = self.next_id + 1;
        Some((entity, place))
    }

    /// The place of an entity among the records, if it is there.
    pub fn find(&self, entity: Entity) -> (found: Option<usize>)
        ensures
            match found {
                Some(i) => i < self.records.len() && self.records[i as int].entity == entity,
                None => forall|j: int| 0 <= j < self.records.len() ==> (#[trigger] self.records[j]).entity != entity,
            },
    {
        let mut i: usize = 0;
        while i < self.records.len()
            invariant
                0 <= i <= self.records.len(),
                forall|j: int| 0 <= j < i ==> (#[trigger] self.records[j]).entity != entity,
            decreases self.records.len() - i,
        {
            if self.records[i].entity.0 == entity.0 {
                return Some(i);
            }
            i += 1;
        }
        None
    }

    /// Whether an entity is in the world.
    pub fn is_alive(&self, entity: Entity) -> (alive: bool)
        ensures
            alive == exists|i: int| 0 <= i < self.records.len() && (#[trigger] self.records[i]).entity == entity,
    {
        self.find(entity).is_some()
    }
}

} // verus!
