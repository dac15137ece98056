//! The game: a world, the dispatcher that runs its frames, and what the
//! outside asks of them.

use vstd::prelude::*;
use crate::components::animation::{Animation, SCALE_ONE};
use crate::components::direction::Direction;
use crate::components::tile::Tile;
use crate::renderer::gpu_resource_manager::GPUResourceManager;
use crate::renderer::mesh::InstanceTileRaw;
use crate::resources::animation_data_handler::{AnimationData, AnimationError, AnimationSet};
use crate::resources::enemy_manager::EnemyTemplate;
use crate::resources::input_handler::{action_of, ElementState, VirtualKeyCode};
use crate::resources::random::RandomSource;
use crate::resources::tile_map_storage::{total_rows, TileMapStorage, FULL_MAP_SIZE, MAP_SIZE};
use crate::resources::delta_time::DeltaTime;
use crate::spawner;
use crate::system::dispatcher::{frame_after, frame_of, same_setting, uploads_of, FrameOutput, UnifiedDispatcher};
use crate::system::update_meshes::UpdateMeshes;
use crate::units::UNIT;
use crate::world::{all_have_room, Entity, Record, World, ENEMY_SEQUENCE_ATTACK, PLAYER_SEQUENCE_ATTACK};

verus! {

/// The speed of a zombie, in sub-units per millisecond.
pub const ZOMBIE_SPEED: u32 = 2_000;

/// The width and the height of a zombie.
pub const ZOMBIE_SIZE: i64 = 4 * UNIT;

/// The game.
pub struct GameState {
    pub world: World,
    pub dispatcher: UnifiedDispatcher,
}

/// Whether a kind of enemy is the zombie: named `zombie`, with the first
/// cell of the atlas `enemy/zombie`, which is sixteen cells wide and high,
/// the animations of the second set, four units wide and high, and of the
/// zombie's speed.
pub open spec fn is_zombie(kind: EnemyTemplate) -> bool {
    &&& kind.name@ == "zombie"@
    &&& kind.tile.atlas@ == "enemy/zombie"@
    &&& kind.tile.tile_index == [0u8, 0u8]
    &&& kind.tile.uv_size == [62_500u32, 62_500u32]
    &&& kind.animations == (Animation {
        table: 1,
        current_sequence: 0,
        current_frame: 0,
        elapsed_in_frame: 99_000,
        speed_scale: SCALE_ONE,
        loop_lock: false,
        resume_sequence: 0,
        facing: Direction::Down,
    })
    &&& kind.size == [ZOMBIE_SIZE, ZOMBIE_SIZE]
    &&& kind.speed == ZOMBIE_SPEED
}

/// What keeps the animations of the characters from being taken in, if
/// anything does: the first defect of the player's sequences, then of the
/// zombie's; then a lack of the sequences that the player's character
/// plays, then of those that a zombie plays.
pub open spec fn init_defect(player: Seq<AnimationData>, zombie: Seq<AnimationData>) -> Option<AnimationError> {
    let player_set = crate::resources::animation_data_handler::first_defect(player);
    let zombie_set = crate::resources::animation_data_handler::first_defect(zombie);
    if player.len() == 0 {
        Some(AnimationError::NoSequence)
    } else if player_set is Some {
        player_set
    } else if zombie.len() == 0 {
        Some(AnimationError::NoSequence)
    } else if zombie_set is Some {
        zombie_set
    } else if player.len() <= PLAYER_SEQUENCE_ATTACK || zombie.len() <= ENEMY_SEQUENCE_ATTACK {
        Some(AnimationError::MissingSequence)
    } else {
        None
    }
}

impl GameState {
    /// A game in a world on a ground, as the world is first made. The
    /// world can take a frame unless the ground has more rows than an
    /// instance buffer can hold.
    pub fn new(tile_map_storage: TileMapStorage) -> (game: GameState)
        requires
            tile_map_storage.wf(),
        ensures
            game.world.wf(),
            game.world.fresh(),
            game.world.tile_map_storage == tile_map_storage,
            game.world.ready() <==> total_rows(tile_map_storage.tiles@) <= u32::MAX,
    {
        GameState { world: World::new(tile_map_storage), dispatcher: crate::system::build() }
    }

    /// Takes in the animations of the player's character and of the zombie,
    /// makes the zombie a kind of enemy, and makes the player's character
    /// at the origin. Malformed animations are turned down, and then
    /// nothing changes.
    pub fn init(&mut self, player: Vec<AnimationData>, zombie: Vec<AnimationData>) -> (done: Result<
        (),
        AnimationError,
    >)
        requires
            old(self).world.wf(),
            old(self).world.animations.sets.len() == 0,
            old(self).world.next_id < u64::MAX,
        ensures
            final(self).world.wf(),
            done == (match init_defect(player@, zombie@) {
                Some(e) => Err::<(), AnimationError>(e),
                None => Ok(()),
            }),
            done is Err ==> final(self).world == old(self).world,
            done is Ok ==> {
                let entity = Entity(old(self).world.next_id);
                &&& final(self).world == (World {
                    records: final(self).world.records,
                    next_id: (old(self).world.next_id + 1) as u64,
                    player: Some(entity),
                    animations: final(self).world.animations,
                    enemy_manager: final(self).world.enemy_manager,
                    ..old(self).world
                })
                &&& final(self).world.records@.drop_last() == old(self).world.records@
                &&& final(self).world.records.len() == old(self).world.records.len() + 1
                &&& spawner::is_player(final(self).world.records@.last(), entity, 0, 0, 0)
                &&& final(self).world.animations.sets.len() == 2
                &&& final(self).world.animations.sets[0].name@ == "player"@
                &&& final(self).world.animations.sets[0].sequences == player
                &&& final(self).world.animations.sets[1].name@ == "enemy/zombie"@
                &&& final(self).world.animations.sets[1].sequences == zombie
                &&& final(self).world.enemy_manager.spawn_timer == old(self).world.enemy_manager.spawn_timer
                &&& final(self).world.enemy_manager.timer_current == old(
                    self,
                ).world.enemy_manager.timer_current
                &&& final(self).world.enemy_manager.enemy_templates@.drop_last() == old(
                    self,
                ).world.enemy_manager.enemy_templates@
                &&& final(self).world.enemy_manager.enemy_templates.len() == old(
                    self,
                ).world.enemy_manager.enemy_templates.len() + 1
                &&& is_zombie(final(self).world.enemy_manager.enemy_templates@.last())
                &&& all_have_room(old(self).world.records@) ==> all_have_room(final(self).world.records@)
            },
    {
        let player_set = AnimationSet { name: "player".to_string(), sequences: player };
        let zombie_set = AnimationSet { name: "enemy/zombie".to_string(), sequences: zombie };
        match player_set.check() {
            Some(e) => {
                return Err(e);
            },
            None => {},
        }
        match zombie_set.check() {
            Some(e) => {
                return Err(e);
            },
            None => {},
        }
        if player_set.sequences.len() <= PLAYER_SEQUENCE_ATTACK || zombie_set.sequences.len()
            <= ENEMY_SEQUENCE_ATTACK {
            return Err(AnimationError::MissingSequence);
        }
        let ghost before = self.world;
        self.world.animations.sets.push(player_set);
        self.world.animations.sets.push(zombie_set);
        assert forall|i: int| 0 <= i < self.world.records.len() implies (#[trigger] self.world.records[i]).wf(
            self.world.animations,
        ) by {
            assert(before.records[i].wf(before.animations));
        }
        assert(self.world.enemy_manager.wf(self.world.animations)) by {
            assert forall|i: int| 0 <= i < self.world.enemy_manager.enemy_templates.len() implies (
            #[trigger] self.world.enemy_manager.enemy_templates[i]).wf(self.world.animations) by {
                assert(before.enemy_manager.enemy_templates[i].wf(before.animations));
            }
        }
        let kind = EnemyTemplate {
            name: "zombie".to_string(),
            tile: Tile { tile_index: [0, 0], uv_size: [62_500, 62_500], atlas: "enemy/zombie".to_string() },
            animations: Animation::new(1, Direction::Down),
            size: [ZOMBIE_SIZE, ZOMBIE_SIZE],
            speed: ZOMBIE_SPEED,
        };
        assert(kind.wf(self.world.animations));
        self.world.enemy_manager.add_template(kind);
        let ghost ready = self.world;
        let made = spawner::player(&mut self.world, 0, 0);
        assert(spawner::can_make_player(ready, 0));
        self.world.player = made;
        Ok(())
    }

    /// Takes in a key event, and tells whether the key is one that the game
    /// answers to.
    pub fn handle_keyboard_input(&mut self, state: ElementState, virtual_keycode: Option<VirtualKeyCode>) -> (handled:
        bool)
        ensures
            final(self).world == (World {
                input_handler: old(self).world.input_handler.received(state, virtual_keycode),
                ..old(self).world
            }),
            handled == action_of(virtual_keycode) is Some,
    {
        self.world.input_handler.receive_keyboard_input(state, virtual_keycode)
    }

    /// Runs a frame of `dt` milliseconds, if the world can take one, and
    /// hands back what the backend has to do. A world that cannot take a
    /// frame is left as it is.
    pub fn update(&mut self, dt: u16, gpu: &mut GPUResourceManager, rng: &mut RandomSource) -> (out: Option<
        FrameOutput,
    >)
        requires
            old(self).world.wf(),
        ensures
            final(self).world.wf(),
            old(gpu).wf() ==> final(gpu).wf(),
            match out {
                Some(out) => {
                    let began = World { delta_time: DeltaTime(dt), ..old(self).world };
                    &&& began.ready()
                    &&& RandomSource::is_offset(out.spawn_offset)
                    &&& frame_of(final(self).world, *final(gpu), uploads_of(out.uploads@), out.pass@)
                        == frame_after(began, *old(gpu), out.spawn_offset)
                    &&& same_setting(final(self).world, began)
                },
                None => {
                    &&& !old(self).world.ready()
                    &&& final(self).world == old(self).world
                    &&& *final(gpu) == *old(gpu)
                },
            },
    {
        if !self.world.is_ready() {
            return None;
        }
        self.world.delta_time = DeltaTime(dt);
        Some(self.dispatcher.run_now(&mut self.world, gpu, rng))
    }

    /// Runs a frame as `update` does, with the offset at which an enemy
    /// appears, if one is due, given instead of drawn.
    pub fn update_with(&mut self, dt: u16, gpu: &mut GPUResourceManager, offset: [i64; 2]) -> (out: Option<
        FrameOutput,
    >)
        requires
            old(self).world.wf(),
        ensures
            final(self).world.wf(),
            old(gpu).wf() ==> final(gpu).wf(),
            match out {
                Some(out) => {
                    let began = World { delta_time: DeltaTime(dt), ..old(self).world };
                    &&& began.ready()
                    &&& RandomSource::is_offset(offset)
                    &&& out.spawn_offset == offset
                    &&& frame_of(final(self).world, *final(gpu), uploads_of(out.uploads@), out.pass@)
                        == frame_after(began, *old(gpu), offset)
                    &&& same_setting(final(self).world, began)
                },
                None => {
                    &&& !(old(self).world.ready() && RandomSource::is_offset(offset))
                    &&& final(self).world == old(self).world
                    &&& *final(gpu) == *old(gpu)
                },
            },
    {
        if !self.world.is_ready() || offset[0] < -crate::resources::random::SPAWN_SPREAD || offset[0]
            >= crate::resources::random::SPAWN_SPREAD || offset[1] < -crate::resources::random::SPAWN_SPREAD
            || offset[1] >= crate::resources::random::SPAWN_SPREAD {
            return None;
        }
        self.world.delta_time = DeltaTime(dt);
        Some(self.dispatcher.run_with(&mut self.world, gpu, offset))
    }

    /// The part of the world that the camera shows: its left, right, bottom
    /// and top edge.
    pub fn get_camera_uniform(&self) -> (rect: [i64; 4])
        requires
            self.world.camera.wf(),
        ensures
            rect == self.world.camera.shown(),
    {
        self.world.camera.get_view()
    }

    /// The rows of the sprites, atlas by atlas: for every atlas from which
    /// an entity is drawn, once, the rows of the entities drawn from it.
    pub fn get_character_instance(&self) -> (groups: Vec<(String, Vec<InstanceTileRaw>)>)
        ensures
            forall|k: int|
                0 <= k < groups.len() ==> (#[trigger] groups[k]).1@ == UpdateMeshes::rows_of(
                    self.world.records@,
                    groups[k].0@,
                ),
            forall|k: int, l: int| 0 <= k < l < groups.len() ==> (#[trigger] groups[k]).0@ != (#[trigger] groups[l]).0@,
            forall|k: int| 0 <= k < groups.len() ==> drawn_from(self.world.records@, (#[trigger] groups[k]).0@),
            forall|i: int|
                0 <= i < self.world.records.len() && (#[trigger] self.world.records[i]).tile is Some
                    && self.world.records[i].transform is Some ==> grouped(
                    groups@,
                    self.world.records[i].tile.unwrap().atlas@,
                ),
    {
        let records = &self.world.records;
        let mut groups: Vec<(String, Vec<InstanceTileRaw>)> = Vec::new();
        let mut i: usize = 0;
        while i < records.len()
            invariant
                0 <= i <= records.len(),
                forall|k: int|
                    0 <= k < groups.len() ==> (#[trigger] groups[k]).1@ == UpdateMeshes::rows_of(
                        records@,
                        groups[k].0@,
                    ),
                forall|k: int, l: int| 0 <= k < l < groups.len() ==> (#[trigger] groups[k]).0@ != (#[trigger] groups[l]).0@,
                forall|k: int| 0 <= k < groups.len() ==> drawn_from(records@, (#[trigger] groups[k]).0@),
                forall|j: int|
                    0 <= j < i && (#[trigger] records[j]).tile is Some && records[j].transform is Some ==> grouped(
                        groups@,
                        records[j].tile.unwrap().atlas@,
                    ),
            decreases records.len() - i,
        {
            let r = &records[i];
            match (&r.tile, &r.transform) {
                (Some(tile), Some(_)) => {
                    let mut known = false;
                    let mut k: usize = 0;
                    while k < groups.len()
                        invariant
                            0 <= k <= groups.len(),
                            known ==> grouped(groups@, tile.atlas@),
                            !known ==> forall|l: int| 0 <= l < k ==> (#[trigger] groups[l]).0@ != tile.atlas@,
                        decreases groups.len() - k,
                    {
                        if groups[k].0 == tile.atlas {
                            known = true;
                        }
                        k += 1;
                    }
                    if !known {
                        let name = tile.atlas.clone();
                        let rows = UpdateMeshes::collect(records, &name);
                        let ghost before = groups@;
                        assert(UpdateMeshes::shows(records[i as int], name@));
                        groups.push((name, rows));
                        assert forall|j: int|
                            0 <= j < i + 1 && (#[trigger] records[j]).tile is Some && records[j].transform
                                is Some implies grouped(groups@, records[j].tile.unwrap().atlas@) by {
                            if j < i {
                                let k = choose|k: int|
                                    0 <= k < before.len() && (#[trigger] before[k]).0@
                                        == records[j].tile.unwrap().atlas@;
                                assert(groups[k] == before[k]);
                            } else {
                                assert(groups[groups.len() - 1].0@ == records[j].tile.unwrap().atlas@);
                            }
                        }
                        assert forall|k: int| 0 <= k < groups.len() implies drawn_from(
                            records@,
                            (#[trigger] groups[k]).0@,
                        ) by {
                            if k < before.len() {
                                assert(groups[k] == before[k]);
                            }
                        }
                    }
                },
                _ => {},
            }
            i += 1;
        }
        groups
    }

    /// The rows of the ground that are drawn.
    pub fn get_map_instance(&self) -> (rows: Vec<InstanceTileRaw>)
        ensures
            rows@ == self.world.tile_map_storage.meshes@,
    {
        self.world.tile_map_storage.get_meshes()
    }
}

impl Default for GameState {
    /// A game in a world as it is first made, on the ground of forty by
    /// forty chunks. The world can take a frame.
    fn default() -> (game: GameState)
        ensures
            game.world.wf(),
            game.world.fresh(),
            game.world.ready(),
            game.world.tile_map_storage.wf(),
            game.world.tile_map_storage.laid_out(FULL_MAP_SIZE as int, MAP_SIZE as int),
            game.world.tile_map_storage.tiles.len() == 1_600,
            total_rows(game.world.tile_map_storage.tiles@) == 640_000,
    {
        GameState::new(TileMapStorage::default())
    }
}

/// Whether some entity is drawn from an atlas.
pub open spec fn drawn_from(records: Seq<Record>, atlas: Seq<char>) -> bool {
    exists|i: int| 0 <= i < records.len() && UpdateMeshes::shows(#[trigger] records[i], atlas)
}

/// Whether an atlas has its group of rows.
pub open spec fn grouped(groups: Seq<(String, Vec<InstanceTileRaw>)>, atlas: Seq<char>) -> bool {
    exists|k: int| 0 <= k < groups.len() && (#[trigger] groups[k]).0@ == atlas
}

} // verus!
