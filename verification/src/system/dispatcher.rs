//! The order of the systems, and the frame that they make up.

use vstd::prelude::*;
use crate::renderer::gpu_resource_manager::{
    render_pass, BufferAction, BufferCommand, GPUResourceManager, Mesh, RenderCommand,
};
use crate::renderer::mesh::InstanceTileRaw;
use crate::resources::camera::Camera;
use crate::resources::center::Center;
use crate::resources::enemy_manager::EnemyManager;
use crate::resources::random::RandomSource;
use crate::resources::tile_map_storage::{lemma_visible_len, visible, TileMapStorage};
use crate::system::fire_weapon::FireWeapon;
use crate::system::render::Render;
use crate::system::spawn_enemy::SpawnEnemy;
use crate::system::update_animation::UpdateAnimation;
use crate::system::update_attacks::UpdateAttack;
use crate::system::update_camera::UpdateCamera;
use crate::system::update_enemy::UpdateEnemy;
use crate::system::update_meshes::UpdateMeshes;
use crate::system::update_physics::UpdatePhysics;
use crate::system::update_player::UpdatePlayer;
use crate::world::{all_have_room, Record, World};

verus! {

/// The systems of a frame.
#[derive(Clone, Copy, Debug, PartialEq, Eq, Hash, Structural)]
pub enum SystemId {
    SpawnEnemy,
    UpdateAnimation,
    FireWeapon,
    UpdatePlayer,
    UpdateEnemy,
    UpdateAttack,
    UpdatePhysics,
    UpdateCamera,
    UpdateMeshes,
    Render,
}

/// The number of systems.
pub const SYSTEMS: usize = 10;

impl SystemId {
    /// The place of the system in the frame.
    pub open spec fn rank(self) -> int {
        match self {
            SystemId::SpawnEnemy => 0,
            SystemId::UpdateAnimation => 1,
            SystemId::FireWeapon => 2,
            SystemId::UpdatePlayer => 3,
            SystemId::UpdateEnemy => 4,
            SystemId::UpdateAttack => 5,
            SystemId::UpdatePhysics => 6,
            SystemId::UpdateCamera => 7,
            SystemId::UpdateMeshes => 8,
            SystemId::Render => 9,
        }
    }

    /// The system at a place of the frame.
    pub open spec fn at(rank: int) -> SystemId {
        if rank == 0 {
            SystemId::SpawnEnemy
        } else if rank == 1 {
            SystemId::UpdateAnimation
        } else if rank == 2 {
            SystemId::FireWeapon
        } else if rank == 3 {
            SystemId::UpdatePlayer
        } else if rank == 4 {
            SystemId::UpdateEnemy
        } else if rank == 5 {
            SystemId::UpdateAttack
        } else if rank == 6 {
            SystemId::UpdatePhysics
        } else if rank == 7 {
            SystemId::UpdateCamera
        } else if rank == 8 {
            SystemId::UpdateMeshes
        } else {
            SystemId::Render
        }
    }

    /// The systems that must have run in a frame before this one runs. The
    /// enemies look at where the player's character was steered. The
    /// projectiles age after the new ones are made. The physics moves what
    /// the player, the enemies and the projectiles have given a velocity.
    /// The camera follows what the physics has moved. The meshes take in
    /// whatever can change what is drawn. The render pass comes last.
    pub open spec fn needs(self) -> Seq<SystemId> {
        match self {
            SystemId::SpawnEnemy => seq![],
            SystemId::UpdateAnimation => seq![SystemId::SpawnEnemy],
            SystemId::FireWeapon => seq![SystemId::UpdateAnimation],
            SystemId::UpdatePlayer => seq![SystemId::FireWeapon],
            SystemId::UpdateEnemy => seq![SystemId::UpdatePlayer],
            SystemId::UpdateAttack => seq![SystemId::FireWeapon, SystemId::UpdateEnemy],
            SystemId::UpdatePhysics => seq![
                SystemId::UpdatePlayer,
                SystemId::UpdateEnemy,
                SystemId::UpdateAttack,
            ],
            SystemId::UpdateCamera => seq![SystemId::UpdatePhysics],
            SystemId::UpdateMeshes => seq![
                SystemId::SpawnEnemy,
                SystemId::UpdateAnimation,
                SystemId::FireWeapon,
                SystemId::UpdateAttack,
                SystemId::UpdatePhysics,
                SystemId::UpdateCamera,
            ],
            SystemId::Render => seq![SystemId::UpdateMeshes],
        }
    }

    pub fn get_rank(self) -> (rank: usize)
        ensures
            rank == self.rank(),
    {
        match self {
            SystemId::SpawnEnemy => 0,
            SystemId::UpdateAnimation => 1,
            SystemId::FireWeapon => 2,
            SystemId::UpdatePlayer => 3,
            SystemId::UpdateEnemy => 4,
            SystemId::UpdateAttack => 5,
            SystemId::UpdatePhysics => 6,
            SystemId::UpdateCamera => 7,
            SystemId::UpdateMeshes => 8,
            SystemId::Render => 9,
        }
    }

    /// The systems that must have run before this one.
    pub fn get_needs(self) -> (needs: Vec<SystemId>)
        ensures
            needs@ == self.needs(),
    {
        let needs = match self {
            SystemId::SpawnEnemy => vec![],
            SystemId::UpdateAnimation => vec![SystemId::SpawnEnemy],
            SystemId::FireWeapon => vec![SystemId::UpdateAnimation],
            SystemId::UpdatePlayer => vec![SystemId::FireWeapon],
            SystemId::UpdateEnemy => vec![SystemId::UpdatePlayer],
            SystemId::UpdateAttack => vec![SystemId::FireWeapon, SystemId::UpdateEnemy],
            SystemId::UpdatePhysics => vec![
                SystemId::UpdatePlayer,
                SystemId::UpdateEnemy,
                SystemId::UpdateAttack,
            ],
            SystemId::UpdateCamera => vec![SystemId::UpdatePhysics],
            SystemId::UpdateMeshes => vec![
                SystemId::SpawnEnemy,
                SystemId::UpdateAnimation,
                SystemId::FireWeapon,
                SystemId::UpdateAttack,
                SystemId::UpdatePhysics,
                SystemId::UpdateCamera,
            ],
            SystemId::Render => vec![SystemId::UpdateMeshes],
        };
        assert(needs@ =~= self.needs());
        needs
    }
}

/// The order in which the systems run in a frame.
pub open spec fn schedule() -> Seq<SystemId> {
    Seq::new(SYSTEMS as nat, |rank: int| SystemId::at(rank))
}

/// Whether, in an order of systems, every system comes after all that it
/// needs.
pub open spec fn respects(order: Seq<SystemId>) -> bool {
    forall|i: int, k: int|
        0 <= i < order.len() && 0 <= k < order[i].needs().len() ==> exists|j: int|
            0 <= j < i && order[j] == #[trigger] order[i].needs()[k]
}

/// Whether every system occurs once in an order of systems.
pub open spec fn complete(order: Seq<SystemId>) -> bool {
    &&& order.len() == SYSTEMS
    &&& forall|i: int, j: int| 0 <= i < j < order.len() ==> order[i] != order[j]
}

/// Every system needs only systems that come before it in the frame.
pub proof fn lemma_needs_come_first(id: SystemId, k: int)
    requires
        0 <= k < id.needs().len(),
    ensures
        id.needs()[k].rank() < id.rank(),
{
}

/// The order contract: in the frame every system runs once, after all that
/// it needs, and the render pass runs last.
pub proof fn lemma_schedule_respects()
    ensures
        respects(schedule()),
        complete(schedule()),
        schedule().last() == SystemId::Render,
{
    let order = schedule();
    assert forall|i: int, k: int| 0 <= i < order.len() && 0 <= k < order[i].needs().len() implies exists|
        j: int,
    |
        0 <= j < i && order[j] == #[trigger] order[i].needs()[k] by {
        let needed = order[i].needs()[k];
        lemma_needs_come_first(order[i], k);
        assert(order[i].rank() == i);
        assert(order[needed.rank()] == needed);
    }
}

/// The schedule is forced: it is the only order in which every system
/// occurs once and comes after all that it needs.
pub proof fn lemma_schedule_is_forced(order: Seq<SystemId>)
    requires
        respects(order),
        complete(order),
    ensures
        order == schedule(),
{
    assert forall|i: int| 0 <= i < order.len() implies order[i] == #[trigger] SystemId::at(i) by {
        lemma_forced_up_to(order, i);
    }
    assert(order =~= schedule());
}

/// In an order in which every system occurs once and comes after all that
/// it needs, each of the first places holds the system of that place in the
/// schedule.
pub proof fn lemma_forced_up_to(order: Seq<SystemId>, n: int)
    requires
        respects(order),
        complete(order),
        0 <= n < order.len(),
    ensures
        forall|i: int| 0 <= i <= n ==> order[i] == #[trigger] SystemId::at(i),
    decreases n,
{
    if n > 0 {
        lemma_forced_up_to(order, n - 1);
    }
    let id = order[n];
    assert(SystemId::at(id.rank()) == id);
    if id.rank() < n {
        assert(order[id.rank()] == SystemId::at(id.rank()));
    } else if id.rank() > n {
        let k = id.needs().len() - 1;
        assert(id.needs()[k].rank() == id.rank() - 1);
        let j = choose|j: int| 0 <= j < n && order[j] == #[trigger] order[n].needs()[k];
        assert(order[j] == SystemId::at(j));
        assert(SystemId::at(j).rank() == j);
    }
}

/// The order in which the systems run in a frame.
pub fn get_schedule() -> (order: Vec<SystemId>)
    ensures
        order@ == schedule(),
{
    let order = vec![
        SystemId::SpawnEnemy,
        SystemId::UpdateAnimation,
        SystemId::FireWeapon,
        SystemId::UpdatePlayer,
        SystemId::UpdateEnemy,
        SystemId::UpdateAttack,
        SystemId::UpdatePhysics,
        SystemId::UpdateCamera,
        SystemId::UpdateMeshes,
        SystemId::Render,
    ];
    assert(order@ =~= schedule());
    order
}

/// An order to the backend, as a frame hands it out.
pub struct Upload {
    pub mesh: int,
    pub action: BufferAction,
    pub rows: Seq<InstanceTileRaw>,
}

/// What a frame changes: the entities, the next name, the clock of the
/// enemies, the centre, the camera, the place of the camera for which the
/// chunks of the ground were chosen and the rows of the chosen chunks, the
/// meshes, and the orders and the render pass that the frame hands out.
pub struct Frame {
    pub records: Seq<Record>,
    pub next_id: u64,
    pub timer_current: u32,
    pub center: Center,
    pub camera: Camera,
    pub camera_pos: [i64; 2],
    pub ground: Seq<InstanceTileRaw>,
    pub meshes: Seq<Mesh>,
    pub uploads: Seq<Upload>,
    pub pass: Seq<RenderCommand>,
}

/// What comes out of a frame: the offset that was drawn for an enemy, the
/// orders to the backend, one for each mesh, and the render pass.
#[derive(Debug, PartialEq, Eq)]
pub struct FrameOutput {
    pub spawn_offset: [i64; 2],
    pub uploads: Vec<BufferCommand>,
    pub pass: Vec<RenderCommand>,
}

/// The orders to the backend as a frame speaks of them.
pub open spec fn uploads_of(commands: Seq<BufferCommand>) -> Seq<Upload> {
    Seq::new(
        commands.len(),
        |i: int| Upload { mesh: commands[i].mesh as int, action: commands[i].action, rows: commands[i].rows@ },
    )
}

/// The changing part of a world and its meshes, with what has been handed
/// out.
pub open spec fn frame_of(
    world: World,
    gpu: GPUResourceManager,
    uploads: Seq<Upload>,
    pass: Seq<RenderCommand>,
) -> Frame {
    Frame {
        records: world.records@,
        next_id: world.next_id,
        timer_current: world.enemy_manager.timer_current,
        center: world.center,
        camera: world.camera,
        camera_pos: world.tile_map_storage.camera_pos,
        ground: world.tile_map_storage.meshes@,
        meshes: gpu.meshes_by_atlas@,
        uploads,
        pass,
    }
}

/// The rows that the mesh at a place is handed in a frame.
pub open spec fn rows_at(env: World, f: Frame, place: int) -> Seq<InstanceTileRaw> {
    UpdateMeshes::rows_for(f.meshes[place].atlas_name@, f.records, env.tile_map_storage.atlas@, f.ground)
}

/// What one system makes of a frame. `env` is the world as the frame began,
/// of which the system reads what no system changes: the keys, the length
/// of the frame, the animations, the kinds of enemies and of projectiles,
/// the chunks of the ground, the name of the player's character. `offset`
/// is the offset that is drawn if an enemy is due.
#[verifier::opaque]
pub open spec fn applied(id: SystemId, env: World, offset: [i64; 2], f: Frame) -> Frame {
    let dt = env.delta_time.0;
    match id {
        SystemId::SpawnEnemy => {
            let manager = EnemyManager { timer_current: f.timer_current, ..env.enemy_manager };
            let records = SpawnEnemy::after(f.records, f.next_id, manager, dt, offset);
            Frame {
                records,
                next_id: (f.next_id + records.len() - f.records.len()) as u64,
                timer_current: manager.timer_after(dt),
                ..f
            }
        },
        SystemId::UpdateAnimation => Frame {
            records: f.records.map_values(|r: Record| UpdateAnimation::updated(r, dt, env.animations)),
            ..f
        },
        SystemId::FireWeapon => Frame {
            records: f.records.map_values(|r: Record| FireWeapon::disarmed(r)) + FireWeapon::bullets(
                FireWeapon::requests(f.records),
                f.next_id,
                env.projectile,
            ),
            next_id: (f.next_id + FireWeapon::requests(f.records).len()) as u64,
            ..f
        },
        SystemId::UpdatePlayer => Frame {
            records: f.records.map_values(|r: Record| UpdatePlayer::updated(r, env.input_handler, dt)),
            ..f
        },
        SystemId::UpdateEnemy => Frame {
            records: f.records.map_values(|r: Record| UpdateEnemy::updated(r, f.center, dt)),
            ..f
        },
        SystemId::UpdateAttack => Frame {
            records: UpdateAttack::survivors(f.records.map_values(|r: Record| UpdateAttack::aged(r, dt))),
            ..f
        },
        SystemId::UpdatePhysics => {
            let records = f.records.map_values(
                |r: Record| UpdatePhysics::moved(r, UpdatePhysics::solids(f.records)),
            );
            Frame { records, center: UpdatePhysics::center_after(records, env.player, f.center), ..f }
        },
        SystemId::UpdateCamera => {
            let target = [f.center.0, f.center.1];
            let map = TileMapStorage { camera_pos: f.camera_pos, ..env.tile_map_storage };
            let camera = Camera { position: target, ..f.camera };
            if map.near(target) {
                Frame { camera, ..f }
            } else {
                Frame {
                    camera,
                    camera_pos: target,
                    ground: visible(map.tiles@, map.anchor(target), 3 * map.chunk_size),
                    ..f
                }
            }
        },
        SystemId::UpdateMeshes => Frame {
            meshes: Seq::new(
                f.meshes.len(),
                |i: int| f.meshes[i].synced(rows_at(env, f, i).len() as u32),
            ),
            uploads: Seq::new(
                f.meshes.len(),
                |i: int|
                    Upload {
                        mesh: i,
                        action: f.meshes[i].decided(rows_at(env, f, i).len() as u32),
                        rows: rows_at(env, f, i),
                    },
            ),
            ..f
        },
        SystemId::Render => Frame { pass: render_pass(f.meshes), ..f },
    }
}

/// What the systems of an order, from a place on, make of a frame one
/// after the other.
pub open spec fn run_from(order: Seq<SystemId>, place: int, env: World, offset: [i64; 2], f: Frame) -> Frame
    decreases order.len() - place,
{
    if 0 <= place < order.len() {
        run_from(order, place + 1, env, offset, applied(order[place], env, offset, f))
    } else {
        f
    }
}

/// What a frame makes of a world and its meshes: the systems run in the
/// order of the schedule.
pub open spec fn frame_after(env: World, gpu: GPUResourceManager, offset: [i64; 2]) -> Frame {
    run_from(schedule(), 0, env, offset, frame_of(env, gpu, Seq::empty(), Seq::empty()))
}

/// The camera follows within the frame: after a frame the camera looks at
/// the centre, which is where the physics of that frame has left the
/// player's character.
pub proof fn lemma_camera_follows(env: World, gpu: GPUResourceManager, offset: [i64; 2])
    ensures
        frame_after(env, gpu, offset).camera.position == [
            frame_after(env, gpu, offset).center.0,
            frame_after(env, gpu, offset).center.1,
        ],
{
    reveal(applied);
    reveal_with_fuel(run_from, 11);
    let f0 = frame_of(env, gpu, Seq::empty(), Seq::empty());
    let order = schedule();
    lemma_run_split(7, env, offset, f0);
    let before = run_to(7, env, offset, f0);
    let f8 = applied(SystemId::UpdateCamera, env, offset, before);
    assert(order[7] == SystemId::UpdateCamera);
    assert(order[8] == SystemId::UpdateMeshes);
    assert(order[9] == SystemId::Render);
    assert(f8.camera.position == [f8.center.0, f8.center.1]);
}

/// What the first `n` systems of the schedule make of a frame.
pub open spec fn run_to(n: int, env: World, offset: [i64; 2], f: Frame) -> Frame
    decreases n,
{
    if n <= 0 {
        f
    } else {
        applied(SystemId::at(n - 1), env, offset, run_to(n - 1, env, offset, f))
    }
}

/// To run the schedule is to run its first `n` systems and then the rest.
pub proof fn lemma_run_split(n: int, env: World, offset: [i64; 2], f: Frame)
    requires
        0 <= n <= SYSTEMS,
    ensures
        run_from(schedule(), 0, env, offset, f) == run_from(schedule(), n, env, offset, run_to(n, env, offset, f)),
    decreases n,
{
    if n > 0 {
        lemma_run_split(n - 1, env, offset, f);
        assert(schedule()[n - 1] == SystemId::at(n - 1));
    }
}

/// Runs the systems of a frame in the order of the schedule.
pub struct UnifiedDispatcher;

/// Whether two worlds agree in what no system changes.
pub open spec fn same_setting(a: World, b: World) -> bool {
    &&& a.player == b.player
    &&& a.animations == b.animations
    &&& a.input_handler == b.input_handler
    &&& a.delta_time == b.delta_time
    &&& a.projectile == b.projectile
    &&& a.enemy_manager.enemy_templates == b.enemy_manager.enemy_templates
    &&& a.enemy_manager.spawn_timer == b.enemy_manager.spawn_timer
    &&& a.tile_map_storage.atlas == b.tile_map_storage.atlas
    &&& a.tile_map_storage.tiles == b.tile_map_storage.tiles
    &&& a.tile_map_storage.chunk_size == b.tile_map_storage.chunk_size
}

/// The changing part of a world and its meshes before anything is handed
/// out.
pub open spec fn state_of(world: World, gpu: GPUResourceManager) -> Frame {
    frame_of(world, gpu, Seq::empty(), Seq::empty())
}

impl UnifiedDispatcher {
    fn step_animation(
        world: &mut World,
        Ghost(gpu): Ghost<GPUResourceManager>,
        Ghost(env): Ghost<World>,
        Ghost(offset): Ghost<[i64; 2]>,
    )
        requires
            old(world).wf(),
            same_setting(*old(world), env),
        ensures
            final(world).wf(),
            same_setting(*final(world), env),
            final(world).tile_map_storage == old(world).tile_map_storage,
            final(world).records.len() == old(world).records.len(),
            final(world).next_id == old(world).next_id,
            all_have_room(old(world).records@) ==> all_have_room(final(world).records@),
            state_of(*final(world), gpu) == applied(
                SystemId::UpdateAnimation,
                env,
                offset,
                state_of(*old(world), gpu),
            ),
    {
        reveal(applied);
        UpdateAnimation.run(&mut world.records, world.delta_time, &world.animations);
    }

    fn step_fire(
        world: &mut World,
        Ghost(gpu): Ghost<GPUResourceManager>,
        Ghost(env): Ghost<World>,
        Ghost(offset): Ghost<[i64; 2]>,
    )
        requires
            old(world).wf(),
            same_setting(*old(world), env),
            old(world).next_id + old(world).records.len() <= u64::MAX,
        ensures
            final(world).wf(),
            same_setting(*final(world), env),
            final(world).tile_map_storage == old(world).tile_map_storage,
            final(world).records.len() <= 2 * old(world).records.len(),
            all_have_room(old(world).records@) ==> all_have_room(final(world).records@),
            state_of(*final(world), gpu) == applied(SystemId::FireWeapon, env, offset, state_of(*old(world), gpu)),
    {
        reveal(applied);
        proof {
            FireWeapon::lemma_requests_len(world.records@);
        }
        FireWeapon.run(&mut world.records, &mut world.next_id, &world.projectile, &world.animations);
    }

    fn step_player(
        world: &mut World,
        Ghost(gpu): Ghost<GPUResourceManager>,
        Ghost(env): Ghost<World>,
        Ghost(offset): Ghost<[i64; 2]>,
    )
        requires
            old(world).wf(),
            same_setting(*old(world), env),
        ensures
            final(world).wf(),
            same_setting(*final(world), env),
            final(world).tile_map_storage == old(world).tile_map_storage,
            final(world).records.len() == old(world).records.len(),
            all_have_room(old(world).records@) ==> all_have_room(final(world).records@),
            state_of(*final(world), gpu) == applied(SystemId::UpdatePlayer, env, offset, state_of(*old(world), gpu)),
    {
        reveal(applied);
        UpdatePlayer.run(&mut world.records, &world.input_handler, world.delta_time, &world.animations);
    }

    fn step_enemy(
        world: &mut World,
        Ghost(gpu): Ghost<GPUResourceManager>,
        Ghost(env): Ghost<World>,
        Ghost(offset): Ghost<[i64; 2]>,
    )
        requires
            old(world).wf(),
            same_setting(*old(world), env),
        ensures
            final(world).wf(),
            same_setting(*final(world), env),
            final(world).tile_map_storage == old(world).tile_map_storage,
            final(world).records.len() == old(world).records.len(),
            all_have_room(old(world).records@) ==> all_have_room(final(world).records@),
            state_of(*final(world), gpu) == applied(SystemId::UpdateEnemy, env, offset, state_of(*old(world), gpu)),
    {
        reveal(applied);
        UpdateEnemy.run(&mut world.records, &world.center, world.delta_time, &world.animations);
    }

    fn step_attack(
        world: &mut World,
        Ghost(gpu): Ghost<GPUResourceManager>,
        Ghost(env): Ghost<World>,
        Ghost(offset): Ghost<[i64; 2]>,
    )
        requires
            old(world).wf(),
            same_setting(*old(world), env),
        ensures
            final(world).wf(),
            same_setting(*final(world), env),
            final(world).tile_map_storage == old(world).tile_map_storage,
            final(world).records.len() <= old(world).records.len(),
            all_have_room(old(world).records@) ==> all_have_room(final(world).records@),
            state_of(*final(world), gpu) == applied(SystemId::UpdateAttack, env, offset, state_of(*old(world), gpu)),
    {
        reveal(applied);
        proof {
            let dt = world.delta_time.0;
            lemma_survivors_len(world.records@.map_values(|r: Record| UpdateAttack::aged(r, dt)));
        }
        UpdateAttack.run(&mut world.records, world.delta_time, &world.animations);
    }

    fn step_physics(
        world: &mut World,
        Ghost(gpu): Ghost<GPUResourceManager>,
        Ghost(env): Ghost<World>,
        Ghost(offset): Ghost<[i64; 2]>,
    )
        requires
            old(world).wf(),
            same_setting(*old(world), env),
            all_have_room(old(world).records@),
        ensures
            final(world).wf(),
            same_setting(*final(world), env),
            final(world).tile_map_storage == old(world).tile_map_storage,
            final(world).records.len() == old(world).records.len(),
            state_of(*final(world), gpu) == applied(
                SystemId::UpdatePhysics,
                env,
                offset,
                state_of(*old(world), gpu),
            ),
    {
        reveal(applied);
        UpdatePhysics.run(&mut world.records, world.player, &mut world.center, &world.animations);
    }

    fn step_camera(
        world: &mut World,
        Ghost(gpu): Ghost<GPUResourceManager>,
        Ghost(env): Ghost<World>,
        Ghost(offset): Ghost<[i64; 2]>,
    )
        requires
            old(world).wf(),
            same_setting(*old(world), env),
            old(world).tile_map_storage == env.tile_map_storage,
        ensures
            final(world).wf(),
            same_setting(*final(world), env),
            final(world).records == old(world).records,
            state_of(*final(world), gpu) == applied(SystemId::UpdateCamera, env, offset, state_of(*old(world), gpu)),
    {
        reveal(applied);
        UpdateCamera.run(&world.center, &mut world.camera, &mut world.tile_map_storage);
    }

    fn step_meshes(
        world: &World,
        gpu: &mut GPUResourceManager,
        Ghost(env): Ghost<World>,
        Ghost(offset): Ghost<[i64; 2]>,
    ) -> (uploads: Vec<BufferCommand>)
        requires
            world.wf(),
            same_setting(*world, env),
            world.records.len() <= u32::MAX,
            crate::resources::tile_map_storage::total_rows(world.tile_map_storage.tiles@) <= u32::MAX,
        ensures
            frame_of(*world, *final(gpu), uploads_of(uploads@), Seq::empty()) == applied(
                SystemId::UpdateMeshes,
                env,
                offset,
                state_of(*world, *old(gpu)),
            ),
            old(gpu).wf() ==> final(gpu).wf(),
    {
        reveal(applied);
        proof {
            lemma_visible_len(
                world.tile_map_storage.tiles@,
                world.tile_map_storage.anchor(world.tile_map_storage.camera_pos),
                3 * world.tile_map_storage.chunk_size,
            );
        }
        let uploads = UpdateMeshes.run(&world.records, &world.tile_map_storage, gpu);
        proof {
            let f = state_of(*world, *old(gpu));
            let g = applied(SystemId::UpdateMeshes, env, offset, f);
            assert(gpu.meshes_by_atlas@ =~= g.meshes);
            assert(uploads_of(uploads@) =~= g.uploads);
        }
        uploads
    }

    fn step_render(
        world: &World,
        gpu: &GPUResourceManager,
        Ghost(uploads): Ghost<Seq<Upload>>,
        Ghost(env): Ghost<World>,
        Ghost(offset): Ghost<[i64; 2]>,
    ) -> (pass: Vec<RenderCommand>)
        ensures
            frame_of(*world, *gpu, uploads, pass@) == applied(
                SystemId::Render,
                env,
                offset,
                frame_of(*world, *gpu, uploads, Seq::empty()),
            ),
    {
        reveal(applied);
        Render.run(gpu)
    }

    /// Runs the systems that follow the spawner of enemies.
    fn run_after_spawn(
        world: &mut World,
        gpu: &mut GPUResourceManager,
        offset: [i64; 2],
        Ghost(env): Ghost<World>,
        Ghost(gpu0): Ghost<GPUResourceManager>,
    ) -> (out: FrameOutput)
        requires
            old(world).wf(),
            all_have_room(old(world).records@),
            old(world).next_id + old(world).records.len() <= u64::MAX,
            2 * old(world).records.len() <= u32::MAX,
            crate::resources::tile_map_storage::total_rows(old(world).tile_map_storage.tiles@) <= u32::MAX,
            same_setting(*old(world), env),
            old(world).tile_map_storage == env.tile_map_storage,
            *old(gpu) == gpu0,
            state_of(*old(world), *old(gpu)) == applied(SystemId::SpawnEnemy, env, offset, state_of(env, gpu0)),
        ensures
            final(world).wf(),
            same_setting(*final(world), env),
            out.spawn_offset == offset,
            frame_of(*final(world), *final(gpu), uploads_of(out.uploads@), out.pass@) == frame_after(
                env,
                gpu0,
                offset,
            ),
            gpu0.wf() ==> final(gpu).wf(),
    {
        let ghost f0 = state_of(env, gpu0);
        Self::step_animation(world, Ghost(gpu0), Ghost(env), Ghost(offset));
        Self::step_fire(world, Ghost(gpu0), Ghost(env), Ghost(offset));
        Self::step_player(world, Ghost(gpu0), Ghost(env), Ghost(offset));
        Self::step_enemy(world, Ghost(gpu0), Ghost(env), Ghost(offset));
        Self::step_attack(world, Ghost(gpu0), Ghost(env), Ghost(offset));
        Self::step_physics(world, Ghost(gpu0), Ghost(env), Ghost(offset));
        Self::step_camera(world, Ghost(gpu0), Ghost(env), Ghost(offset));
        let uploads = Self::step_meshes(world, gpu, Ghost(env), Ghost(offset));
        let pass = Self::step_render(world, gpu, Ghost(uploads_of(uploads@)), Ghost(env), Ghost(offset));
        proof {
            lemma_run_split(SYSTEMS as int, env, offset, f0);
            reveal_with_fuel(run_to, 11);
        }
        FrameOutput { spawn_offset: offset, uploads, pass }
    }

    /// Runs a frame: every system once, in the order of the schedule. The
    /// offset at which an enemy appears, if one is due, is drawn from `rng`
    /// and handed back with the orders to the backend and the render pass.
    pub fn run_now(&self, world: &mut World, gpu: &mut GPUResourceManager, rng: &mut RandomSource) -> (out:
        FrameOutput)
        requires
            old(world).wf(),
            old(world).ready(),
        ensures
            RandomSource::is_offset(out.spawn_offset),
            frame_of(*final(world), *final(gpu), uploads_of(out.uploads@), out.pass@) == frame_after(
                *old(world),
                *old(gpu),
                out.spawn_offset,
            ),
            final(world).wf(),
            same_setting(*final(world), *old(world)),
            old(gpu).wf() ==> final(gpu).wf(),
    {
        let ghost env = *world;
        let ghost gpu0 = *gpu;
        let dt = world.delta_time;
        let offset = SpawnEnemy.run(
            &mut world.records,
            &mut world.next_id,
            &mut world.enemy_manager,
            dt,
            rng,
            &world.animations,
        );
        proof {
            reveal(applied);
        }
        Self::run_after_spawn(world, gpu, offset, Ghost(env), Ghost(gpu0))
    }

    /// Runs a frame as `run_now` does, with the offset at which an enemy
    /// appears, if one is due, given instead of drawn.
    pub fn run_with(&self, world: &mut World, gpu: &mut GPUResourceManager, offset: [i64; 2]) -> (out:
        FrameOutput)
        requires
            old(world).wf(),
            old(world).ready(),
            RandomSource::is_offset(offset),
        ensures
            out.spawn_offset == offset,
            frame_of(*final(world), *final(gpu), uploads_of(out.uploads@), out.pass@) == frame_after(
                *old(world),
                *old(gpu),
                offset,
            ),
            final(world).wf(),
            same_setting(*final(world), *old(world)),
            old(gpu).wf() ==> final(gpu).wf(),
    {
        let ghost env = *world;
        let ghost gpu0 = *gpu;
        let dt = world.delta_time;
        if world.enemy_manager.update_spawn_timer(dt.0) {
            SpawnEnemy::spawn(
                &mut world.records,
                &mut world.next_id,
                &world.enemy_manager,
                offset,
                &world.animations,
            );
        }
        proof {
            reveal(applied);
        }
        Self::run_after_spawn(world, gpu, offset, Ghost(env), Ghost(gpu0))
    }
}

/// There are no more survivors than entities.
pub proof fn lemma_survivors_len(records: Seq<Record>)
    ensures
        UpdateAttack::survivors(records).len() <= records.len(),
    decreases records.len(),
{
    if records.len() > 0 {
        lemma_survivors_len(records.skip(1));
    }
}

/// The dispatcher of the systems.
pub fn new() -> UnifiedDispatcher {
    UnifiedDispatcher
}

} // verus!
