use iso_engine::components::{Tile, Transform};
use iso_engine::renderer::{BufferAction, GPUResourceManager, InstanceTileRaw, Mesh, RenderCommand};
use iso_engine::resources::TileMapStorage;
use iso_engine::system::{Render, UpdateMeshes};
use iso_engine::world::{Entity, Record};

fn rows(n: usize) -> Vec<InstanceTileRaw> {
    (0..n).map(|i| InstanceTileRaw { uv: [i as u64, 0], model: [[0; 4]; 4] }).collect()
}

fn manager() -> GPUResourceManager {
    let mut gpu = GPUResourceManager::default();
    gpu.add_mesh("world".to_string(), 6);
    gpu.add_mesh("character".to_string(), 6);
    gpu.add_mesh("enemy/zombie".to_string(), 12);
    gpu
}

fn sprite(entity: u64, atlas: &str, x: i64) -> Record {
    let mut r = Record::new(Entity(entity));
    r.tile = Some(Tile { tile_index: [2, 1], uv_size: [62_500, 125_000], atlas: atlas.to_string() });
    r.transform = Some(Transform::new([x, 0, 7], [2_000_000, 2_000_000]));
    r
}

#[test]
fn row_of_a_sprite() {
    let r = sprite(0, "character", 5);
    let row = InstanceTileRaw::new(r.tile.as_ref().unwrap(), r.transform.as_ref().unwrap());
    assert_eq!(row.uv, [125_000, 125_000]);
    assert_eq!(
        row.model,
        [[2_000_000, 0, 0, 0], [0, 2_000_000, 0, 0], [0, 0, 1_000_000, 0], [5, 0, 7, 1_000_000]]
    );
}

#[test]
fn a_buffer_is_never_made_empty() {
    assert_eq!(iso_engine::renderer::get_buffer_rows(0), 1);
    assert_eq!(iso_engine::renderer::get_buffer_rows(1), 1);
    assert_eq!(iso_engine::renderer::get_buffer_rows(7), 7);
    assert_eq!(iso_engine::renderer::get_buffer_rows(usize::MAX), usize::MAX);
}

#[test]
fn new_mesh_has_no_buffer() {
    let m = Mesh::new("character".to_string(), 6);
    assert_eq!(m.num_indices, 6);
    assert_eq!(m.num_instances, 0);
    assert!(!m.has_instance_buffer);
}

#[test]
fn same_number_of_rows_is_written_in_place() {
    let mut gpu = manager();
    let name = "character".to_string();
    let first = gpu.update_mesh_instance(&name, rows(3));
    assert_eq!(first.action, BufferAction::Create);
    assert_eq!(first.mesh, 1);
    assert_eq!(first.rows, rows(3));
    let second = gpu.update_mesh_instance(&name, rows(3));
    assert_eq!(second.action, BufferAction::Write);
    assert_eq!(second.rows, rows(3));
    assert_eq!(gpu.meshes_by_atlas[1].num_instances, 3);
    let third = gpu.update_mesh_instance(&name, rows(3));
    assert_eq!(third.action, BufferAction::Write);
}

#[test]
fn another_number_of_rows_makes_a_buffer() {
    let mut gpu = manager();
    let name = "character".to_string();
    gpu.update_mesh_instance(&name, rows(3));
    assert_eq!(gpu.update_mesh_instance(&name, rows(4)).action, BufferAction::Create);
    assert_eq!(gpu.meshes_by_atlas[1].num_instances, 4);
    assert_eq!(gpu.update_mesh_instance(&name, rows(2)).action, BufferAction::Create);
    assert_eq!(gpu.meshes_by_atlas[1].num_instances, 2);
    assert_eq!(gpu.update_mesh_instance(&name, rows(2)).action, BufferAction::Write);
}

#[test]
fn no_rows_draw_nothing_and_keep_the_mesh() {
    let mut gpu = manager();
    let name = "character".to_string();
    gpu.update_mesh_instance(&name, rows(3));
    let none = gpu.update_mesh_instance(&name, rows(0));
    assert_eq!(none.action, BufferAction::Create);
    assert_eq!(gpu.meshes_by_atlas.len(), 3);
    assert_eq!(gpu.meshes_by_atlas[1].atlas_name, "character");
    assert_eq!(gpu.meshes_by_atlas[1].num_instances, 0);
    assert!(gpu.meshes_by_atlas[1].has_instance_buffer);
    assert_eq!(gpu.update_mesh_instance(&name, rows(0)).action, BufferAction::Write);
    assert_eq!(gpu.update_mesh_instance(&name, rows(3)).action, BufferAction::Create);
}

#[test]
fn first_rows_make_a_buffer_even_if_there_are_none() {
    let mut gpu = manager();
    let name = "enemy/zombie".to_string();
    let first = gpu.update_mesh_instance(&name, rows(0));
    assert_eq!(first.action, BufferAction::Create);
    assert_eq!(first.mesh, 2);
    assert!(gpu.meshes_by_atlas[2].has_instance_buffer);
}

#[test]
fn other_meshes_are_left_alone() {
    let mut gpu = manager();
    gpu.update_mesh_instance(&"character".to_string(), rows(3));
    assert_eq!(gpu.meshes_by_atlas[0], Mesh::new("world".to_string(), 6));
    assert_eq!(gpu.meshes_by_atlas[2], Mesh::new("enemy/zombie".to_string(), 12));
}

#[test]
fn meshes_are_found_by_name() {
    let gpu = manager();
    assert_eq!(gpu.find(&"world".to_string()), Some(0));
    assert_eq!(gpu.find(&"enemy/zombie".to_string()), Some(2));
    assert_eq!(gpu.find(&"enemy/ant".to_string()), None);
}

#[test]
fn sync_and_replace_of_a_mesh() {
    let mut m = Mesh::new("a".to_string(), 6);
    assert_eq!(m.sync(0), BufferAction::Create);
    assert_eq!(m.sync(0), BufferAction::Write);
    assert_eq!(m.sync(5), BufferAction::Create);
    assert_eq!(m.num_instances, 5);
    m.replace_instance(9);
    assert_eq!(m.num_instances, 9);
    assert!(m.has_instance_buffer);
    assert_eq!(m.sync(9), BufferAction::Write);
}

#[test]
fn render_pass_skips_meshes_without_a_buffer() {
    let mut gpu = manager();
    assert_eq!(
        gpu.render(),
        vec![RenderCommand::BeginRenderPass, RenderCommand::SetCameraBindGroup, RenderCommand::Present]
    );
    gpu.update_mesh_instance(&"enemy/zombie".to_string(), rows(2));
    assert_eq!(
        Render.run(&gpu),
        vec![
            RenderCommand::BeginRenderPass,
            RenderCommand::SetCameraBindGroup,
            RenderCommand::SetAtlasBindGroup { mesh: 2 },
            RenderCommand::SetVertexBuffer { mesh: 2 },
            RenderCommand::SetInstanceBuffer { mesh: 2 },
            RenderCommand::SetIndexBuffer { mesh: 2 },
            RenderCommand::DrawIndexed { num_indices: 12, num_instances: 2 },
            RenderCommand::Present,
        ]
    );
}

#[test]
fn render_pass_draws_the_meshes_in_their_order() {
    let mut gpu = manager();
    gpu.update_mesh_instance(&"character".to_string(), rows(1));
    gpu.update_mesh_instance(&"world".to_string(), rows(7));
    let pass = gpu.render();
    assert_eq!(pass.len(), 13);
    assert_eq!(pass[2], RenderCommand::SetAtlasBindGroup { mesh: 0 });
    assert_eq!(pass[6], RenderCommand::DrawIndexed { num_indices: 6, num_instances: 7 });
    assert_eq!(pass[7], RenderCommand::SetAtlasBindGroup { mesh: 1 });
    assert_eq!(pass[11], RenderCommand::DrawIndexed { num_indices: 6, num_instances: 1 });
    assert_eq!(pass[12], RenderCommand::Present);
}

#[test]
fn rows_are_collected_by_atlas_in_the_order_of_the_entities() {
    let records = vec![
        sprite(0, "character", 1),
        sprite(1, "enemy/zombie", 2),
        Record::new(Entity(2)),
        sprite(3, "enemy/zombie", 3),
        sprite(4, "projectiles", 4),
    ];
    let zombies = UpdateMeshes::collect(&records, &"enemy/zombie".to_string());
    assert_eq!(zombies.len(), 2);
    assert_eq!(zombies[0].model[3][0], 2);
    assert_eq!(zombies[1].model[3][0], 3);
    assert_eq!(UpdateMeshes::collect(&records, &"character".to_string()).len(), 1);
    assert_eq!(UpdateMeshes::collect(&records, &"world".to_string()).len(), 0);
}

#[test]
fn sprite_without_a_place_is_not_drawn() {
    let mut r = sprite(0, "character", 1);
    r.transform = None;
    assert_eq!(UpdateMeshes::collect(&vec![r], &"character".to_string()).len(), 0);
}

#[test]
fn mesh_system_hands_every_mesh_its_rows() {
    let map = TileMapStorage::new(1, 1);
    let records = vec![sprite(0, "character", 1), sprite(1, "enemy/zombie", 2), sprite(2, "enemy/zombie", 3)];
    let mut gpu = manager();
    let commands = UpdateMeshes.run(&records, &map, &mut gpu);
    assert_eq!(commands.len(), 3);
    assert_eq!(commands[0].mesh, 0);
    assert_eq!(commands[0].rows, map.meshes);
    assert_eq!(commands[0].rows.len(), 16);
    assert_eq!(commands[1].rows.len(), 1);
    assert_eq!(commands[2].rows.len(), 2);
    assert!(commands.iter().all(|c| c.action == BufferAction::Create));
    let again = UpdateMeshes.run(&records, &map, &mut gpu);
    assert!(again.iter().all(|c| c.action == BufferAction::Write));
    let fewer = UpdateMeshes.run(&records[..2].to_vec_records(), &map, &mut gpu);
    assert_eq!(fewer[0].action, BufferAction::Write);
    assert_eq!(fewer[1].action, BufferAction::Write);
    assert_eq!(fewer[2].action, BufferAction::Create);
    assert_eq!(gpu.meshes_by_atlas[2].num_instances, 1);
}

trait ToRecords {
    fn to_vec_records(&self) -> Vec<Record>;
}

impl ToRecords for [Record] {
    fn to_vec_records(&self) -> Vec<Record> {
        self.iter()
            .map(|r| {
                let mut copy = Record::new(r.entity);
                copy.transform = r.transform;
                copy.tile = r.tile.as_ref().map(|t| t.duplicate());
                copy
            })
            .collect()
    }
}
