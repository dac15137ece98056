use iso_engine::renderer::InstanceTileRaw;
use iso_engine::resources::{Camera, Center, TileChunk, TileMapStorage};
use iso_engine::system::UpdateCamera;

fn ground_row(x: i64, y: i64) -> InstanceTileRaw {
    InstanceTileRaw {
        uv: [83_333, 62_500],
        model: [[1_000_000, 0, 0, 0], [0, 1_000_000, 0, 0], [0, 0, 1_000_000, 0], [x, y, 0, 1_000_000]],
    }
}

#[test]
fn chunk_holds_its_tiles_column_by_column() {
    let chunk = TileChunk::new([0, 0], 1);
    assert_eq!(chunk.center_position, [0, 0]);
    assert_eq!(
        chunk.meshes,
        vec![
            ground_row(-1_000_000, -1_000_000),
            ground_row(-1_000_000, 0),
            ground_row(0, -1_000_000),
            ground_row(0, 0),
        ]
    );
}

#[test]
fn chunk_lies_around_its_centre() {
    let chunk = TileChunk::new([40_000_000, -20_000_000], 10);
    assert_eq!(chunk.meshes.len(), 400);
    assert_eq!(chunk.meshes[0], ground_row(30_000_000, -30_000_000));
    assert_eq!(chunk.meshes[1], ground_row(30_000_000, -29_000_000));
    assert_eq!(chunk.meshes[20], ground_row(31_000_000, -30_000_000));
    assert_eq!(chunk.meshes[399], ground_row(49_000_000, -11_000_000));
}

#[test]
fn chunk_of_no_size_is_empty() {
    assert_eq!(TileChunk::new([5, 5], 0).meshes.len(), 0);
}

#[test]
fn ground_is_laid_out_chunk_by_chunk() {
    let map = TileMapStorage::new(3, 10);
    assert_eq!(map.atlas, "world");
    assert_eq!(map.chunk_size, 10_000_000);
    assert_eq!(map.camera_pos, [0, 0]);
    assert_eq!(map.tiles.len(), 36);
    assert_eq!(map.tiles[0].center_position, [-60_000_000, -60_000_000]);
    assert_eq!(map.tiles[1].center_position, [-60_000_000, -40_000_000]);
    assert_eq!(map.tiles[6].center_position, [-40_000_000, -60_000_000]);
    assert_eq!(map.tiles[21].center_position, [0, 0]);
    assert_eq!(map.tiles[35].center_position, [40_000_000, 40_000_000]);
    assert_eq!(map.count_rows(), Some(36 * 400));
}

#[test]
fn nine_chunks_are_drawn_around_the_origin() {
    let map = TileMapStorage::new(3, 10);
    assert_eq!(map.meshes.len(), 9 * 400);
    assert_eq!(map.get_meshes(), map.meshes);
    assert_eq!(map.meshes[0], ground_row(-30_000_000, -30_000_000));
    assert_eq!(map.meshes[400], ground_row(-30_000_000, -10_000_000));
    assert_eq!(map.meshes[3_599], ground_row(29_000_000, 29_000_000));
}

#[test]
fn collect_takes_the_chunks_within_reach() {
    let map = TileMapStorage::new(3, 10);
    assert_eq!(TileMapStorage::collect(&map.tiles, [0, 0], 20_000_000).len(), 400);
    assert_eq!(TileMapStorage::collect(&map.tiles, [0, 0], 20_000_001).len(), 9 * 400);
    assert_eq!(TileMapStorage::collect(&map.tiles, [0, 0], 0).len(), 0);
    assert_eq!(TileMapStorage::collect(&map.tiles, [-60_000_000, -60_000_000], 30_000_000).len(), 4 * 400);
    assert_eq!(TileMapStorage::collect(&map.tiles, [10_000_000, 0], 30_000_000).len(), 6 * 400);
}

#[test]
fn snap_goes_to_the_nearest_centre() {
    assert_eq!(TileMapStorage::snap(0, 10_000_000), 0);
    assert_eq!(TileMapStorage::snap(9_999_999, 10_000_000), 0);
    assert_eq!(TileMapStorage::snap(10_000_000, 10_000_000), 20_000_000);
    assert_eq!(TileMapStorage::snap(29_999_999, 10_000_000), 20_000_000);
    assert_eq!(TileMapStorage::snap(30_000_000, 10_000_000), 40_000_000);
    assert_eq!(TileMapStorage::snap(-9_999_999, 10_000_000), 0);
    assert_eq!(TileMapStorage::snap(-10_000_000, 10_000_000), -20_000_000);
    assert_eq!(TileMapStorage::snap(-30_000_000, 10_000_000), -40_000_000);
    assert_eq!(TileMapStorage::snap(7, 1), 8);
    assert_eq!(TileMapStorage::snap(1_000_000_000_000_000_000, 1), 1_000_000_000_000_000_000);
}

#[test]
fn small_moves_of_the_camera_change_nothing() {
    let mut map = TileMapStorage::new(3, 10);
    let before = TileMapStorage::new(3, 10);
    for camera in [
        [1, 1],
        [9_999_999, 0],
        [-9_999_999, 9_999_999],
        [0, -9_999_999],
        [9_999_999, -9_999_999],
        [0, 0],
    ] {
        map.update_tile_grid(camera);
        assert_eq!(map, before);
    }
}

#[test]
fn crossing_half_a_chunk_chooses_anew() {
    let mut map = TileMapStorage::new(3, 10);
    map.update_tile_grid([10_000_000, 0]);
    assert_eq!(map.camera_pos, [10_000_000, 0]);
    assert_eq!(map.get_anchor(map.camera_pos), [20_000_000, 0]);
    assert_eq!(map.meshes.len(), 9 * 400);
    assert_eq!(map.meshes[0], ground_row(-10_000_000, -30_000_000));
    assert_eq!(map.meshes[3_599], ground_row(49_000_000, 29_000_000));
    assert_eq!(map.tiles.len(), 36);
    assert_eq!(map.chunk_size, 10_000_000);
}

#[test]
fn crossing_along_the_other_axis_chooses_anew() {
    for camera in [[0, 10_000_000], [0, -10_000_000], [-10_000_000, 0], [12_000_000, -14_000_000]] {
        let mut map = TileMapStorage::new(3, 10);
        map.update_tile_grid(camera);
        assert_eq!(map.camera_pos, camera);
        let anchor = map.get_anchor(camera);
        assert_ne!(anchor, [0, 0], "{camera:?}");
        assert_eq!(anchor[0] % 20_000_000, 0);
        assert_eq!(anchor[1] % 20_000_000, 0);
        assert!((anchor[0] - camera[0]).abs() <= 10_000_000);
        assert!((anchor[1] - camera[1]).abs() <= 10_000_000);
        assert_eq!(map.meshes, TileMapStorage::collect(&map.tiles, anchor, 30_000_000));
    }
}

#[test]
fn the_band_lies_around_where_the_camera_stood() {
    let mut map = TileMapStorage::new(3, 10);
    map.update_tile_grid([15_000_000, 0]);
    assert_eq!(map.camera_pos, [15_000_000, 0]);
    let rows = map.meshes.clone();
    assert_eq!(rows, TileMapStorage::collect(&map.tiles, [20_000_000, 0], 30_000_000));
    map.update_tile_grid([5_000_001, 0]);
    map.update_tile_grid([24_999_999, 9_999_999]);
    map.update_tile_grid([15_000_000, -9_999_999]);
    assert_eq!(map.camera_pos, [15_000_000, 0]);
    assert_eq!(map.meshes, rows);
    map.update_tile_grid([5_000_000, 0]);
    assert_eq!(map.camera_pos, [5_000_000, 0]);
    assert_eq!(map.meshes, TileMapStorage::new(3, 10).meshes);
}

#[test]
fn a_small_step_back_after_a_choice_changes_nothing() {
    let mut map = TileMapStorage::default();
    map.update_tile_grid([12_000_000, 0]);
    assert_eq!(map.camera_pos, [12_000_000, 0]);
    let after = map.get_meshes();
    assert_eq!(after.len(), 3_600);
    assert_eq!(after[0], ground_row(-10_000_000, -30_000_000));
    map.update_tile_grid([9_900_000, 0]);
    assert_eq!(map.camera_pos, [12_000_000, 0]);
    assert_eq!(map.get_meshes(), after);
}

#[test]
fn a_camera_that_swings_about_a_threshold_chooses_once() {
    let mut map = TileMapStorage::new(3, 10);
    let first = map.meshes.clone();
    map.update_tile_grid([9_500_000, 0]);
    assert_eq!(map.camera_pos, [0, 0]);
    assert_eq!(map.meshes, first);
    map.update_tile_grid([10_500_000, 0]);
    assert_eq!(map.camera_pos, [10_500_000, 0]);
    let chosen = map.meshes.clone();
    assert_ne!(chosen, first);
    for _ in 0..10 {
        map.update_tile_grid([9_500_000, 0]);
        map.update_tile_grid([10_500_000, 0]);
        assert_eq!(map.camera_pos, [10_500_000, 0]);
        assert_eq!(map.meshes, chosen);
    }
}

#[test]
fn default_ground_near_the_origin() {
    let mut map = TileMapStorage::default();
    let before = map.get_meshes();
    map.update_tile_grid([9_900_000, -9_900_000]);
    assert_eq!(map.get_meshes(), before);
    assert_eq!(before.len(), 3_600);
    assert_eq!(before[0].model[3], [-30_000_000, -30_000_000, 0, 1_000_000]);
    map.update_tile_grid([10_000_000, 0]);
    assert_eq!(map.get_meshes().len(), 3_600);
    assert_eq!(map.get_meshes()[0].model[3], [-10_000_000, -30_000_000, 0, 1_000_000]);
}

#[test]
fn at_the_edge_of_the_ground_fewer_chunks_are_drawn() {
    let mut map = TileMapStorage::new(1, 10);
    assert_eq!(map.tiles.len(), 4);
    assert_eq!(map.meshes.len(), 4 * 400);
    map.update_tile_grid([45_000_000, 0]);
    assert_eq!(map.camera_pos, [45_000_000, 0]);
    assert_eq!(map.get_anchor(map.camera_pos), [40_000_000, 0]);
    assert_eq!(map.meshes.len(), 0);
    map.update_tile_grid([25_000_000, 0]);
    assert_eq!(map.camera_pos, [25_000_000, 0]);
    assert_eq!(map.get_anchor(map.camera_pos), [20_000_000, 0]);
    assert_eq!(map.meshes.len(), 2 * 400);
}

#[test]
fn camera_moves_by_what_it_is_told() {
    let mut camera = Camera::init_orthographic(16, 12);
    assert_eq!(camera.position, [0, 0]);
    assert_eq!(camera.move_camera([500_000, -250_000]), [500_000, -250_000]);
    assert_eq!(camera.move_camera([500_000, -250_000]), [1_000_000, -500_000]);
    assert_eq!(camera.position, [1_000_000, -500_000]);
    assert_eq!(camera.extent, [16, 12]);
}

#[test]
fn camera_shows_its_extent_around_its_position() {
    let mut camera = Camera::init_orthographic(16, 12);
    assert_eq!(camera.get_view(), [-8_000_000, 8_000_000, -6_000_000, 6_000_000]);
    camera.move_camera([1_000_000, 2_000_000]);
    assert_eq!(camera.get_view(), [-7_000_000, 9_000_000, -4_000_000, 8_000_000]);
}

#[test]
fn resize_changes_the_viewport_alone() {
    let mut camera = Camera::init_orthographic(16, 12);
    camera.move_camera([5, 6]);
    camera.resize(1_024, 768);
    assert_eq!(camera.viewport, [1_024, 768]);
    assert_eq!(camera.extent, [16, 12]);
    assert_eq!(camera.position, [5, 6]);
}

#[test]
fn camera_system_follows_the_centre() {
    let mut camera = Camera::init_orthographic(16, 12);
    let mut map = TileMapStorage::new(3, 10);
    UpdateCamera.run(&Center(3_000_000, -4_000_000), &mut camera, &mut map);
    assert_eq!(camera.position, [3_000_000, -4_000_000]);
    assert_eq!(map.camera_pos, [0, 0]);
    UpdateCamera.run(&Center(13_000_000, -4_000_000), &mut camera, &mut map);
    assert_eq!(camera.position, [13_000_000, -4_000_000]);
    assert_eq!(map.camera_pos, [13_000_000, -4_000_000]);
    assert_eq!(map.meshes, TileMapStorage::collect(&map.tiles, [20_000_000, 0], 30_000_000));
    UpdateCamera.run(&Center(9_000_000, 0), &mut camera, &mut map);
    assert_eq!(camera.position, [9_000_000, 0]);
    assert_eq!(map.camera_pos, [13_000_000, -4_000_000]);
}

#[test]
fn default_chunk_is_one_wide_tile() {
    let chunk = TileChunk::default();
    assert_eq!(chunk.center_position, [0, 0]);
    assert_eq!(chunk.meshes.len(), 1);
    assert_eq!(chunk.meshes[0].uv, [83_333, 62_500]);
    assert_eq!(
        chunk.meshes[0].model,
        [[2_000_000, 0, 0, 0], [0, 1_000_000, 0, 0], [0, 0, 1_000_000, 0], [0, 0, 0, 1_000_000]]
    );
}

#[test]
fn default_ground_is_forty_by_forty_chunks() {
    let map = TileMapStorage::default();
    assert_eq!(map.tiles.len(), 1_600);
    assert_eq!(map.chunk_size, 10_000_000);
    assert_eq!(map.meshes.len(), 3_600);
    assert_eq!(map.tiles[0].center_position, [-400_000_000, -400_000_000]);
    assert_eq!(map.tiles[1_599].center_position, [380_000_000, 380_000_000]);
    assert_eq!(map.count_rows(), Some(640_000));
}
