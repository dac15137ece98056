use iso_engine::components::{
    Animation, Attack, AttackMaker, BodyType, Collider, Direction, Enemy, Player, Tile, Transform,
};
use iso_engine::resources::{
    AnimationData, AnimationDataHandler, Center, DeltaTime, InputHandler, ProjectileTemplate,
};
use iso_engine::system::{FireWeapon, UpdateAnimation, UpdateAttack, UpdateEnemy, UpdatePlayer};
use iso_engine::units::UNIT;
use iso_engine::world::{Entity, Record};

fn sequence(first: u8, frames: u8, duration: u32) -> AnimationData {
    let cells: Vec<[u8; 2]> = (0..frames).map(|i| [first + i, 0]).collect();
    let dt: Vec<u32> = (0..frames).map(|_| duration).collect();
    AnimationData::new(cells, dt).unwrap()
}

fn animations() -> AnimationDataHandler {
    let mut handler = AnimationDataHandler::default();
    handler
        .add(
            "player".to_string(),
            vec![sequence(0, 4, 100), sequence(4, 6, 100), sequence(10, 2, 100), sequence(12, 2, 100)],
        )
        .unwrap();
    handler
        .add(
            "enemy/zombie".to_string(),
            vec![sequence(0, 4, 100), sequence(4, 6, 100), sequence(10, 3, 100)],
        )
        .unwrap();
    handler
}

fn keys(up: bool, down: bool, left: bool, right: bool, attack1: bool) -> InputHandler {
    InputHandler { up, down, left, right, attack1 }
}

fn hero(x: i64, y: i64) -> Record {
    let mut r = Record::new(Entity(0));
    r.player = Some(Player { speed: 5_000 });
    r.attack_maker = Some(AttackMaker::default());
    r.collider = Some(Collider::default());
    r.transform = Some(Transform { position: [x, y, 0], size: [UNIT, UNIT], direction: Direction::Down });
    r.animation = Some(Animation::new(0, Direction::Down));
    r.tile = Some(Tile { tile_index: [0, 0], uv_size: [62_500, 125_000], atlas: "character".to_string() });
    r
}

fn zombie(x: i64, y: i64) -> Record {
    let mut r = Record::new(Entity(1));
    r.enemy = Some(Enemy::new(2_000));
    r.collider = Some(Collider::default());
    r.transform = Some(Transform { position: [x, y, 0], size: [UNIT, UNIT], direction: Direction::Down });
    r.animation = Some(Animation::new(1, Direction::Down));
    r.tile = Some(Tile { tile_index: [0, 0], uv_size: [62_500, 62_500], atlas: "enemy/zombie".to_string() });
    r
}

#[test]
fn player_walks_where_the_keys_point() {
    let animations = animations();
    let mut records = vec![hero(0, 0)];
    UpdatePlayer.run(&mut records, &keys(false, false, false, true, false), DeltaTime(100), &animations);
    let r = &records[0];
    assert_eq!(r.collider.unwrap().velocity, [500_000, 0]);
    assert_eq!(r.transform.unwrap().direction, Direction::Right);
    assert_eq!(r.animation.unwrap().current_sequence, 1);
    assert_eq!(r.animation.unwrap().facing, Direction::Right);
    assert_eq!(r.animation.unwrap().speed_scale, 1_000);
    assert_eq!(r.attack_maker.unwrap().fire, false);
    assert_eq!(r.transform.unwrap().position, [0, 0, 0]);
}

#[test]
fn player_walks_the_diagonal_isometrically() {
    let animations = animations();
    let mut records = vec![hero(0, 0)];
    UpdatePlayer.run(&mut records, &keys(true, false, true, false, false), DeltaTime(100), &animations);
    assert_eq!(records[0].collider.unwrap().velocity, [-447_213, 223_606]);
    assert_eq!(records[0].transform.unwrap().direction, Direction::UpLeft);
}

#[test]
fn opposite_keys_cancel_but_still_walk() {
    let animations = animations();
    let mut records = vec![hero(0, 0)];
    UpdatePlayer.run(&mut records, &keys(true, true, false, false, false), DeltaTime(100), &animations);
    assert_eq!(records[0].collider.unwrap().velocity, [0, 0]);
    assert_eq!(records[0].transform.unwrap().direction, Direction::Down);
    assert_eq!(records[0].animation.unwrap().current_sequence, 1);
}

#[test]
fn player_at_rest_plays_the_rest() {
    let animations = animations();
    let mut records = vec![hero(0, 0)];
    UpdatePlayer.run(&mut records, &keys(false, false, false, true, false), DeltaTime(100), &animations);
    UpdatePlayer.run(&mut records, &InputHandler::default(), DeltaTime(100), &animations);
    assert_eq!(records[0].collider.unwrap().velocity, [0, 0]);
    assert_eq!(records[0].animation.unwrap().current_sequence, 0);
    assert_eq!(records[0].transform.unwrap().direction, Direction::Right);
}

#[test]
fn attack_stops_the_player_and_sets_the_latch() {
    let animations = animations();
    let mut records = vec![hero(0, 0)];
    UpdatePlayer.run(&mut records, &keys(false, false, false, true, true), DeltaTime(100), &animations);
    let r = &records[0];
    assert_eq!(r.collider.unwrap().velocity, [0, 0]);
    assert_eq!(r.transform.unwrap().direction, Direction::Right);
    assert!(r.attack_maker.unwrap().fire);
    let a = r.animation.unwrap();
    assert_eq!(a.current_sequence, 3);
    assert!(a.loop_lock);
    assert_eq!(a.resume_sequence, 0);
}

#[test]
fn locked_player_is_not_steered() {
    let animations = animations();
    let mut records = vec![hero(0, 0)];
    UpdatePlayer.run(&mut records, &keys(false, false, false, false, true), DeltaTime(100), &animations);
    let locked = records[0].animation;
    let facing = records[0].transform.unwrap().direction;
    UpdatePlayer.run(&mut records, &keys(true, false, false, false, false), DeltaTime(100), &animations);
    assert_eq!(records[0].animation, locked);
    assert_eq!(records[0].transform.unwrap().direction, facing);
    assert_eq!(records[0].collider.unwrap().velocity, [0, 0]);
}

#[test]
fn entity_without_a_player_is_left_alone() {
    let animations = animations();
    let mut records = vec![zombie(0, 0), Record::new(Entity(7))];
    let before = vec![zombie(0, 0), Record::new(Entity(7))];
    UpdatePlayer.run(&mut records, &keys(true, false, false, true, true), DeltaTime(100), &animations);
    assert_eq!(records, before);
}

#[test]
fn the_wished_movement_and_sequence() {
    assert_eq!(UpdatePlayer::wished_movement(&keys(true, false, false, true, false), 5_000, 100), [500_000, 500_000]);
    assert_eq!(UpdatePlayer::wished_movement(&keys(false, true, true, false, false), 5_000, 100), [-500_000, -500_000]);
    assert_eq!(UpdatePlayer::wished_movement(&keys(true, true, true, true, true), 5_000, 100), [0, 0]);
    assert_eq!(
        UpdatePlayer::wished_movement(&keys(false, false, false, true, false), u32::MAX, u16::MAX),
        [4_294_967_295 * 65_535, 0]
    );
    assert_eq!(UpdatePlayer::wished(&keys(false, false, false, false, false)), 0);
    assert_eq!(UpdatePlayer::wished(&keys(false, true, false, false, false)), 1);
    assert_eq!(UpdatePlayer::wished(&keys(false, true, false, false, true)), 3);
}

#[test]
fn enemy_in_sight_gives_chase() {
    let animations = animations();
    let mut records = vec![zombie(0, 0)];
    UpdateEnemy.run(&mut records, &Center(3_000_000, 0), DeltaTime(100), &animations);
    let r = &records[0];
    assert_eq!(r.enemy.unwrap().tick, 0);
    assert_eq!(r.animation.unwrap().current_sequence, 1);
    assert_eq!(r.animation.unwrap().speed_scale, 2_500);
    assert_eq!(r.transform.unwrap().direction, Direction::Right);
    assert_eq!(r.collider.unwrap().velocity, [200_000, 0]);
}

#[test]
fn enemy_chases_along_the_diagonal_isometrically() {
    let animations = animations();
    let mut records = vec![zombie(0, 0)];
    UpdateEnemy.run(&mut records, &Center(-3_000_000, -3_000_000), DeltaTime(100), &animations);
    assert_eq!(records[0].transform.unwrap().direction, Direction::DownLeft);
    assert_eq!(records[0].collider.unwrap().velocity, [-178_885, -89_442]);
}

#[test]
fn enemy_close_by_strikes_under_a_lock() {
    let animations = animations();
    let mut records = vec![zombie(0, 0)];
    UpdateEnemy.run(&mut records, &Center(1_000_000, 0), DeltaTime(100), &animations);
    let r = &records[0];
    let a = r.animation.unwrap();
    assert_eq!(a.current_sequence, 2);
    assert!(a.loop_lock);
    assert_eq!(a.resume_sequence, 0);
    assert_eq!(r.collider.unwrap().velocity, [0, 0]);
    assert_eq!(r.transform.unwrap().direction, Direction::Right);
}

#[test]
fn enemy_that_strikes_is_locked_even_in_its_attack_sequence() {
    let animations = animations();
    let mut records = vec![zombie(0, 0)];
    let mut a = Animation::new(1, Direction::Down);
    a.current_sequence = 2;
    a.resume_sequence = 1;
    records[0].animation = Some(a);
    UpdateEnemy.run(&mut records, &Center(1_000_000, 0), DeltaTime(100), &animations);
    let a = records[0].animation.unwrap();
    assert_eq!(a.current_sequence, 2);
    assert!(a.loop_lock);
    assert_eq!(a.resume_sequence, 1);
    assert_eq!(a.speed_scale, 1_000);
    assert_eq!(records[0].collider.unwrap().velocity, [0, 0]);
}

#[test]
fn enemy_out_of_sight_rests() {
    let animations = animations();
    let mut records = vec![zombie(0, 0)];
    records[0].collider = Some(Collider { velocity: [5, 5], ..Collider::default() });
    UpdateEnemy.run(&mut records, &Center(10_000_000, 0), DeltaTime(100), &animations);
    let r = &records[0];
    assert_eq!(r.animation.unwrap().current_sequence, 0);
    assert_eq!(r.collider.unwrap().velocity, [0, 0]);
    assert_eq!(r.transform.unwrap().direction, Direction::Down);
}

#[test]
fn the_tiers_of_distance() {
    let at = Transform::new([0, 0, 0], [UNIT, UNIT]);
    assert_eq!(UpdateEnemy::get_tier(&at, &Center(0, 0)), 2);
    assert_eq!(UpdateEnemy::get_tier(&at, &Center(1_000_000, 999_999)), 2);
    assert_eq!(UpdateEnemy::get_tier(&at, &Center(1_000_000, 1_000_000)), 1);
    assert_eq!(UpdateEnemy::get_tier(&at, &Center(9_486_832, 0)), 1);
    assert_eq!(UpdateEnemy::get_tier(&at, &Center(9_486_833, 0)), 0);
    assert_eq!(UpdateEnemy::get_tier(&at, &Center(i64::MAX, i64::MIN)), 0);
    assert_eq!(UpdateEnemy::get_tier(&at, &Center(-10_000_000, 0)), 0);
}

#[test]
fn enemy_turns_only_when_it_looks() {
    let animations = animations();
    let mut records = vec![zombie(0, 0)];
    UpdateEnemy.run(&mut records, &Center(3_000_000, 0), DeltaTime(100), &animations);
    UpdateEnemy.run(&mut records, &Center(0, 3_000_000), DeltaTime(100), &animations);
    assert_eq!(records[0].enemy.unwrap().tick, 100);
    assert_eq!(records[0].transform.unwrap().direction, Direction::Right);
    assert_eq!(records[0].collider.unwrap().velocity, [200_000, 0]);
    for _ in 0..4 {
        UpdateEnemy.run(&mut records, &Center(0, 3_000_000), DeltaTime(100), &animations);
    }
    assert_eq!(records[0].enemy.unwrap().tick, 500);
    assert_eq!(records[0].transform.unwrap().direction, Direction::Right);
    UpdateEnemy.run(&mut records, &Center(0, 3_000_000), DeltaTime(100), &animations);
    assert_eq!(records[0].enemy.unwrap().tick, 0);
    assert_eq!(records[0].transform.unwrap().direction, Direction::Up);
    assert_eq!(records[0].collider.unwrap().velocity, [0, 200_000]);
}

#[test]
fn locked_enemy_only_winds_its_timer() {
    let animations = animations();
    let mut records = vec![zombie(0, 0)];
    UpdateEnemy.run(&mut records, &Center(1_000_000, 0), DeltaTime(100), &animations);
    let locked = records[0].animation;
    UpdateEnemy.run(&mut records, &Center(50_000_000, 0), DeltaTime(100), &animations);
    assert_eq!(records[0].animation, locked);
    assert_eq!(records[0].enemy.unwrap().tick, 99_000);
    assert_eq!(records[0].collider.unwrap().velocity, [0, 0]);
}

#[test]
fn walk_of_a_character() {
    assert_eq!(UpdateEnemy::get_walk(Direction::Right, 2_000, 100), [200_000, 0]);
    assert_eq!(UpdateEnemy::get_walk(Direction::Down, 2_000, 100), [0, -200_000]);
    assert_eq!(UpdateEnemy::get_walk(Direction::UpRight, 2_000, 100), [178_885, 89_442]);
    assert_eq!(UpdateEnemy::get_walk(Direction::Still, 2_000, 100), [0, 0]);
}

#[test]
fn fire_makes_one_projectile_per_latch() {
    let animations = animations();
    let template = ProjectileTemplate::default();
    let mut shooter = hero(1_000_000, 2_000_000);
    shooter.attack_maker = Some(AttackMaker { fire: true });
    shooter.transform = Some(Transform { direction: Direction::Right, ..shooter.transform.unwrap() });
    shooter.animation = Some(Animation::new(0, Direction::Right));
    let mut records = vec![shooter];
    let mut next_id: u64 = 1;
    FireWeapon.run(&mut records, &mut next_id, &template, &animations);
    assert_eq!(records.len(), 2);
    assert_eq!(next_id, 2);
    assert!(!records[0].attack_maker.unwrap().fire);
    let bullet = &records[1];
    assert_eq!(bullet.entity, Entity(1));
    assert_eq!(
        bullet.transform,
        Some(Transform { position: [1_000_000, 2_000_000, 0], size: [UNIT, UNIT], direction: Direction::Right })
    );
    assert_eq!(
        bullet.tile,
        Some(Tile { tile_index: [4, 0], uv_size: [125_000, 333_333], atlas: "projectiles".to_string() })
    );
    assert_eq!(bullet.attack, Some(Attack { duration: 1_000, elapsed: 0, movement: [10_000, 0] }));
    assert_eq!(
        bullet.collider,
        Some(Collider {
            aabb_offset: [-250_000, 250_000, -250_000, 250_000],
            velocity: [0, 0],
            is_trigger: true,
            body_type: BodyType::Dynamic,
        })
    );
    assert_eq!(bullet.animation, None);
    assert_eq!(bullet.attack_maker, None);
    assert_eq!(bullet.player, None);
    assert_eq!(bullet.enemy, None);
    FireWeapon.run(&mut records, &mut next_id, &template, &animations);
    FireWeapon.run(&mut records, &mut next_id, &template, &animations);
    assert_eq!(records.len(), 2);
    assert_eq!(next_id, 2);
}

#[test]
fn projectiles_fly_twice_as_fast_sideways() {
    let template = ProjectileTemplate::default();
    for (direction, movement, cell) in [
        (Direction::Left, [-10_000, 0], 0u8),
        (Direction::UpLeft, [-10_000, 5_000], 1),
        (Direction::Up, [0, 5_000], 2),
        (Direction::UpRight, [10_000, 5_000], 3),
        (Direction::Right, [10_000, 0], 4),
        (Direction::DownRight, [10_000, -5_000], 5),
        (Direction::Down, [0, -5_000], 6),
        (Direction::DownLeft, [-10_000, -5_000], 7),
        (Direction::Still, [0, 0], 8),
    ] {
        let request = iso_engine::system::fire_weapon::BulletData { start_position: [0, 0, 0], direction };
        let bullet = FireWeapon::make_bullet(request, Entity(9), &template);
        assert_eq!(bullet.attack.unwrap().movement, movement);
        assert_eq!(bullet.tile.unwrap().tile_index, [cell, 0]);
    }
}

#[test]
fn projectiles_come_after_all_entities_in_their_order() {
    let animations = animations();
    let template = ProjectileTemplate::default();
    let mut first = hero(1, 1);
    first.attack_maker = Some(AttackMaker { fire: true });
    let idle = zombie(2, 2);
    let mut second = hero(3, 3);
    second.entity = Entity(2);
    second.attack_maker = Some(AttackMaker { fire: true });
    let mut placeless = Record::new(Entity(3));
    placeless.attack_maker = Some(AttackMaker { fire: true });
    let mut records = vec![first, idle, second, placeless];
    let mut next_id: u64 = 10;
    FireWeapon.run(&mut records, &mut next_id, &template, &animations);
    assert_eq!(records.len(), 6);
    assert_eq!(next_id, 12);
    assert_eq!(records[4].entity, Entity(10));
    assert_eq!(records[4].transform.unwrap().position, [1, 1, 0]);
    assert_eq!(records[5].entity, Entity(11));
    assert_eq!(records[5].transform.unwrap().position, [3, 3, 0]);
    assert!(records[3].attack_maker.unwrap().fire);
}

#[test]
fn attack_is_alive_before_its_duration_and_removed_at_it() {
    let animations = animations();
    let template = ProjectileTemplate::default();
    let request = iso_engine::system::fire_weapon::BulletData { start_position: [0, 0, 0], direction: Direction::Up };
    let mut records = vec![hero(0, 0), FireWeapon::make_bullet(request, Entity(1), &template), zombie(5, 5)];
    records[2].entity = Entity(2);
    for _ in 0..9 {
        UpdateAttack.run(&mut records, DeltaTime(100), &animations);
        assert_eq!(records.len(), 3);
        assert_eq!(records[1].collider.unwrap().velocity, [0, 500_000]);
    }
    assert_eq!(records[1].attack.unwrap().elapsed, 900);
    UpdateAttack.run(&mut records, DeltaTime(100), &animations);
    assert_eq!(records.len(), 2);
    assert_eq!(records[0].entity, Entity(0));
    assert_eq!(records[1].entity, Entity(2));
}

#[test]
fn all_dead_projectiles_leave_in_one_run() {
    let animations = animations();
    let template = ProjectileTemplate { duration: 100, ..ProjectileTemplate::default() };
    let request = iso_engine::system::fire_weapon::BulletData { start_position: [0, 0, 0], direction: Direction::Up };
    let mut records = Vec::new();
    for i in 0..6u64 {
        if i % 2 == 0 {
            records.push(FireWeapon::make_bullet(request, Entity(i), &template));
        } else {
            let mut r = zombie(0, 0);
            r.entity = Entity(i);
            records.push(r);
        }
    }
    records.push(FireWeapon::make_bullet(request, Entity(6), &template));
    UpdateAttack.run(&mut records, DeltaTime(100), &animations);
    let left: Vec<u64> = records.iter().map(|r| r.entity.0).collect();
    assert_eq!(left, vec![1, 3, 5]);
    assert!(UpdateAttack::is_dead(&FireWeapon::make_bullet(
        request,
        Entity(0),
        &ProjectileTemplate { duration: 0, ..ProjectileTemplate::default() }
    )));
    assert!(!UpdateAttack::is_dead(&zombie(0, 0)));
}

#[test]
fn animation_shows_its_frame_on_the_sprite() {
    let animations = animations();
    let mut records = vec![zombie(0, 0)];
    UpdateAnimation.run(&mut records, DeltaTime(100), &animations);
    assert_eq!(records[0].animation.unwrap().current_frame, 1);
    assert_eq!(records[0].tile.as_ref().unwrap().tile_index, [1, 0]);
    assert_eq!(records[0].tile.as_ref().unwrap().atlas, "enemy/zombie");
    for expected in [2u8, 3, 0, 1] {
        UpdateAnimation.run(&mut records, DeltaTime(100), &animations);
        assert_eq!(records[0].tile.as_ref().unwrap().tile_index, [expected, 0]);
    }
}

#[test]
fn sprite_that_faces_nowhere_is_not_animated() {
    let animations = animations();
    let mut still = zombie(0, 0);
    still.transform = Some(Transform { direction: Direction::Still, ..still.transform.unwrap() });
    still.animation = Some(Animation::new(1, Direction::Still));
    let mut records = vec![still];
    UpdateAnimation.run(&mut records, DeltaTime(100), &animations);
    assert_eq!(records[0].animation, Some(Animation::new(1, Direction::Still)));
    assert_eq!(records[0].tile.as_ref().unwrap().tile_index, [0, 0]);
}
