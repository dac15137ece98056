use iso_engine::components::{BodyType, Collider, Transform};
use iso_engine::resources::{AnimationDataHandler, Center};
use iso_engine::system::update_physics::{check_collision, resolve, resolve_against, ColliderData};
use iso_engine::system::UpdatePhysics;
use iso_engine::units::UNIT;
use iso_engine::world::{Entity, Record};

fn body(entity: u64, aabb: [i64; 4]) -> ColliderData {
    ColliderData { entity: Entity(entity), aabb, velocity: [0, 0], body_type: BodyType::Static }
}

fn solid(entity: u64, x: i64, y: i64, velocity: [i64; 2], body_type: BodyType) -> Record {
    let mut r = Record::new(Entity(entity));
    r.transform = Some(Transform::new([x, y, 0], [UNIT, UNIT]));
    r.collider = Some(Collider {
        aabb_offset: [0, 1_000_000, 0, 1_000_000],
        velocity,
        is_trigger: false,
        body_type,
    });
    r
}

#[test]
fn boxes_that_touch_do_not_collide() {
    let a: [i64; 4] = [0, 10, 0, 10];
    assert!(!check_collision(&a, &[0, 0], &[10, 20, 0, 10]));
    assert!(check_collision(&a, &[1, 0], &[10, 20, 0, 10]));
    assert!(!check_collision(&a, &[1, 0], &[10, 20, 10, 20]));
    assert!(check_collision(&a, &[1, 1], &[10, 20, 10, 20]));
    assert!(!check_collision(&a, &[0, 0], &[-10, 0, 0, 10]));
    assert!(check_collision(&a, &[-1, 0], &[-10, 0, 0, 10]));
}

#[test]
fn blocked_axis_is_zeroed_and_the_other_kept() {
    let a: [i64; 4] = [0, 1_000_000, 0, 1_000_000];
    let b = body(2, [1_200_000, 2_200_000, 0, 1_000_000]);
    assert_eq!(resolve_against([500_000, 500_000], Entity(1), &a, &b), [0, 500_000]);
    let others = vec![body(1, a), b];
    assert_eq!(resolve([500_000, 500_000], Entity(1), &a, &others), [0, 500_000]);
}

#[test]
fn blocked_vertical_axis_is_zeroed_and_the_other_kept() {
    let a: [i64; 4] = [0, 1_000_000, 0, 1_000_000];
    let b = body(2, [0, 1_000_000, 1_200_000, 2_200_000]);
    assert_eq!(resolve_against([500_000, 500_000], Entity(1), &a, &b), [500_000, 0]);
    assert_eq!(resolve_against([500_000, -500_000], Entity(1), &a, &b), [500_000, -500_000]);
}

#[test]
fn free_movement_is_kept() {
    let a: [i64; 4] = [0, 1_000_000, 0, 1_000_000];
    let b = body(2, [5_000_000, 6_000_000, 0, 1_000_000]);
    assert_eq!(resolve_against([500_000, 500_000], Entity(1), &a, &b), [500_000, 500_000]);
    assert_eq!(resolve([500_000, 500_000], Entity(1), &a, &vec![]), [500_000, 500_000]);
}

#[test]
fn movement_up_to_the_touch_is_free() {
    let a: [i64; 4] = [0, 1_000_000, 0, 1_000_000];
    let b = body(2, [1_200_000, 2_200_000, 0, 1_000_000]);
    assert_eq!(resolve_against([200_000, 0], Entity(1), &a, &b), [200_000, 0]);
    assert_eq!(resolve_against([200_001, 0], Entity(1), &a, &b), [0, 0]);
}

#[test]
fn nothing_collides_with_itself() {
    let a: [i64; 4] = [0, 1_000_000, 0, 1_000_000];
    assert_eq!(resolve_against([500_000, 500_000], Entity(1), &a, &body(1, a)), [500_000, 500_000]);
}

#[test]
fn overlapping_bodies_are_pushed_apart_along_the_lesser_overlap() {
    let a: [i64; 4] = [0, 1_000_000, 0, 1_000_000];
    let right = body(2, [800_000, 1_800_000, 0, 1_000_000]);
    assert_eq!(resolve_against([300_000, 70_000], Entity(1), &a, &right), [-20_000, 70_000]);
    let left = body(2, [-800_000, 200_000, 0, 1_000_000]);
    assert_eq!(resolve_against([300_000, 70_000], Entity(1), &a, &left), [300_000, 70_000]);
    assert_eq!(resolve_against([-300_000, 70_000], Entity(1), &a, &left), [20_000, 70_000]);
    assert_eq!(resolve_against([19_999, 70_000], Entity(1), &a, &left), [20_000, 70_000]);
    let above = body(2, [0, 1_000_000, 500_000, 1_500_000]);
    assert_eq!(resolve_against([300_000, 70_000], Entity(1), &a, &above), [300_000, -50_000]);
    let below = body(2, [0, 1_000_000, -700_000, 300_000]);
    assert_eq!(resolve_against([300_000, 70_000], Entity(1), &a, &below), [300_000, 70_000]);
    assert_eq!(resolve_against([300_000, 0], Entity(1), &a, &below), [300_000, 30_000]);
}

#[test]
fn the_push_is_rounded_up() {
    let a: [i64; 4] = [0, 1_000_000, 0, 1_000_000];
    let wall = body(2, [999_995, 1_999_995, 0, 1_000_000]);
    assert_eq!(resolve_against([0, 0], Entity(1), &a, &wall), [-1, 0]);
    assert_eq!(resolve_against([500_000, 0], Entity(1), &a, &wall), [-1, 0]);
    let deeper = body(2, [999_989, 1_999_989, 0, 1_000_000]);
    assert_eq!(resolve_against([0, 0], Entity(1), &a, &deeper), [-2, 0]);
    let ten = body(2, [999_990, 1_999_990, 0, 1_000_000]);
    assert_eq!(resolve_against([0, 0], Entity(1), &a, &ten), [-1, 0]);
}

#[test]
fn a_velocity_off_the_other_body_is_kept() {
    let a: [i64; 4] = [0, 1_000_000, 0, 1_000_000];
    let wall = body(2, [999_995, 1_999_995, 0, 1_000_000]);
    assert_eq!(resolve_against([-500_000, 0], Entity(1), &a, &wall), [-500_000, 0]);
    let animations = AnimationDataHandler::default();
    let mut records = vec![
        solid(1, 0, 0, [-500_000, 0], BodyType::Kinematic),
        solid(2, 999_995, 0, [0, 0], BodyType::Static),
    ];
    let mut center = Center(0, 0);
    UpdatePhysics.run(&mut records, None, &mut center, &animations);
    assert_eq!(records[0].transform.unwrap().position[0], -500_000);
}

#[test]
fn a_small_overlap_is_undone_in_the_end() {
    let animations = AnimationDataHandler::default();
    let mut records = vec![
        solid(1, 0, 0, [0, 0], BodyType::Kinematic),
        solid(2, 999_995, 0, [0, 0], BodyType::Static),
    ];
    let mut center = Center(0, 0);
    for step in 1..=5i64 {
        UpdatePhysics.run(&mut records, None, &mut center, &animations);
        assert_eq!(records[0].transform.unwrap().position[0], -step);
        records[0].collider = Some(Collider { velocity: [0, 0], ..records[0].collider.unwrap() });
    }
    UpdatePhysics.run(&mut records, None, &mut center, &animations);
    assert_eq!(records[0].transform.unwrap().position[0], -5);
}

#[test]
fn equal_overlaps_push_sideways() {
    let a: [i64; 4] = [0, 1_000_000, 0, 1_000_000];
    let b = body(2, [500_000, 1_500_000, 500_000, 1_500_000]);
    assert_eq!(resolve_against([7, 9], Entity(1), &a, &b), [-50_000, 9]);
}

#[test]
fn coinciding_centres_are_parted_by_name() {
    let a: [i64; 4] = [0, 1_000_000, 0, 2_000_000];
    assert_eq!(resolve_against([0, 0], Entity(1), &a, &body(2, a)), [-100_000, 0]);
    assert_eq!(resolve_against([0, 0], Entity(2), &a, &body(1, a)), [100_000, 0]);
}

#[test]
fn bodies_are_held_against_one_after_the_other() {
    let a: [i64; 4] = [0, 1_000_000, 0, 1_000_000];
    let others = vec![
        body(2, [1_200_000, 2_200_000, 0, 1_000_000]),
        body(3, [0, 1_000_000, 1_100_000, 2_100_000]),
    ];
    assert_eq!(resolve([500_000, 500_000], Entity(1), &a, &others), [0, 0]);
}

#[test]
fn system_moves_bodies_by_their_resolved_velocity() {
    let animations = AnimationDataHandler::default();
    let mut records = vec![
        solid(1, 0, 0, [500_000, 500_000], BodyType::Kinematic),
        solid(2, 1_200_000, 0, [0, 0], BodyType::Static),
    ];
    let mut center = Center(0, 0);
    UpdatePhysics.run(&mut records, Some(Entity(1)), &mut center, &animations);
    let moved = records[0].transform.unwrap();
    assert_eq!(moved.position, [0, 500_000, 999_950]);
    assert_eq!(records[0].collider.unwrap().velocity, [0, 500_000]);
    assert_eq!(records[1].transform.unwrap().position, [1_200_000, 0, 0]);
    assert_eq!(center, Center(0, 500_000));
}

#[test]
fn static_body_is_never_moved() {
    let animations = AnimationDataHandler::default();
    let mut records = vec![solid(1, 0, 0, [500_000, 500_000], BodyType::Static)];
    let before = records[0].transform;
    let mut center = Center(5, 5);
    UpdatePhysics.run(&mut records, None, &mut center, &animations);
    assert_eq!(records[0].transform, before);
    assert_eq!(records[0].collider.unwrap().velocity, [500_000, 500_000]);
    assert_eq!(center, Center(5, 5));
}

#[test]
fn trigger_blocks_nothing_and_is_not_blocked() {
    let animations = AnimationDataHandler::default();
    let mut trigger = solid(1, 0, 0, [500_000, 0], BodyType::Dynamic);
    trigger.collider = Some(Collider { is_trigger: true, ..trigger.collider.unwrap() });
    let mut wall = solid(2, 1_200_000, 0, [-500_000, 0], BodyType::Dynamic);
    wall.collider = Some(Collider { ..wall.collider.unwrap() });
    let mut records = vec![trigger, wall];
    let mut center = Center(0, 0);
    UpdatePhysics.run(&mut records, None, &mut center, &animations);
    assert_eq!(records[0].transform.unwrap().position[0], 500_000);
    assert_eq!(records[1].transform.unwrap().position[0], 700_000);
}

#[test]
fn moves_do_not_depend_on_the_order_of_the_moves() {
    let animations = AnimationDataHandler::default();
    let mut records = vec![
        solid(1, 0, 0, [300_000, 0], BodyType::Dynamic),
        solid(2, 1_200_000, 0, [-300_000, 0], BodyType::Dynamic),
    ];
    let mut center = Center(0, 0);
    UpdatePhysics.run(&mut records, None, &mut center, &animations);
    assert_eq!(records[0].transform.unwrap().position[0], 0);
    assert_eq!(records[1].transform.unwrap().position[0], 1_200_000);
}

#[test]
fn the_solid_bodies_are_collected_in_order() {
    let animations = AnimationDataHandler::default();
    let mut trigger = solid(2, 0, 0, [0, 0], BodyType::Dynamic);
    trigger.collider = Some(Collider { is_trigger: true, ..trigger.collider.unwrap() });
    let records = vec![
        solid(1, 100, 200, [1, 2], BodyType::Kinematic),
        trigger,
        Record::new(Entity(3)),
        solid(4, -100, -200, [3, 4], BodyType::Static),
    ];
    let others = UpdatePhysics::collect(&records, &animations);
    assert_eq!(
        others,
        vec![
            ColliderData {
                entity: Entity(1),
                aabb: [100, 1_000_100, 200, 1_000_200],
                velocity: [1, 2],
                body_type: BodyType::Kinematic,
            },
            ColliderData {
                entity: Entity(4),
                aabb: [-100, 999_900, -200, 999_800],
                velocity: [3, 4],
                body_type: BodyType::Static,
            },
        ]
    );
}
