use iso_engine::resources::random::SPAWN_SPREAD;
use iso_engine::resources::RandomSource;

#[test]
fn offsets_lie_within_the_spread() {
    let mut rng = RandomSource::new(7);
    for _ in 0..1_000 {
        let offset = rng.spawn_offset();
        assert!(-SPAWN_SPREAD <= offset[0] && offset[0] < SPAWN_SPREAD);
        assert!(-SPAWN_SPREAD <= offset[1] && offset[1] < SPAWN_SPREAD);
    }
}

#[test]
fn offsets_are_drawn_not_fixed() {
    let mut rng = RandomSource::new(7);
    let first = rng.spawn_offset();
    let mut differs = false;
    let mut off_the_bounds = false;
    for _ in 0..100 {
        let offset = rng.spawn_offset();
        differs = differs || offset != first;
        off_the_bounds = off_the_bounds
            || (offset[0] != -SPAWN_SPREAD && offset[0] != SPAWN_SPREAD && offset[0] != offset[1]);
    }
    assert!(differs);
    assert!(off_the_bounds);
}

#[test]
fn one_seed_gives_one_run() {
    let mut a = RandomSource::new(42);
    let mut b = RandomSource::new(42);
    for _ in 0..50 {
        assert_eq!(a.spawn_offset(), b.spawn_offset());
    }
}

#[test]
fn the_spread_is_ten_units() {
    assert_eq!(SPAWN_SPREAD, 10_000_000);
}
