use iso_engine::components::animation::speed_scale;
use iso_engine::components::{Animation, Direction};
use iso_engine::resources::{AnimationData, AnimationDataHandler, AnimationError, AnimationSet};

fn sequence(frames: u8, duration: u32) -> AnimationData {
    let cells: Vec<[u8; 2]> = (0..frames).map(|i| [i, 0]).collect();
    let dt: Vec<u32> = (0..frames).map(|_| duration).collect();
    AnimationData::new(cells, dt).unwrap()
}

fn set() -> AnimationSet {
    AnimationSet {
        name: "player".to_string(),
        sequences: vec![sequence(4, 100), sequence(6, 100), sequence(1, 50), sequence(2, 100)],
    }
}

fn started() -> Animation {
    let mut a = Animation::new(0, Direction::Down);
    a.elapsed_in_frame = 0;
    a
}

#[test]
fn sequence_without_a_frame_is_turned_down() {
    assert_eq!(AnimationData::new(vec![], vec![]), Err(AnimationError::EmptySequence));
    assert_eq!(AnimationData::new(vec![], vec![100]), Err(AnimationError::EmptySequence));
}

#[test]
fn sequence_with_mismatched_durations_is_turned_down() {
    assert_eq!(
        AnimationData::new(vec![[0, 0], [1, 0]], vec![100]),
        Err(AnimationError::LengthMismatch)
    );
    assert_eq!(
        AnimationData::new(vec![[0, 0]], vec![100, 100]),
        Err(AnimationError::LengthMismatch)
    );
}

#[test]
fn well_formed_sequence_is_taken() {
    let data = AnimationData::new(vec![[0, 0], [1, 0]], vec![66, 132]).unwrap();
    assert_eq!(data.frames, vec![[0, 0], [1, 0]]);
    assert_eq!(data.dt, vec![66, 132]);
    assert_eq!(data.len(), 2);
    assert_eq!(data.get_frame_duration(), 66);
    assert_eq!(data.check(), None);
}

#[test]
fn set_without_a_sequence_is_turned_down() {
    let mut handler = AnimationDataHandler::default();
    assert_eq!(handler.add("player".to_string(), vec![]), Err(AnimationError::NoSequence));
    assert_eq!(handler.sets.len(), 0);
}

#[test]
fn set_reports_its_first_defect() {
    let empty = AnimationData { frames: vec![], dt: vec![] };
    let uneven = AnimationData { frames: vec![[0, 0]], dt: vec![] };
    let mut handler = AnimationDataHandler::default();
    assert_eq!(
        handler.add("a".to_string(), vec![sequence(2, 10), uneven, empty]),
        Err(AnimationError::LengthMismatch)
    );
    let empty = AnimationData { frames: vec![], dt: vec![] };
    let uneven = AnimationData { frames: vec![[0, 0]], dt: vec![] };
    assert_eq!(
        handler.add("a".to_string(), vec![empty, uneven]),
        Err(AnimationError::EmptySequence)
    );
    assert_eq!(handler.sets.len(), 0);
}

#[test]
fn sets_are_found_by_name() {
    let mut handler = AnimationDataHandler::default();
    assert_eq!(handler.add("player".to_string(), vec![sequence(2, 10)]), Ok(0));
    assert_eq!(handler.add("enemy/zombie".to_string(), vec![sequence(3, 10)]), Ok(1));
    assert_eq!(handler.add("player".to_string(), vec![sequence(5, 10)]), Ok(2));
    assert_eq!(handler.find(&"player".to_string()), Some(0));
    assert_eq!(handler.find(&"enemy/zombie".to_string()), Some(1));
    assert_eq!(handler.find(&"ant".to_string()), None);
    assert_eq!(handler.get_anim_data(1, 0).len(), 3);
    assert_eq!(handler.get_anim_data(2, 0).len(), 5);
}

#[test]
fn new_animation_steps_at_once() {
    let set = set();
    let mut a = Animation::new(0, Direction::Down);
    assert_eq!(a.elapsed_in_frame, 99_000);
    a.advance(1, &set);
    assert_eq!(a.current_frame, 1);
    assert_eq!(a.elapsed_in_frame, 0);
}

#[test]
fn frame_lasts_for_its_duration() {
    let set = set();
    let mut a = started();
    a.advance(60, &set);
    assert_eq!((a.current_frame, a.elapsed_in_frame), (0, 60));
    a.advance(39, &set);
    assert_eq!((a.current_frame, a.elapsed_in_frame), (0, 99));
    a.advance(1, &set);
    assert_eq!((a.current_frame, a.elapsed_in_frame), (1, 0));
}

#[test]
fn speed_scale_stretches_the_frame() {
    let set = set();
    let mut a = started();
    a.speed_scale = 2_500;
    a.advance(249, &set);
    assert_eq!(a.current_frame, 0);
    a.advance(1, &set);
    assert_eq!(a.current_frame, 1);
    let mut b = started();
    b.speed_scale = 500;
    b.advance(49, &set);
    assert_eq!(b.current_frame, 0);
    b.advance(1, &set);
    assert_eq!(b.current_frame, 1);
}

#[test]
fn speed_scale_of_a_speed() {
    assert_eq!(speed_scale(5_000), 1_000);
    assert_eq!(speed_scale(2_000), 2_500);
    assert_eq!(speed_scale(10_000), 500);
    assert_eq!(speed_scale(3_000), 1_666);
    assert_eq!(speed_scale(1), 5_000_000);
    assert_eq!(speed_scale(u32::MAX), 0);
}

#[test]
fn wraparound_returns_to_the_first_frame() {
    let set = set();
    let mut a = started();
    for expected in [1, 2, 3, 0] {
        a.advance(100, &set);
        assert_eq!(a.current_frame, expected);
        assert_eq!(a.current_sequence, 0);
    }
}

#[test]
fn wraparound_from_any_frame() {
    let set = set();
    for (sequence, frames) in [(0usize, 4usize), (1, 6), (2, 1), (3, 2)] {
        for start in 0..frames {
            let mut a = started();
            a.current_sequence = sequence;
            a.current_frame = start;
            for _ in 0..frames {
                a.advance(100, &set);
                assert!(a.current_frame < frames);
            }
            assert_eq!(a.current_frame, start);
            assert_eq!(a.current_sequence, sequence);
        }
    }
}

#[test]
fn locked_sequence_plays_once_and_resumes() {
    let set = set();
    let mut a = started();
    a.change_sequence(1, false, &set);
    a.advance(100, &set);
    a.advance(100, &set);
    assert_eq!((a.current_sequence, a.current_frame), (1, 2));
    a.change_sequence(3, true, &set);
    assert_eq!((a.current_sequence, a.current_frame), (3, 0));
    assert!(a.loop_lock);
    assert_eq!(a.resume_sequence, 1);
    a.advance(100, &set);
    assert_eq!((a.current_sequence, a.current_frame), (3, 1));
    assert!(a.loop_lock);
    a.advance(100, &set);
    assert_eq!((a.current_sequence, a.current_frame), (1, 0));
    assert!(!a.loop_lock);
}

#[test]
fn lock_cannot_be_skipped() {
    let set = set();
    let mut a = started();
    a.change_sequence(3, true, &set);
    a.change_sequence(1, false, &set);
    assert_eq!(a.current_sequence, 3);
    a.change_sequence(0, true, &set);
    assert_eq!(a.current_sequence, 3);
    assert_eq!(a.resume_sequence, 0);
    a.advance(100, &set);
    a.change_facing(Direction::Left);
    assert_eq!((a.current_sequence, a.current_frame), (3, 0));
    assert!(a.loop_lock);
    a.advance(100, &set);
    a.advance(100, &set);
    assert_eq!(a.current_sequence, 0);
    assert!(!a.loop_lock);
}

#[test]
fn change_to_the_playing_sequence_changes_nothing() {
    let set = set();
    let mut a = started();
    a.change_sequence(1, false, &set);
    a.advance(100, &set);
    let before = a;
    a.change_sequence(1, false, &set);
    assert_eq!(a, before);
    a.change_sequence(1, true, &set);
    assert_eq!(a, before);
}

#[test]
fn change_of_sequence_starts_at_the_first_frame() {
    let set = set();
    let mut a = started();
    a.advance(100, &set);
    a.advance(100, &set);
    a.change_sequence(1, false, &set);
    assert_eq!((a.current_sequence, a.current_frame), (1, 0));
    assert!(!a.loop_lock);
    assert_eq!(a.resume_sequence, 0);
}

#[test]
fn change_of_facing_starts_the_sequence_again() {
    let set = set();
    let mut a = started();
    a.advance(100, &set);
    a.advance(100, &set);
    a.change_facing(Direction::Down);
    assert_eq!(a.current_frame, 2);
    a.change_facing(Direction::Right);
    assert_eq!(a.current_frame, 0);
    assert_eq!(a.facing, Direction::Right);
}

#[test]
fn cell_is_the_frame_of_the_sequence() {
    let set = AnimationSet {
        name: "player".to_string(),
        sequences: vec![
            AnimationData::new(vec![[0, 0], [1, 0], [2, 0]], vec![100, 100, 100]).unwrap(),
            AnimationData::new(vec![[4, 1], [5, 1]], vec![100, 100]).unwrap(),
        ],
    };
    let mut a = started();
    assert_eq!(a.get_cell(&set), [0, 0]);
    a.advance(100, &set);
    assert_eq!(a.get_cell(&set), [1, 0]);
    a.change_sequence(1, false, &set);
    assert_eq!(a.get_cell(&set), [4, 1]);
    a.advance(100, &set);
    assert_eq!(a.get_cell(&set), [5, 1]);
}

#[test]
fn sequence_duration_is_that_of_its_first_frame() {
    let set = AnimationSet {
        name: "player".to_string(),
        sequences: vec![AnimationData::new(vec![[0, 0], [1, 0]], vec![30, 500]).unwrap()],
    };
    let mut a = started();
    a.advance(30, &set);
    assert_eq!(a.current_frame, 1);
    a.advance(30, &set);
    assert_eq!(a.current_frame, 0);
}
