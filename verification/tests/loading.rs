use iso_engine::renderer::{recover, Recovery, SurfaceFault};
use iso_engine::resources::{AnimationData, AnimationError, DeltaTime};

#[test]
fn sequence_from_a_sheet() {
    let durations: Vec<u32> = vec![100, 110, 120, 130, 140, 150];
    let data = AnimationData::from_sheet(&durations, 1, 4, 4).unwrap();
    assert_eq!(data.frames, vec![[1, 0], [2, 0], [3, 0], [0, 1]]);
    assert_eq!(data.dt, vec![110, 120, 130, 140]);
    let one = AnimationData::from_sheet(&durations, 5, 5, 16).unwrap();
    assert_eq!(one.frames, vec![[5, 0]]);
    assert_eq!(one.dt, vec![150]);
    let column = AnimationData::from_sheet(&durations, 0, 2, 1).unwrap();
    assert_eq!(column.frames, vec![[0, 0], [0, 1], [0, 2]]);
}

#[test]
fn sequence_that_the_sheet_cannot_make_is_turned_down() {
    let durations: Vec<u32> = vec![100; 6];
    assert_eq!(AnimationData::from_sheet(&durations, 3, 2, 4), Err(AnimationError::EmptySequence));
    assert_eq!(AnimationData::from_sheet(&durations, 9, 2, 0), Err(AnimationError::EmptySequence));
    assert_eq!(AnimationData::from_sheet(&durations, 0, 6, 4), Err(AnimationError::FrameOutOfRange));
    assert_eq!(AnimationData::from_sheet(&durations, 0, 5, 0), Err(AnimationError::FrameOutOfRange));
    assert_eq!(AnimationData::from_sheet(&vec![], 0, 0, 4), Err(AnimationError::FrameOutOfRange));
    assert_eq!(AnimationData::from_sheet(&durations, 0, usize::MAX, 4), Err(AnimationError::FrameOutOfRange));
}

#[test]
fn sheet_higher_than_its_cells_can_be_named_is_turned_down() {
    let durations: Vec<u32> = vec![1; 300];
    assert!(AnimationData::from_sheet(&durations, 250, 255, 1).is_ok());
    assert_eq!(AnimationData::from_sheet(&durations, 250, 256, 1), Err(AnimationError::FrameOutOfRange));
    let data = AnimationData::from_sheet(&durations, 255, 257, 2).unwrap();
    assert_eq!(data.frames, vec![[1, 127], [0, 128], [1, 128]]);
}

#[test]
fn long_frames_are_passed_over() {
    assert_eq!(DeltaTime::from_elapsed(0), Some(DeltaTime(0)));
    assert_eq!(DeltaTime::from_elapsed(16), Some(DeltaTime(16)));
    assert_eq!(DeltaTime::from_elapsed(200), Some(DeltaTime(200)));
    assert_eq!(DeltaTime::from_elapsed(201), None);
    assert_eq!(DeltaTime::from_elapsed(u128::MAX), None);
}

#[test]
fn faults_of_the_surface() {
    assert_eq!(recover(SurfaceFault::Lost), Recovery::Reconfigure);
    assert_eq!(recover(SurfaceFault::Outdated), Recovery::Reconfigure);
    assert_eq!(recover(SurfaceFault::OutOfMemory), Recovery::Exit);
    assert_eq!(recover(SurfaceFault::Timeout), Recovery::Skip);
}
