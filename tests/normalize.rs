use meeting_recorder::normalize::to_mono;

#[test]
fn mono_input_passes_through() {
    assert_eq!(to_mono(&vec![1, -2, 3], 1), Some(vec![1, -2, 3]));
}

#[test]
fn stereo_frames_are_averaged() {
    assert_eq!(to_mono(&vec![1, 3, 5, 8, -3, 0], 2), Some(vec![2, 6, -1]));
}

#[test]
fn trailing_partial_frame_is_dropped() {
    assert_eq!(to_mono(&vec![3, 6, 9, 1, 1, 1, 7], 3), Some(vec![6, 1]));
}

#[test]
fn zero_channels_are_rejected() {
    assert_eq!(to_mono(&vec![1, 2, 3], 0), None);
}

#[test]
fn empty_input_gives_empty_output() {
    assert_eq!(to_mono(&vec![], 2), Some(vec![]));
}

#[test]
fn extreme_samples_do_not_overflow() {
    assert_eq!(to_mono(&vec![i32::MAX, i32::MAX], 2), Some(vec![i32::MAX]));
    assert_eq!(to_mono(&vec![i32::MIN, i32::MIN, i32::MIN], 3), Some(vec![i32::MIN]));
    assert_eq!(to_mono(&vec![i32::MIN, i32::MAX], 2), Some(vec![0]));
}

#[test]
fn more_channels_than_samples_gives_nothing() {
    assert_eq!(to_mono(&vec![4, 4], 4), Some(vec![]));
}
