use meeting_recorder::capture::{extract_samples, route_chunk, OutputKind};
use meeting_recorder::mixer::ProcMsg;

#[test]
fn two_planes_are_interleaved() {
    assert_eq!(extract_samples(&vec![vec![1, 2, 3], vec![4, 5]]), Some(vec![1, 4, 2, 5]));
}

#[test]
fn other_buffer_counts_are_concatenated() {
    assert_eq!(extract_samples(&vec![vec![1, 2]]), Some(vec![1, 2]));
    assert_eq!(extract_samples(&vec![vec![1], vec![], vec![2, 3]]), Some(vec![1, 2, 3]));
}

#[test]
fn delivery_without_samples_is_none() {
    assert_eq!(extract_samples(&vec![]), None);
    assert_eq!(extract_samples(&vec![vec![], vec![7]]), None);
}

#[test]
fn routing_tags_each_source() {
    match route_chunk(OutputKind::Audio, vec![1, 2]) {
        Some(ProcMsg::SystemAudio(c)) => {
            assert_eq!(c.samples, vec![1, 2]);
            assert_eq!(c.channel_count, 2);
        }
        _ => panic!("expected system audio"),
    }
    match route_chunk(OutputKind::Microphone, vec![3]) {
        Some(ProcMsg::MicrophoneAudio(c)) => {
            assert_eq!(c.samples, vec![3]);
            assert_eq!(c.channel_count, 1);
        }
        _ => panic!("expected microphone audio"),
    }
    assert!(route_chunk(OutputKind::Screen, vec![3]).is_none());
}
