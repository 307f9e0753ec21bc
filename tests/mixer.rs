use meeting_recorder::mixer::{mix_sample, MixAction, Mixer, ProcMsg, SampleChunk, FULL_SCALE};

fn to_units(x: f32) -> i32 {
    (x * FULL_SCALE as f32) as i32
}

fn sys(samples: &[f32]) -> Option<ProcMsg> {
    Some(ProcMsg::SystemAudio(SampleChunk {
        samples: samples.iter().map(|x| to_units(*x)).collect(),
        channel_count: 1,
    }))
}

fn mic(samples: &[f32]) -> Option<ProcMsg> {
    Some(ProcMsg::MicrophoneAudio(SampleChunk {
        samples: samples.iter().map(|x| to_units(*x)).collect(),
        channel_count: 1,
    }))
}

fn raw(source_is_system: bool, samples: Vec<i32>, channel_count: usize) -> Option<ProcMsg> {
    let chunk = SampleChunk { samples, channel_count };
    if source_is_system {
        Some(ProcMsg::SystemAudio(chunk))
    } else {
        Some(ProcMsg::MicrophoneAudio(chunk))
    }
}

/// Collects what the sink receives; returns the output and the number of `Finish` actions.
fn run(polls: Vec<(Option<ProcMsg>, Option<ProcMsg>)>) -> (Vec<i16>, usize, Vec<&'static str>) {
    let mut m = Mixer::new();
    let mut out = Vec::new();
    let mut finishes = 0;
    let mut kinds = Vec::new();
    for (a, b) in polls {
        match m.step(a, b) {
            MixAction::Emit(v) => {
                kinds.push("emit");
                out.extend(v)
            }
            MixAction::WaitShort => kinds.push("short"),
            MixAction::WaitLong => kinds.push("long"),
            MixAction::Finish(v) => {
                kinds.push("finish");
                finishes += 1;
                out.extend(v);
                break;
            }
        }
    }
    (out, finishes, kinds)
}

#[test]
fn scenario_equal_totals_mix_without_padding() {
    let (out, finishes, _) = run(vec![
        (sys(&[1.0, 1.0]), None),
        (sys(&[0.0]), mic(&[0.0, 0.0, 1.0])),
        (Some(ProcMsg::Stop), None),
    ]);
    let half = (0.5f32 * 32767.0) as i16;
    assert_eq!(out, vec![half, half, half]);
    assert_eq!(finishes, 1);
}

#[test]
fn scenario_silent_microphone_pads_and_halves() {
    let (out, finishes, _) = run(vec![(sys(&[0.5]), None), (Some(ProcMsg::Stop), None)]);
    assert_eq!(out, vec![(0.25f32 * 32767.0) as i16]);
    assert_eq!(finishes, 1);
}

#[test]
fn emitted_count_is_min_before_drain_and_max_after() {
    let mut m = Mixer::new();
    let mut total = 0;
    match m.step(raw(true, vec![1, 2, 3, 4, 5], 1), raw(false, vec![10, 20], 1)) {
        MixAction::Emit(v) => total += v.len(),
        _ => panic!("expected samples"),
    }
    assert_eq!(total, 2);
    assert_eq!(m.pending_system(), 3);
    assert_eq!(m.pending_microphone(), 0);
    match m.step(None, raw(false, vec![30], 1)) {
        MixAction::Emit(v) => total += v.len(),
        _ => panic!("expected samples"),
    }
    assert_eq!(total, 3);
    match m.step(None, Some(ProcMsg::Stop)) {
        MixAction::Finish(v) => total += v.len(),
        _ => panic!("expected finish"),
    }
    assert_eq!(total, 5);
    assert_eq!(m.pending_system(), 0);
    assert_eq!(m.pending_microphone(), 0);
}

#[test]
fn pairing_follows_arrival_order() {
    let (out, _, _) = run(vec![
        (raw(true, vec![100, 200], 1), None),
        (raw(true, vec![300], 1), raw(false, vec![2, 4], 1)),
        (None, raw(false, vec![6, 8], 1)),
        (Some(ProcMsg::Stop), None),
    ]);
    assert_eq!(out, vec![51, 102, 153, 4]);
}

#[test]
fn stop_finishes_exactly_once_whatever_the_timing() {
    let (out, finishes, kinds) = run(vec![
        (None, None),
        (None, raw(false, vec![8, 8, 8], 1)),
        (raw(true, vec![2], 1), None),
        (None, Some(ProcMsg::Stop)),
        (Some(ProcMsg::Stop), None),
    ]);
    assert_eq!(finishes, 1);
    assert_eq!(kinds, vec!["long", "short", "emit", "finish"]);
    assert_eq!(out, vec![5, 4, 4]);
}

#[test]
fn stop_with_data_in_the_same_poll_keeps_the_data() {
    let (out, finishes, _) = run(vec![(raw(true, vec![10, 20], 1), Some(ProcMsg::Stop))]);
    assert_eq!(finishes, 1);
    assert_eq!(out, vec![5, 10]);
}

#[test]
fn silent_system_source_halves_microphone() {
    let (out, _, _) = run(vec![
        (None, raw(false, vec![100, -101, 32767], 1)),
        (Some(ProcMsg::Stop), Some(ProcMsg::Stop)),
    ]);
    assert_eq!(out, vec![50, -50, 16383]);
}

#[test]
fn stereo_system_chunk_is_averaged_per_frame() {
    let (out, _, _) = run(vec![
        (raw(true, vec![100, 300, -100, -301], 2), raw(false, vec![0, 0], 1)),
        (Some(ProcMsg::Stop), None),
    ]);
    assert_eq!(out, vec![100, -100]);
}

#[test]
fn chunk_without_channels_is_dropped() {
    let (out, _, kinds) = run(vec![
        (raw(true, vec![5, 5, 5], 0), None),
        (Some(ProcMsg::Stop), None),
    ]);
    assert_eq!(kinds, vec!["long", "finish"]);
    assert!(out.is_empty());
}

#[test]
fn empty_session_finishes_with_nothing() {
    let (out, finishes, _) = run(vec![(Some(ProcMsg::Stop), Some(ProcMsg::Stop))]);
    assert!(out.is_empty());
    assert_eq!(finishes, 1);
}

#[test]
fn mixed_sample_is_clamped_to_full_scale() {
    assert_eq!(mix_sample(40000, 40000), 32767);
    assert_eq!(mix_sample(-40000, -40000), -32767);
    assert_eq!(mix_sample(i32::MAX, i32::MAX), 32767);
    assert_eq!(mix_sample(i32::MIN, i32::MIN), -32767);
    assert_eq!(mix_sample(32767, 32767), 32767);
    assert_eq!(mix_sample(-32768, 0), -16384);
}

#[test]
fn mixed_sample_rounds_toward_zero() {
    assert_eq!(mix_sample(3, 0), 1);
    assert_eq!(mix_sample(-3, 0), -1);
    assert_eq!(mix_sample(7, -2), 2);
    assert_eq!(mix_sample(0, 0), 0);
}
