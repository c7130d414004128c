use vidseq::{SeekCommand, StreamProbe, VideoError, VideoSequence};

fn good_probe() -> StreamProbe {
    StreamProbe { has_caps: true, framerate: Some((30, 1)), duration_ns: Some(10_000_000_000) }
}

#[test]
fn open_thirty_fps_ten_seconds() {
    let seq = VideoSequence::open(good_probe()).unwrap();
    assert_eq!(seq.per_frame_ns, 33_333_333);
    assert_eq!(seq.len(), 300);
    assert_eq!(seq.current_index, 0);
}

#[test]
fn open_without_caps_is_no_data() {
    let probe = StreamProbe { has_caps: false, ..good_probe() };
    assert!(matches!(VideoSequence::open(probe), Err(VideoError::NoData)));
}

#[test]
fn open_without_framerate_is_unknown_frame_rate() {
    let probe = StreamProbe { framerate: None, ..good_probe() };
    assert!(matches!(VideoSequence::open(probe), Err(VideoError::UnknownFrameRate)));
}

#[test]
fn open_nonpositive_framerate_is_unknown_frame_rate() {
    for framerate in [Some((0, 1)), Some((-30, 1)), Some((30, 0)), Some((30, -1))] {
        let probe = StreamProbe { framerate, ..good_probe() };
        assert!(matches!(VideoSequence::open(probe), Err(VideoError::UnknownFrameRate)));
    }
}

#[test]
fn open_without_duration_is_unknown_duration() {
    let probe = StreamProbe { duration_ns: None, ..good_probe() };
    assert!(matches!(VideoSequence::open(probe), Err(VideoError::UnknownDuration)));
}

#[test]
fn open_rate_too_fast_for_time_unit() {
    // One frame would last less than half a nanosecond: nothing to seek by.
    let probe = StreamProbe { framerate: Some((i32::MAX, 1)), ..good_probe() };
    assert!(matches!(VideoSequence::open(probe), Err(VideoError::TimeConversionOverflow)));
}

#[test]
fn open_duration_shorter_than_one_frame() {
    let probe = StreamProbe { duration_ns: Some(1_000_000), ..good_probe() };
    let seq = VideoSequence::open(probe).unwrap();
    assert_eq!(seq.len(), 0);
}

#[test]
fn estimate_never_claims_more_time_than_the_stream_has() {
    for (num, denom, duration_ns) in
        [(30, 1, 10_000_000_000), (30000, 1001, 3_600_000_000_000), (24, 1, 41_000_000), (1, 1, u64::MAX)]
    {
        let probe =
            StreamProbe { has_caps: true, framerate: Some((num, denom)), duration_ns: Some(duration_ns) };
        let seq = VideoSequence::open(probe).unwrap();
        let claimed = (seq.per_frame_ns as u128) * (seq.frames as u128);
        assert!(claimed <= duration_ns as u128);
        assert!((duration_ns as u128) < claimed + seq.per_frame_ns as u128);
    }
}

#[test]
fn same_index_plans_stay() {
    let mut seq = VideoSequence::open(good_probe()).unwrap();
    seq.commit_seek(150);
    assert!(matches!(seq.plan_seek(150), Ok(SeekCommand::Stay)));
    // Nothing changed, so asking once more decides the same.
    assert!(matches!(seq.plan_seek(150), Ok(SeekCommand::Stay)));
    assert_eq!(seq.current_index, 150);
}

#[test]
fn adjacent_index_plans_step() {
    let mut seq = VideoSequence::open(good_probe()).unwrap();
    seq.commit_seek(150);
    assert!(matches!(seq.plan_seek(151), Ok(SeekCommand::Step { duration_ns: 33_333_333 })));
}

#[test]
fn far_forward_plans_absolute_seek() {
    let mut seq = VideoSequence::open(good_probe()).unwrap();
    seq.commit_seek(150);
    match seq.plan_seek(155) {
        Ok(SeekCommand::SeekTo { time_ns }) => assert_eq!(time_ns, 33_333_333 * 155),
        other => panic!("expected an absolute seek, got {:?}", other),
    }
}

#[test]
fn backward_always_plans_absolute_seek() {
    let mut seq = VideoSequence::open(good_probe()).unwrap();
    seq.commit_seek(150);
    match seq.plan_seek(149) {
        Ok(SeekCommand::SeekTo { time_ns }) => assert_eq!(time_ns, 33_333_333 * 149),
        other => panic!("expected an absolute seek, got {:?}", other),
    }
    match seq.plan_seek(0) {
        Ok(SeekCommand::SeekTo { time_ns }) => assert_eq!(time_ns, 0),
        other => panic!("expected an absolute seek, got {:?}", other),
    }
}

#[test]
fn index_past_estimate_is_out_of_range() {
    let seq = VideoSequence::open(good_probe()).unwrap();
    assert!(matches!(seq.plan_seek(301), Err(VideoError::IndexOutOfRange)));
    assert!(matches!(seq.plan_seek(u64::MAX), Err(VideoError::IndexOutOfRange)));
    // The estimate itself is still addressable (it may decode empty).
    assert!(seq.plan_seek(300).is_ok());
}

#[test]
fn target_time_past_the_time_unit_overflows() {
    let seq = VideoSequence { per_frame_ns: u64::MAX, frames: 10, current_index: 0 };
    assert!(matches!(seq.plan_seek(2), Err(VideoError::TimeConversionOverflow)));
}

#[test]
fn commit_seek_moves_only_the_cursor() {
    let mut seq = VideoSequence::open(good_probe()).unwrap();
    let per_frame_ns = seq.per_frame_ns;
    let frames = seq.frames;
    seq.commit_seek(42);
    assert_eq!(seq.current_index, 42);
    assert_eq!(seq.per_frame_ns, per_frame_ns);
    assert_eq!(seq.frames, frames);
}
