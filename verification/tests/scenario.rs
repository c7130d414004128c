use vidseq::{
    get_frame_outcome, RawBuffer, RawSample, SampleCaps, SeekCommand, StreamProbe, VideoError,
    VideoSequence,
};

/// What the decode pipeline would hand back for any in-range position of a
/// small test stream: a 4x3 RGB picture.
fn decoded_sample() -> RawSample {
    RawSample {
        caps: Some(SampleCaps { width: 4, height: 3, format: "RGB".to_string() }),
        buffer: Some(RawBuffer { declared_size: 36, data: vec![7u8; 36] }),
    }
}

/// A 30 fps, 10 second stream: 300 estimated frames. Frame 0 decodes to a
/// valid image; one past the estimate is out of range; and moving from frame
/// 150 to 151 advances by a step, not by a second absolute seek.
#[test]
fn thirty_fps_ten_second_stream() {
    let probe = StreamProbe {
        has_caps: true,
        framerate: Some((30, 1)),
        duration_ns: Some(10_000_000_000),
    };
    let mut seq = VideoSequence::open(probe).unwrap();
    assert_eq!(seq.len(), 300);

    // Position on frame 0: the driver performs the initial absolute seek.
    assert!(matches!(seq.plan_seek(0), Ok(SeekCommand::Stay)));
    let image = get_frame_outcome(decoded_sample()).unwrap().unwrap();
    assert_eq!(image.image.dimensions(), (4, 3));

    // One past the estimate fails before any pipeline work.
    assert!(matches!(seq.plan_seek(301), Err(VideoError::IndexOutOfRange)));
    assert_eq!(seq.current_index, 0);

    // Frame 150 needs a full absolute seek from frame 0.
    let mut seeks = 0;
    let mut steps = 0;
    for index in [150u64, 151u64] {
        match seq.plan_seek(index).unwrap() {
            SeekCommand::SeekTo { .. } => seeks += 1,
            SeekCommand::Step { .. } => steps += 1,
            SeekCommand::Stay => {},
        }
        seq.commit_seek(index);
        let image = get_frame_outcome(decoded_sample()).unwrap().unwrap();
        assert_eq!(image.image.dimensions(), (4, 3));
    }
    // ... and frame 151 right after it by a single step, not a reseek.
    assert_eq!(seeks, 1);
    assert_eq!(steps, 1);
    assert_eq!(seq.current_index, 151);
}
