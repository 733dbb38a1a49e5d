use audio_host::{AudioBlock, RenderContext, Sample, ViewError};

fn context(frames: usize, in_channels: usize, out_channels: usize) -> RenderContext {
    RenderContext { frames, in_channels, out_channels, sample_rate: 44_100, sequence: 0 }
}

fn numbered(len: usize) -> Vec<Sample> {
    let mut v = Vec::new();
    for i in 0..len {
        v.push(Sample::scaled(i, len, 1));
    }
    v
}

#[test]
fn block_covers_exactly_frames_times_channels() {
    let block = AudioBlock::new(context(16, 2, 2), numbered(32), numbered(32)).unwrap();
    assert_eq!(block.input_len(), 32);
    assert_eq!(block.output_len(), 32);
    assert_eq!(block.context(), context(16, 2, 2));
    assert_eq!(block.input(), &numbered(32));
    assert_eq!(block.output(), &numbered(32));
}

#[test]
fn block_regions_may_differ_in_width() {
    let block = AudioBlock::new(context(8, 1, 3), numbered(8), numbered(24)).unwrap();
    assert_eq!(block.input_len(), 8);
    assert_eq!(block.output_len(), 24);
}

#[test]
fn block_with_no_frames_is_empty() {
    let block = AudioBlock::new(context(0, 2, 2), Vec::new(), Vec::new()).unwrap();
    assert_eq!(block.input_len(), 0);
    assert_eq!(block.output_len(), 0);
}

#[test]
fn block_refuses_short_output() {
    let made = AudioBlock::new(context(16, 2, 2), numbered(32), numbered(31));
    assert_eq!(made.err(), Some(ViewError::LengthMismatch));
}

#[test]
fn block_refuses_long_input() {
    let made = AudioBlock::new(context(16, 2, 2), numbered(33), numbered(32));
    assert_eq!(made.err(), Some(ViewError::LengthMismatch));
}

#[test]
fn block_refuses_counts_that_overflow() {
    let made = AudioBlock::new(context(usize::MAX, 0, 2), Vec::new(), Vec::new());
    assert_eq!(made.err(), Some(ViewError::CountOverflow));
    let made = AudioBlock::new(context(usize::MAX / 2 + 1, 2, 0), Vec::new(), Vec::new());
    assert_eq!(made.err(), Some(ViewError::CountOverflow));
}

#[test]
fn overflow_is_reported_before_mismatch() {
    let made = AudioBlock::new(context(usize::MAX, 3, 3), numbered(5), numbered(5));
    assert_eq!(made.err(), Some(ViewError::CountOverflow));
}

#[test]
fn samples_are_interleaved() {
    let block = AudioBlock::new(context(4, 2, 3), numbered(8), numbered(12)).unwrap();
    assert_eq!(block.input_sample(0, 0).position, 0);
    assert_eq!(block.input_sample(0, 1).position, 1);
    assert_eq!(block.input_sample(3, 1).position, 7);
    assert_eq!(block.output_sample(0, 2).position, 2);
    assert_eq!(block.output_sample(2, 1).position, 7);
    assert_eq!(block.output_sample(3, 2).position, 11);
    assert_eq!(block.output_at(7), block.output_sample(2, 1));
}

#[test]
fn write_changes_one_slot_and_never_the_input() {
    let mut block = AudioBlock::new(context(4, 2, 2), numbered(8), numbered(8)).unwrap();
    let mark = Sample::scaled(1, 2, 9);
    block.write(2, 1, mark);
    for frame in 0..4 {
        for channel in 0..2 {
            let expected = if frame == 2 && channel == 1 {
                mark
            } else {
                Sample::scaled(frame * 2 + channel, 8, 1)
            };
            assert_eq!(block.output_sample(frame, channel), expected);
        }
    }
    assert_eq!(block.input(), &numbered(8));
    assert_eq!(block.output_len(), 8);
}

#[test]
fn write_at_changes_one_slot() {
    let mut block = AudioBlock::new(context(2, 0, 2), Vec::new(), numbered(4)).unwrap();
    block.write_at(3, Sample::silence());
    assert_eq!(block.output_at(3), Sample::silence());
    assert_eq!(block.output_at(2), Sample::scaled(2, 4, 1));
    assert_eq!(block.output_sample(1, 1), Sample::silence());
}

#[test]
fn silence_is_zero() {
    assert!(Sample::silence().is_zero());
    assert!(Sample::scaled(0, 32, 4).is_zero());
    assert!(Sample::scaled(7, 32, 0).is_zero());
    assert!(!Sample::scaled(7, 32, 4).is_zero());
    assert_eq!(Sample::scaled(7, 32, 4), Sample { position: 7, length: 32, gain: 4 });
}

#[test]
fn deadline_is_frames_over_sample_rate() {
    // 16 frames at 44100 Hz last 362811.79.. ns.
    let c = context(16, 2, 2);
    assert!(!c.deadline_missed(0));
    assert!(!c.deadline_missed(362_811));
    assert!(c.deadline_missed(362_812));
    assert!(c.deadline_missed(u64::MAX));
    // 48 frames at 48 kHz last exactly one millisecond.
    let c = RenderContext { frames: 48, in_channels: 2, out_channels: 2, sample_rate: 48_000, sequence: 3 };
    assert!(!c.deadline_missed(1_000_000));
    assert!(c.deadline_missed(1_000_001));
}

#[test]
fn begin_block_changes_only_the_sequence_number() {
    let mut block = AudioBlock::new(context(4, 2, 2), numbered(8), numbered(8)).unwrap();
    block.begin_block(41);
    assert_eq!(
        block.context(),
        RenderContext { frames: 4, in_channels: 2, out_channels: 2, sample_rate: 44_100, sequence: 41 }
    );
    assert_eq!(block.input(), &numbered(8));
    assert_eq!(block.output(), &numbered(8));
}

#[test]
fn channels_are_sliced_frame_by_frame() {
    let block = AudioBlock::new(context(4, 2, 3), numbered(8), numbered(12)).unwrap();
    let positions = |v: Vec<Sample>| v.iter().map(|s| s.position).collect::<Vec<usize>>();
    assert_eq!(positions(block.input_channel(0)), vec![0, 2, 4, 6]);
    assert_eq!(positions(block.input_channel(1)), vec![1, 3, 5, 7]);
    assert_eq!(positions(block.output_channel(0)), vec![0, 3, 6, 9]);
    assert_eq!(positions(block.output_channel(1)), vec![1, 4, 7, 10]);
    assert_eq!(positions(block.output_channel(2)), vec![2, 5, 8, 11]);
}

#[test]
fn channels_share_no_slot_and_cover_the_region() {
    let block = AudioBlock::new(context(5, 0, 4), Vec::new(), numbered(20)).unwrap();
    let mut seen = vec![0usize; 20];
    for channel in 0..4 {
        for s in block.output_channel(channel) {
            seen[s.position] += 1;
        }
    }
    assert_eq!(seen, vec![1usize; 20]);
}
