use nam_audio_pipe::process::{
    finish_cycle, CaptureState, Channel, CycleEnd, CycleStart, HostBuffer,
};
use nam_audio_pipe::recording::{
    create_audio_ring_buffer, AlignedBlock, AudioMetadata, RecordingProducer, RingPayload,
    MAX_BLOCK_SIZE,
};

fn fresh_state() -> CaptureState {
    CaptureState {
        frame_count: 0,
        recording_meta_sent: false,
        recording_block: AlignedBlock::new(),
    }
}

fn planes<'a>(left: &'a [u8], right: &'a [u8]) -> HostBuffer<'a> {
    HostBuffer::Planes {
        count: 2,
        left: Some(Channel { raw: left, offset: 0, size: left.len() }),
        right: Some(Channel { raw: right, offset: 0, size: right.len() }),
    }
}

#[test]
fn missing_buffer_is_a_miss_and_changes_nothing() {
    let mut state = fresh_state();
    let (p, mut consumer) = create_audio_ring_buffer(4);
    let mut producer = Some(p);
    let start = state.process_dsp_buffer(HostBuffer::Missing, 48000, &mut producer);
    assert_eq!(start, CycleStart::Miss);
    assert_eq!(state.frame_count, 0);
    assert!(!state.recording_meta_sent);
    assert!(consumer.pop().is_err());
}

#[test]
fn too_few_planes_or_unmapped_memory_is_ignored() {
    let mut state = fresh_state();
    let mut producer: Option<RecordingProducer> = None;
    let raw = [0u8; 16];
    let channel = Channel { raw: &raw, offset: 0, size: 16 };
    let one = HostBuffer::Planes { count: 1, left: Some(channel), right: None };
    assert_eq!(state.process_dsp_buffer(one, 48000, &mut producer), CycleStart::Ignore);
    let none = HostBuffer::Planes { count: 0, left: None, right: None };
    assert_eq!(state.process_dsp_buffer(none, 48000, &mut producer), CycleStart::Ignore);
    let left_only = HostBuffer::Planes { count: 2, left: Some(channel), right: None };
    assert_eq!(state.process_dsp_buffer(left_only, 48000, &mut producer), CycleStart::Ignore);
    let right_only = HostBuffer::Planes { count: 3, left: None, right: Some(channel) };
    assert_eq!(state.process_dsp_buffer(right_only, 48000, &mut producer), CycleStart::Ignore);
    assert_eq!(state.frame_count, 0);
}

#[test]
fn violation_in_either_channel() {
    let mut state = fresh_state();
    let mut producer: Option<RecordingProducer> = None;
    let good = [0u8; 16];
    let bad = [0u8; 15];
    assert_eq!(
        state.process_dsp_buffer(planes(&bad, &good), 48000, &mut producer),
        CycleStart::Violation
    );
    assert_eq!(
        state.process_dsp_buffer(planes(&good, &bad), 48000, &mut producer),
        CycleStart::Violation
    );
    // an empty channel does not excuse the other one
    assert_eq!(
        state.process_dsp_buffer(planes(&[], &bad), 48000, &mut producer),
        CycleStart::Violation
    );
    assert_eq!(state.frame_count, 0);
    assert!(!state.recording_meta_sent);
}

#[test]
fn empty_chunk_is_ignored() {
    let mut state = fresh_state();
    let mut producer: Option<RecordingProducer> = None;
    let raw = [0u8; 16];
    assert_eq!(
        state.process_dsp_buffer(planes(&raw, &[]), 48000, &mut producer),
        CycleStart::Ignore
    );
    assert_eq!(state.frame_count, 0);
    assert!(!state.recording_meta_sent);
}

#[test]
fn shorter_channel_sets_the_number_of_samples() {
    let mut state = fresh_state();
    let mut producer: Option<RecordingProducer> = None;
    let long = [0u8; 64];
    let short = [0u8; 24];
    assert_eq!(
        state.process_dsp_buffer(planes(&long, &short), 48000, &mut producer),
        CycleStart::Run { n_samples: 6, measure: true, refresh_denormals: false }
    );
    assert_eq!(
        state.process_dsp_buffer(planes(&short, &long), 48000, &mut producer),
        CycleStart::Run { n_samples: 6, measure: false, refresh_denormals: false }
    );
    assert_eq!(state.frame_count, 2);
    assert!(state.recording_meta_sent);
}

#[test]
fn format_goes_ahead_once() {
    let mut state = fresh_state();
    let (p, mut consumer) = create_audio_ring_buffer(4);
    let mut producer = Some(p);
    let raw = [0u8; 16];
    state.process_dsp_buffer(planes(&raw, &raw), 44100, &mut producer);
    state.process_dsp_buffer(planes(&raw, &raw), 96000, &mut producer);
    match consumer.pop() {
        Ok(RingPayload::Metadata(meta)) => {
            assert_eq!(meta, AudioMetadata { sample_rate: 44100, bit_depth: 32, channels: 2 })
        }
        _ => panic!("no format"),
    }
    assert!(consumer.pop().is_err());
}

#[test]
fn format_counts_as_sent_without_a_recording() {
    let mut state = fresh_state();
    let mut producer: Option<RecordingProducer> = None;
    let raw = [0u8; 16];
    state.process_dsp_buffer(planes(&raw, &raw), 44100, &mut producer);
    assert!(state.recording_meta_sent);
    assert!(producer.is_none());
}

#[test]
fn one_cycle_in_16_is_measured() {
    let mut state = fresh_state();
    state.frame_count = u32::MAX - 20;
    let mut producer: Option<RecordingProducer> = None;
    let raw = [0u8; 16];
    for _ in 0..4 {
        let mut measured = 0;
        for _ in 0..16 {
            match state.process_dsp_buffer(planes(&raw, &raw), 48000, &mut producer) {
                CycleStart::Run { measure: true, .. } => measured += 1,
                CycleStart::Run { .. } => (),
                other => panic!("{:?}", other),
            }
        }
        assert_eq!(measured, 1);
    }
    assert_eq!(state.frame_count, 43);
}

#[test]
fn one_cycle_in_1024_refreshes_denormals() {
    let mut state = fresh_state();
    let mut producer: Option<RecordingProducer> = None;
    let raw = [0u8; 16];
    let mut refreshed = Vec::new();
    for i in 0..2100u32 {
        match state.process_dsp_buffer(planes(&raw, &raw), 48000, &mut producer) {
            CycleStart::Run { refresh_denormals: true, .. } => refreshed.push(i),
            CycleStart::Run { .. } => (),
            other => panic!("{:?}", other),
        }
    }
    assert_eq!(refreshed, vec![1023, 2047]);
}

#[test]
fn frame_count_wraps_around() {
    let mut state = fresh_state();
    state.frame_count = u32::MAX;
    let mut producer: Option<RecordingProducer> = None;
    let raw = [0u8; 16];
    assert_eq!(
        state.process_dsp_buffer(planes(&raw, &raw), 48000, &mut producer),
        CycleStart::Run { n_samples: 4, measure: false, refresh_denormals: true }
    );
    assert_eq!(state.frame_count, 0);
}

#[test]
fn output_is_recorded_interleaved() {
    let mut state = fresh_state();
    state.recording_block.data[4] = 77;
    let (p, mut consumer) = create_audio_ring_buffer(4);
    let mut producer = Some(p);
    assert!(!state.record_output(2, &[1, 2, 3], &[11, 12, 13], &mut producer));
    match consumer.pop() {
        Ok(RingPayload::Audio(block)) => {
            assert_eq!(block.valid_len, 4);
            assert_eq!(block.data[..5], [1, 11, 2, 12, 77]);
        }
        _ => panic!("no block"),
    }
    // the next block starts blank
    assert_eq!(state.recording_block.valid_len, 0);
    assert_eq!(state.recording_block.data[4], 0);
}

#[test]
fn nothing_is_recorded_without_a_ring_or_without_output() {
    let mut state = fresh_state();
    state.recording_block.data[0] = 5;
    let mut none: Option<RecordingProducer> = None;
    assert!(!state.record_output(2, &[1, 2], &[3, 4], &mut none));
    let (p, mut consumer) = create_audio_ring_buffer(4);
    let mut producer = Some(p);
    assert!(!state.record_output(0, &[1, 2], &[3, 4], &mut producer));
    assert!(consumer.pop().is_err());
    assert_eq!(state.recording_block.data[0], 5);
}

#[test]
fn output_too_long_for_a_block_is_dropped_without_an_overrun() {
    let mut state = fresh_state();
    state.recording_block.data[0] = 5;
    let (p, mut consumer) = create_audio_ring_buffer(4);
    let mut producer = Some(p);
    let long = vec![1u32; MAX_BLOCK_SIZE / 2 + 1];
    assert!(!state.record_output(long.len(), &long, &long, &mut producer));
    assert!(consumer.pop().is_err());
    assert_eq!(state.recording_block.data[0], 0);
    // one sample less fits
    let n = MAX_BLOCK_SIZE / 2;
    assert!(!state.record_output(n, &long, &long, &mut producer));
    match consumer.pop() {
        Ok(RingPayload::Audio(block)) => assert_eq!(block.valid_len, 4096),
        _ => panic!("no block"),
    }
}

#[test]
fn full_ring_is_an_overrun_and_keeps_what_it_holds() {
    let mut state = fresh_state();
    let (p, mut consumer) = create_audio_ring_buffer(2);
    let mut producer = Some(p);
    let raw = [0u8; 4];
    let mut overruns = 0;
    for i in 0..5u32 {
        state.process_dsp_buffer(planes(&raw, &raw), 48000, &mut producer);
        if state.record_output(1, &[i], &[i], &mut producer) {
            overruns += 1;
        }
    }
    assert_eq!(overruns, 4);
    assert!(matches!(consumer.pop(), Ok(RingPayload::Metadata(_))));
    match consumer.pop() {
        Ok(RingPayload::Audio(block)) => assert_eq!(block.data[0], 0),
        _ => panic!("no block"),
    }
    assert!(consumer.pop().is_err());
    // a drained ring takes blocks again
    assert!(!state.record_output(1, &[9], &[9], &mut producer));
}

#[test]
fn cycles_add_one_format_ahead_of_their_audio_on_a_used_ring() {
    let (mut p, mut consumer) = create_audio_ring_buffer(8);
    assert!(p.push(RingPayload::StreamStop).is_ok());
    let mut producer = Some(p);
    let mut state = fresh_state();
    let raw = [0u8; 4];
    for i in 0..2u32 {
        state.process_dsp_buffer(planes(&raw, &raw), 48000, &mut producer);
        state.record_output(1, &[i], &[i], &mut producer);
    }
    assert!(matches!(consumer.pop(), Ok(RingPayload::StreamStop)));
    assert!(matches!(consumer.pop(), Ok(RingPayload::Metadata(_))));
    assert!(matches!(consumer.pop(), Ok(RingPayload::Audio(_))));
    assert!(matches!(consumer.pop(), Ok(RingPayload::Audio(_))));
    assert!(consumer.pop().is_err());
}

#[test]
fn format_that_a_full_ring_refuses_is_not_sent_again() {
    let (mut p, mut consumer) = create_audio_ring_buffer(1);
    assert!(p.push(RingPayload::StreamStop).is_ok());
    let mut producer = Some(p);
    let mut state = fresh_state();
    let raw = [0u8; 4];
    state.process_dsp_buffer(planes(&raw, &raw), 48000, &mut producer);
    assert!(matches!(consumer.pop(), Ok(RingPayload::StreamStop)));
    assert!(state.recording_meta_sent);
    state.process_dsp_buffer(planes(&raw, &raw), 48000, &mut producer);
    state.record_output(1, &[1], &[1], &mut producer);
    assert!(matches!(consumer.pop(), Ok(RingPayload::Audio(_))));
}

#[test]
fn ring_without_room_refuses_everything() {
    let mut state = fresh_state();
    let (p, _consumer) = create_audio_ring_buffer(0);
    let mut producer = Some(p);
    assert!(state.record_output(1, &[1], &[2], &mut producer));
}

#[test]
fn finish_reports_duration_and_changed_quantum() {
    assert_eq!(
        finish_cycle(256, Some((1000, 1750)), 128),
        CycleEnd { cycle_nanos: Some(750), quantum: Some(256) }
    );
    assert_eq!(
        finish_cycle(256, None, 256),
        CycleEnd { cycle_nanos: None, quantum: None }
    );
}

#[test]
fn finish_wraps_clock_and_quantum() {
    let end = finish_cycle(0x1_0000_0005, Some((u64::MAX, 4)), 5);
    assert_eq!(end.cycle_nanos, Some(5));
    assert_eq!(end.quantum, None);
    assert_eq!(finish_cycle(0x1_0000_0005, None, 6).quantum, Some(5));
}
