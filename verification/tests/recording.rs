use nam_audio_pipe::recording::{
    create_audio_ring_buffer, AlignedBlock, AudioMetadata, RingPayload, MAX_BLOCK_SIZE,
    MAX_PAYLOAD_BYTES,
};

#[test]
fn new_block_is_blank() {
    let block = AlignedBlock::<8>::new();
    assert_eq!(block.valid_len, 0);
    assert_eq!(block.data, [0u32; 8]);
}

#[test]
fn interleave_alternates_channels_and_keeps_the_rest() {
    let mut block = AlignedBlock::<8> { data: [9; 8], valid_len: 1 };
    block.interleave(&[1, 2, 3, 4], &[11, 12, 13], 3);
    assert_eq!(block.valid_len, 6);
    assert_eq!(block.data, [1, 11, 2, 12, 3, 13, 9, 9]);
}

#[test]
fn interleave_fills_a_block_to_the_end() {
    let mut block = AlignedBlock::<4>::new();
    block.interleave(&[5, 6], &[7, 8], 2);
    assert_eq!(block.valid_len, 4);
    assert_eq!(block.data, [5, 7, 6, 8]);
}

#[test]
fn interleave_of_nothing_keeps_the_samples() {
    let mut block = AlignedBlock::<4> { data: [3; 4], valid_len: 4 };
    block.interleave(&[], &[], 0);
    assert_eq!(block.valid_len, 0);
    assert_eq!(block.data, [3; 4]);
}

#[test]
fn interleaved_floats_survive_as_bits() {
    let left = [0.5f32, -0.0, f32::INFINITY];
    let right = [-0.5f32, 1.0e-40, f32::NEG_INFINITY];
    let left_bits: Vec<u32> = left.iter().map(|x| x.to_bits()).collect();
    let right_bits: Vec<u32> = right.iter().map(|x| x.to_bits()).collect();
    let mut block = AlignedBlock::<MAX_BLOCK_SIZE>::new();
    block.interleave(&left_bits, &right_bits, 3);
    for i in 0..3 {
        assert_eq!(block.data[2 * i], left[i].to_bits());
        assert_eq!(block.data[2 * i + 1], right[i].to_bits());
    }
}

#[test]
fn ring_holds_what_it_was_made_for() {
    let (mut producer, mut consumer) = create_audio_ring_buffer(2);
    assert_eq!(producer.buffer().capacity(), 2);
    assert!(consumer.pop().is_err());
    let meta = AudioMetadata { sample_rate: 44100, bit_depth: 32, channels: 2 };
    assert!(producer.push(RingPayload::Metadata(meta)).is_ok());
    assert!(producer.push(RingPayload::StreamStop).is_ok());
    assert!(producer.push(RingPayload::StreamStop).is_err());
    match consumer.pop() {
        Ok(RingPayload::Metadata(m)) => assert_eq!(m, meta),
        other => panic!("{:?}", other.is_ok()),
    }
    assert!(matches!(consumer.pop(), Ok(RingPayload::StreamStop)));
    assert!(consumer.pop().is_err());
}

#[test]
fn payload_is_within_its_bound() {
    assert!(std::mem::size_of::<RingPayload<MAX_BLOCK_SIZE>>() <= MAX_PAYLOAD_BYTES);
}
