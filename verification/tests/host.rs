use nam_audio_pipe::host::{plan_streams, ControlLoop, HostAction, HostEvent, POLL_MILLIS};
use nam_audio_pipe::process::{CaptureState, Channel, HostBuffer};
use nam_audio_pipe::recording::{
    create_audio_ring_buffer, AlignedBlock, RecordingProducer, RingPayload,
};

#[test]
fn plan_takes_the_optimal_processor_or_the_first() {
    let plan = plan_streams(256, Some(5));
    assert_eq!(plan.latency, "256/48000");
    assert_eq!(plan.target_cpu, 5);
    let plan = plan_streams(0, None);
    assert_eq!(plan.latency, "0/48000");
    assert_eq!(plan.target_cpu, 0);
}

#[test]
fn only_known_rates_are_published() {
    let mut control = ControlLoop::new();
    let mut none: Option<RecordingProducer> = None;
    assert_eq!(
        control.run_pipewire_host(
            HostEvent::Woken { shutdown: false, active_rate: 0 },
            &mut none
        ),
        HostAction::Serve { publish_rate: None, was_silent: false, was_fading: false }
    );
    assert_eq!(
        control.run_pipewire_host(
            HostEvent::Woken { shutdown: false, active_rate: 44100 },
            &mut none
        ),
        HostAction::Serve { publish_rate: Some(44100), was_silent: false, was_fading: false }
    );
}

#[test]
fn poll_feeds_the_next_round() {
    let mut control = ControlLoop::new();
    let mut none: Option<RecordingProducer> = None;
    assert_eq!(
        control.run_pipewire_host(
            HostEvent::Polled { silent: true, fading: false, drained: 3 },
            &mut none
        ),
        HostAction::Sleep { drains: 3 }
    );
    for _ in 0..2 {
        assert_eq!(
            control.run_pipewire_host(
                HostEvent::Woken { shutdown: false, active_rate: 0 },
                &mut none
            ),
            HostAction::Serve { publish_rate: None, was_silent: true, was_fading: false }
        );
    }
    assert_eq!(
        control.run_pipewire_host(
            HostEvent::Polled { silent: false, fading: true, drained: 0x1_0000_0002 },
            &mut none
        ),
        HostAction::Sleep { drains: 2 }
    );
    assert_eq!(control, ControlLoop { was_silent: false, was_fading: true });
    assert_eq!(POLL_MILLIS, 100);
}

#[test]
fn drains_add_up_in_a_wrapping_count() {
    let mut control = ControlLoop::new();
    let mut none: Option<RecordingProducer> = None;
    let mut count = 7u32;
    let mut total = 7u64;
    for drained in [3usize, 0xFFFF_FFFF, 0x1_0000_0000, 12] {
        let polled = HostEvent::Polled { silent: false, fading: false, drained };
        match control.run_pipewire_host(polled, &mut none) {
            HostAction::Sleep { drains } => count = count.wrapping_add(drains),
            other => panic!("{:?}", other),
        }
        total += drained as u64;
    }
    assert_eq!(count as u64, total % 0x1_0000_0000);
}

fn run_cycle(state: &mut CaptureState, sample: u32, producer: &mut Option<RecordingProducer>) {
    let raw = [0u8; 4];
    let channel = Channel { raw: &raw, offset: 0, size: 4 };
    let buffer = HostBuffer::Planes { count: 2, left: Some(channel), right: Some(channel) };
    state.process_dsp_buffer(buffer, 48000, producer);
    state.record_output(1, &[sample], &[sample], producer);
}

fn fresh_state() -> CaptureState {
    CaptureState {
        frame_count: 0,
        recording_meta_sent: false,
        recording_block: AlignedBlock::new(),
    }
}

#[test]
fn shutdown_ends_the_recording_behind_all_else() {
    let (p, mut consumer) = create_audio_ring_buffer(8);
    let mut producer = Some(p);
    let mut state = fresh_state();
    run_cycle(&mut state, 1, &mut producer);
    let mut control = ControlLoop::new();
    assert_eq!(
        control.run_pipewire_host(
            HostEvent::Woken { shutdown: true, active_rate: 48000 },
            &mut producer
        ),
        HostAction::Stop
    );
    // the real-time thread still runs: its last cycle comes ahead of the end of the stream
    run_cycle(&mut state, 2, &mut producer);
    assert_eq!(
        control.run_pipewire_host(HostEvent::Stopped, &mut producer),
        HostAction::Return
    );
    assert!(producer.is_some());
    assert!(matches!(consumer.pop(), Ok(RingPayload::Metadata(_))));
    for sample in [1, 2] {
        match consumer.pop() {
            Ok(RingPayload::Audio(block)) => assert_eq!(block.data[0], sample),
            _ => panic!("no block"),
        }
    }
    assert!(matches!(consumer.pop(), Ok(RingPayload::StreamStop)));
    assert!(consumer.pop().is_err());
}

#[test]
fn main_thread_leaves_the_ring_alone_until_stopped() {
    let (p, mut consumer) = create_audio_ring_buffer(4);
    let mut producer = Some(p);
    let mut control = ControlLoop::new();
    for event in [
        HostEvent::Woken { shutdown: false, active_rate: 44100 },
        HostEvent::Polled { silent: true, fading: true, drained: 1 },
        HostEvent::Woken { shutdown: true, active_rate: 44100 },
    ] {
        control.run_pipewire_host(event, &mut producer);
        assert!(consumer.pop().is_err());
    }
    control.run_pipewire_host(HostEvent::Stopped, &mut producer);
    assert!(matches!(consumer.pop(), Ok(RingPayload::StreamStop)));
}

#[test]
fn full_ring_does_without_the_end_of_the_stream() {
    let (p, mut consumer) = create_audio_ring_buffer(2);
    let mut producer = Some(p);
    let mut state = fresh_state();
    run_cycle(&mut state, 1, &mut producer);
    let mut control = ControlLoop::new();
    assert_eq!(
        control.run_pipewire_host(HostEvent::Stopped, &mut producer),
        HostAction::Return
    );
    assert!(matches!(consumer.pop(), Ok(RingPayload::Metadata(_))));
    assert!(matches!(consumer.pop(), Ok(RingPayload::Audio(_))));
    assert!(consumer.pop().is_err());
}

#[test]
fn used_ring_ends_with_the_stream_too() {
    let (mut p, mut consumer) = create_audio_ring_buffer(8);
    assert!(p.push(RingPayload::StreamStop).is_ok());
    let mut producer = Some(p);
    let mut state = fresh_state();
    run_cycle(&mut state, 5, &mut producer);
    let mut control = ControlLoop::new();
    control.run_pipewire_host(HostEvent::Stopped, &mut producer);
    assert!(matches!(consumer.pop(), Ok(RingPayload::StreamStop)));
    assert!(matches!(consumer.pop(), Ok(RingPayload::Metadata(_))));
    assert!(matches!(consumer.pop(), Ok(RingPayload::Audio(_))));
    assert!(matches!(consumer.pop(), Ok(RingPayload::StreamStop)));
    assert!(consumer.pop().is_err());
}

#[test]
fn ring_that_holds_nothing_gets_no_end() {
    let (p, mut consumer) = create_audio_ring_buffer(0);
    let mut producer = Some(p);
    let mut control = ControlLoop::new();
    assert_eq!(
        control.run_pipewire_host(HostEvent::Stopped, &mut producer),
        HostAction::Return
    );
    assert!(consumer.pop().is_err());
}

#[test]
fn shutdown_without_a_recording_just_stops() {
    let mut control = ControlLoop { was_silent: true, was_fading: true };
    let mut none: Option<RecordingProducer> = None;
    assert_eq!(
        control.run_pipewire_host(HostEvent::Woken { shutdown: true, active_rate: 1 }, &mut none),
        HostAction::Stop
    );
    assert_eq!(control.run_pipewire_host(HostEvent::Stopped, &mut none), HostAction::Return);
    assert!(none.is_none());
    assert_eq!(control, ControlLoop { was_silent: true, was_fading: true });
}
