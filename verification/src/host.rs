//! The main thread of the host: what the streams are set up with, the control loop, and the
//! shutdown.
//!
//! While the real-time thread runs, the main thread wakes up, serves the requests of the
//! real-time side, polls its status, and sleeps. The caller does that work; [`ControlLoop`]
//! decides what is to be done.
//!
//! The recording ring has one writer at a time: the real-time thread until it has been
//! stopped, and the main thread only then.
use crate::process::wrapped;
use crate::properties::{latency, latency_string};
use crate::recording::{
    offer, offered, same_ring, session, RecordingProducer, RingPayload, Session,
};
use vstd::prelude::*;

verus! {

/// How long the control loop sleeps between two rounds.
pub const POLL_MILLIS: u64 = 100;

/// What both streams are set up with.
pub struct StreamPlan {
    /// The latency to ask the host for.
    pub latency: String,
    /// The processor that the real-time thread is bound to.
    pub target_cpu: usize,
}

/// Plans the streams for a buffer size. `optimal_cpu` is the processor that was found to
/// suit the real-time thread best; without one it is the first.
pub fn plan_streams(buffer_size: u32, optimal_cpu: Option<usize>) -> (plan: StreamPlan)
    ensures
        plan.latency@ == latency(buffer_size),
        plan.target_cpu == match optimal_cpu {
            Some(cpu) => cpu,
            None => 0,
        },
{
    StreamPlan { latency: latency_string(buffer_size), target_cpu: optimal_cpu.unwrap_or(0) }
}

/// What the main thread observes.
#[derive(Debug, Clone, Copy, PartialEq, Eq, Structural)]
pub enum HostEvent {
    /// A round begins: whether a shutdown has been requested, and the sample rate that the
    /// real-time side runs at (zero if it does not know yet).
    Woken { shutdown: bool, active_rate: u32 },
    /// The status has been polled and the garbage of the real-time side drained: whether
    /// the output is silent, whether it fades, and the number of items drained.
    Polled { silent: bool, fading: bool, drained: usize },
    /// The real-time thread has been stopped.
    Stopped,
}

/// What the main thread is to do.
#[derive(Debug, Clone, Copy, PartialEq, Eq, Structural)]
pub enum HostAction {
    /// Publish the sample rate if there is one, serve the requests of the real-time side,
    /// then poll its status, handing over what the last poll found.
    Serve { publish_rate: Option<u32>, was_silent: bool, was_fading: bool },
    /// Add to the count of drained items, and sleep for [`POLL_MILLIS`].
    Sleep { drains: u32 },
    /// Stop the real-time thread, then report that it has been stopped.
    Stop,
    /// Return: the host is done.
    Return,
}

/// The state of the control loop: what the last poll found.
#[derive(Debug, Clone, Copy, PartialEq, Eq, Structural)]
pub struct ControlLoop {
    pub was_silent: bool,
    pub was_fading: bool,
}

/// The rate to publish: a known one.
pub open spec fn known_rate(rate: u32) -> Option<u32> {
    if rate == 0 {
        None
    } else {
        Some(rate)
    }
}

impl ControlLoop {
    /// The control loop before its first round.
    pub open spec fn initial() -> ControlLoop {
        ControlLoop { was_silent: false, was_fading: false }
    }

    /// The state after an event.
    pub open spec fn after(self, event: HostEvent) -> ControlLoop {
        match event {
            HostEvent::Polled { silent, fading, .. } => ControlLoop {
                was_silent: silent,
                was_fading: fading,
            },
            _ => self,
        }
    }

    /// The answer to an event.
    pub open spec fn action(self, event: HostEvent) -> HostAction {
        match event {
            HostEvent::Woken { shutdown: true, .. } => HostAction::Stop,
            HostEvent::Woken { shutdown: false, active_rate } => HostAction::Serve {
                publish_rate: known_rate(active_rate),
                was_silent: self.was_silent,
                was_fading: self.was_fading,
            },
            HostEvent::Polled { drained, .. } => HostAction::Sleep { drains: wrapped(drained) },
            HostEvent::Stopped => HostAction::Return,
        }
    }

    /// The control loop before its first round.
    pub fn new() -> (control: ControlLoop)
        ensures
            control == ControlLoop::initial(),
    {
        ControlLoop { was_silent: false, was_fading: false }
    }

    /// One step of the main thread. It leaves the recording alone until the real-time
    /// thread has been stopped; then it ends it, if there is one.
    pub fn run_pipewire_host(
        &mut self,
        event: HostEvent,
        recording_producer: &mut Option<RecordingProducer>,
    ) -> (action: HostAction)
        ensures
            action == old(self).action(event),
            *final(self) == old(self).after(event),
            event is Stopped ==> ended(
                session(*old(recording_producer), true),
                session(*final(recording_producer), true),
            ),
            !(event is Stopped) ==> *final(recording_producer) == *old(recording_producer),
            same_ring(*old(recording_producer), *final(recording_producer)),
    {
        match event {
            HostEvent::Woken { shutdown: true, .. } => HostAction::Stop,
            HostEvent::Woken { shutdown: false, active_rate } => {
                let publish_rate = if active_rate != 0 {
                    Some(active_rate)
                } else {
                    None
                };
                HostAction::Serve {
                    publish_rate,
                    was_silent: self.was_silent,
                    was_fading: self.was_fading,
                }
            },
            HostEvent::Polled { silent, fading, drained } => {
                self.was_silent = silent;
                self.was_fading = fading;
                let wide: u64 = drained as u64;
                proof {
                    assert(wide as u32 == wide % 0x1_0000_0000) by (bit_vector);
                }
                HostAction::Sleep { drains: wide as u32 }
            },
            HostEvent::Stopped => {
                offer(recording_producer, RingPayload::StreamStop);
                HostAction::Return
            },
        }
    }
}

/// What the end of the recording does to the session: the end of the stream is offered to
/// the ring, if there is one. Whether the format has been sent plays no part in it.
pub open spec fn ended(before: Session, after: Session) -> bool {
    if before.recording {
        offered(before, after, RingPayload::StreamStop)
    } else {
        after == before
    }
}

/// What a step of the main thread does to the session.
pub open spec fn main_step(before: Session, after: Session, event: HostEvent) -> bool {
    if event is Stopped {
        ended(before, after)
    } else {
        after == before
    }
}

/// The state after a sequence of events.
pub open spec fn after_all(control: ControlLoop, events: Seq<HostEvent>) -> ControlLoop
    decreases events.len(),
{
    if events.len() == 0 {
        control
    } else {
        after_all(control, events.drop_last()).after(events.last())
    }
}

/// What a poll found is what the next one is handed, whatever else happens in between.
pub proof fn law_poll_feeds_the_next(
    control: ControlLoop,
    events: Seq<HostEvent>,
    i: int,
    rate: u32,
)
    requires
        0 <= i < events.len(),
        events[i] is Polled,
        forall|j: int| i < j < events.len() ==> !(#[trigger] events[j] is Polled),
    ensures
        after_all(control, events).action(HostEvent::Woken { shutdown: false, active_rate: rate })
            == (HostAction::Serve {
            publish_rate: known_rate(rate),
            was_silent: events[i]->silent,
            was_fading: events[i]->fading,
        }),
    decreases events.len(),
{
    if i < events.len() - 1 {
        assert(!(events.last() is Polled));
        law_poll_feeds_the_next(control, events.drop_last(), i, rate);
    }
}

/// Until there has been a poll, the output counts as neither silent nor fading.
pub proof fn law_first_poll_starts_afresh(events: Seq<HostEvent>, rate: u32)
    requires
        forall|j: int| 0 <= j < events.len() ==> !(#[trigger] events[j] is Polled),
    ensures
        after_all(ControlLoop::initial(), events).action(
            HostEvent::Woken { shutdown: false, active_rate: rate },
        ) == (HostAction::Serve {
            publish_rate: known_rate(rate),
            was_silent: false,
            was_fading: false,
        }),
    decreases events.len(),
{
    if events.len() > 0 {
        assert(!(events.last() is Polled));
        law_first_poll_starts_afresh(events.drop_last(), rate);
    }
}

/// Whatever has happened before, the main thread stops when it wakes up to a shutdown, and
/// not when it wakes up without one.
pub proof fn law_shutdown_ends_any_run(
    control: ControlLoop,
    events: Seq<HostEvent>,
    shutdown: bool,
    rate: u32,
)
    ensures
        after_all(control, events).action(HostEvent::Woken { shutdown, active_rate: rate }) is Stop
            <==> shutdown,
{
}

/// The number of items drained over a sequence of events.
pub open spec fn items_drained(events: Seq<HostEvent>) -> int
    decreases events.len(),
{
    if events.len() == 0 {
        0
    } else {
        items_drained(events.drop_last()) + match events.last() {
            HostEvent::Polled { drained, .. } => drained as int,
            _ => 0,
        }
    }
}

/// The sum of what the answers to a sequence of events add to the count of drained items.
pub open spec fn drains_answered(control: ControlLoop, events: Seq<HostEvent>) -> int
    decreases events.len(),
{
    if events.len() == 0 {
        0
    } else {
        drains_answered(control, events.drop_last()) + match after_all(
            control,
            events.drop_last(),
        ).action(events.last()) {
            HostAction::Sleep { drains } => drains as int,
            _ => 0,
        }
    }
}

/// Over any sequence of events, a 32-bit count that wraps around counts the items drained.
pub proof fn law_drains_add_up(control: ControlLoop, events: Seq<HostEvent>)
    ensures
        drains_answered(control, events) % 0x1_0000_0000 == items_drained(events) % 0x1_0000_0000,
    decreases events.len(),
{
    if events.len() > 0 {
        law_drains_add_up(control, events.drop_last());
    }
}

} // verus!
