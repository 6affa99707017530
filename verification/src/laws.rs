//! What holds of a recording as a whole, from the first cycle to the shutdown.
//!
//! The recording changes step by step: by what a cycle of the real-time thread does to it,
//! and by what the main thread does. The laws speak of sequences of such steps.
use crate::host::{main_step, HostEvent};
use crate::recording::{
    announced, holds_samples, recorded, AlignedBlock, RingPayload, Session, MAX_BLOCK_SIZE,
};
use vstd::prelude::*;

verus! {

/// The two things that a running cycle does to the recording.
pub enum CycleStep {
    /// It announces itself.
    Announce { rate: u32 },
    /// It records its output.
    Record {
        base: AlignedBlock<MAX_BLOCK_SIZE>,
        left: Seq<u32>,
        right: Seq<u32>,
        n: int,
        overrun: bool,
    },
}

/// The step leads from one state of the recording to another.
pub open spec fn taken(before: Session, after: Session, step: CycleStep) -> bool {
    match step {
        CycleStep::Announce { rate } => announced(before, after, rate),
        CycleStep::Record { base, left, right, n, overrun } => recorded(
            before,
            after,
            base,
            left,
            right,
            n,
            overrun,
        ),
    }
}

/// One step while the real-time thread runs: one of a cycle, which records only once one has
/// announced itself, or one of the main thread, which has no report yet that the real-time
/// thread has been stopped.
pub open spec fn running_step(before: Session, after: Session) -> bool {
    ||| exists|step: CycleStep|
        #[trigger] taken(before, after, step) && (step is Record ==> before.meta_sent)
    ||| exists|event: HostEvent|
        !(event is Stopped) && #[trigger] main_step(before, after, event)
}

/// Some steps while the real-time thread runs, however those of both threads interleave.
pub open spec fn running(states: Seq<Session>) -> bool {
    &&& states.len() > 0
    &&& forall|i: int|
        0 <= i < states.len() - 1 ==> running_step(#[trigger] states[i], states[i + 1])
}

/// What holds at the start and is kept by each of `n` steps holds throughout.
proof fn lemma_kept_by_each_step(n: int, holds: spec_fn(int) -> bool)
    requires
        0 <= n,
        holds(0),
        forall|i: int| 0 <= i < n && #[trigger] holds(i) ==> holds(i + 1),
    ensures
        forall|i: int| 0 <= i <= n ==> #[trigger] holds(i),
    decreases n,
{
    if n > 0 {
        lemma_kept_by_each_step(n - 1, holds);
        assert(holds(n - 1));
    }
}

/// A recording about to start: no cycle has run, and the ring, which can hold something, is
/// as it was made.
pub open spec fn fresh(s: Session) -> bool {
    &&& s.log.len() == 0
    &&& !s.meta_sent
    &&& s.recording ==> s.capacity > 0
}

/// The ring got nothing before the first cycle ran, and since then the format first, once,
/// and after it blocks of audio only.
pub open spec fn metadata_leads(s: Session) -> bool {
    &&& s.recording ==> s.capacity > 0
    &&& s.recording && s.meta_sent ==> s.log.len() > 0
    &&& !s.meta_sent || !s.recording ==> s.log.len() == 0
    &&& forall|i: int|
        0 <= i < s.log.len() ==> if i == 0 {
            #[trigger] s.log[i] is Metadata
        } else {
            s.log[i] is Audio
        }
}

/// However long a fresh recording runs, and whatever the ring refuses meanwhile, it has
/// accepted the format first, once, and after it blocks of audio only.
pub proof fn law_metadata_leads(states: Seq<Session>)
    requires
        running(states),
        fresh(states[0]),
    ensures
        forall|i: int| 0 <= i < states.len() ==> metadata_leads(#[trigger] states[i]),
{
    let n = states.len() - 1;
    let holds = |i: int| metadata_leads(states[i]);
    assert forall|i: int| 0 <= i < n && #[trigger] holds(i) implies holds(i + 1) by {
        assert(running_step(states[i], states[i + 1]));
    }
    lemma_kept_by_each_step(n, holds);
    assert forall|i: int| 0 <= i < states.len() implies metadata_leads(#[trigger] states[i]) by {
        assert(holds(i));
    }
}

/// `s` is what cycles make of `first`: they only add to what the ring has accepted, and what
/// they add is audio, but for the format, which is the first thing added if it was not sent
/// before.
pub open spec fn grown_by_cycles(first: Session, s: Session) -> bool {
    &&& s.recording == first.recording
    &&& s.capacity == first.capacity
    &&& first.meta_sent ==> s.meta_sent
    &&& !s.meta_sent ==> s.log == first.log
    &&& first.log.len() <= s.log.len()
    &&& s.log.take(first.log.len() as int) == first.log
    &&& forall|i: int|
        first.log.len() <= i < s.log.len() ==> (#[trigger] s.log[i] is Audio || s.log[i] is Metadata
            && i == first.log.len() && !first.meta_sent)
}

/// Whatever ring a recording starts with, and however full it is, cycles only add to what it
/// has accepted: at most one format, ahead of all the audio that they add, and none if the
/// format was sent before.
pub proof fn law_added_metadata_leads(states: Seq<Session>)
    requires
        running(states),
    ensures
        forall|i: int|
            0 <= i < states.len() ==> grown_by_cycles(states[0], #[trigger] states[i]),
{
    let first = states[0];
    let len = first.log.len() as int;
    let n = states.len() - 1;
    let holds = |i: int| grown_by_cycles(first, states[i]);
    assert(first.log.take(len) =~= first.log);
    assert forall|i: int| 0 <= i < n && #[trigger] holds(i) implies holds(i + 1) by {
        assert(running_step(states[i], states[i + 1]));
        assert(states[i + 1].log.take(len) =~= states[i].log.take(len));
    }
    lemma_kept_by_each_step(n, holds);
    assert forall|i: int| 0 <= i < states.len() implies grown_by_cycles(
        first,
        #[trigger] states[i],
    ) by {
        assert(holds(i));
    }
}

/// Whatever ring a recording starts with, and however the steps of both threads interleave
/// until the real-time thread is reported stopped: the end of the stream then comes behind
/// all that the recording has put into the ring, or, if the ring is full or there is none,
/// it does not come. It has not come before.
pub proof fn law_stream_stop_is_last(states: Seq<Session>, after: Session)
    requires
        running(states),
        main_step(states.last(), after, HostEvent::Stopped),
    ensures
        grown_by_cycles(states[0], states.last()),
        after.log == states.last().log || after.log == states.last().log.push(
            RingPayload::StreamStop,
        ),
        forall|i: int|
            states[0].log.len() <= i < states.last().log.len() ==> !(
            #[trigger] states.last().log[i] is StreamStop),
        states.last().recording && states.last().log.len() < states.last().capacity ==> after.log
            == states.last().log.push(RingPayload::StreamStop),
        !states.last().recording || states.last().capacity == 0 ==> after.log
            == states.last().log,
{
    law_added_metadata_leads(states);
}

/// A fresh recording that has ended holds the format, audio, and the end of the stream, in
/// this order: the format and the end once each, the end unless the ring was full.
pub proof fn law_fresh_recording_is_in_order(states: Seq<Session>, after: Session)
    requires
        running(states),
        fresh(states[0]),
        main_step(states.last(), after, HostEvent::Stopped),
    ensures
        metadata_leads(states.last()),
        forall|i: int|
            0 <= i < after.log.len() ==> if i == states.last().log.len() {
                #[trigger] after.log[i] is StreamStop
            } else if i == 0 {
                after.log[i] is Metadata
            } else {
                after.log[i] is Audio
            },
        states.last().log.len() <= after.log.len() <= states.last().log.len() + 1,
{
    law_metadata_leads(states);
    law_stream_stop_is_last(states, after);
    let last = states.last();
    assert forall|i: int| 0 <= i < after.log.len() implies if i == last.log.len() {
        #[trigger] after.log[i] is StreamStop
    } else if i == 0 {
        after.log[i] is Metadata
    } else {
        after.log[i] is Audio
    } by {
        if i < last.log.len() {
            assert(after.log[i] == last.log[i]);
        }
    }
}

/// How often the real-time thread is reported stopped.
pub open spec fn stops(events: Seq<HostEvent>) -> nat
    decreases events.len(),
{
    if events.len() == 0 {
        0
    } else {
        stops(events.drop_last()) + if events.last() is Stopped {
            1nat
        } else {
            0nat
        }
    }
}

/// `s` is what the main thread makes of `first` with at most `n` ends of the stream: it adds
/// those, and nothing else.
pub open spec fn grown_by_stops(first: Session, s: Session, n: nat) -> bool {
    &&& first.log.len() <= s.log.len() <= first.log.len() + n
    &&& s.log.take(first.log.len() as int) == first.log
    &&& forall|i: int|
        first.log.len() <= i < s.log.len() ==> #[trigger] s.log[i] is StreamStop
    &&& n == 0 ==> s == first
}

/// Over any sequence of events, the main thread pushes nothing but the end of the stream, at
/// most once for each report that the real-time thread has been stopped, and so nothing at
/// all until the first one.
pub proof fn law_main_thread_only_ends_the_stream(states: Seq<Session>, events: Seq<HostEvent>)
    requires
        states.len() == events.len() + 1,
        forall|i: int|
            0 <= i < events.len() ==> main_step(states[i], states[i + 1], #[trigger] events[i]),
    ensures
        grown_by_stops(states[0], states.last(), stops(events)),
{
    let first = states[0];
    let len = first.log.len() as int;
    let n = events.len() as int;
    let holds = |i: int| grown_by_stops(first, states[i], stops(events.take(i)));
    assert(first.log.take(len) =~= first.log);
    assert forall|i: int| 0 <= i < n && #[trigger] holds(i) implies holds(i + 1) by {
        assert(main_step(states[i], states[i + 1], events[i]));
        assert(events.take(i + 1).drop_last() =~= events.take(i));
        assert(states[i + 1].log.take(len) =~= states[i].log.take(len));
    }
    lemma_kept_by_each_step(n, holds);
    assert(holds(n));
    assert(events.take(n) =~= events);
}

/// The samples of a block give back both channels, and the rest of the block is as it was.
pub proof fn law_block_gives_back_both_channels<const N: usize>(
    block: AlignedBlock<N>,
    base: AlignedBlock<N>,
    left: Seq<u32>,
    right: Seq<u32>,
    n: int,
)
    requires
        holds_samples(block, base, left, right, n),
        0 <= n <= left.len(),
        n <= right.len(),
        2 * n <= N,
    ensures
        block.data@.len() == N,
        Seq::new(n as nat, |i: int| block.data@[2 * i]) == left.take(n),
        Seq::new(n as nat, |i: int| block.data@[2 * i + 1]) == right.take(n),
        forall|i: int| block.valid_len <= i < N ==> #[trigger] block.data@[i] == base.data@[i],
{
    assert(Seq::new(n as nat, |i: int| block.data@[2 * i]) =~= left.take(n));
    assert(Seq::new(n as nat, |i: int| block.data@[2 * i + 1]) =~= right.take(n));
}

/// The number of blocks of audio that a ring has accepted.
pub open spec fn audio_blocks(log: Seq<RingPayload<MAX_BLOCK_SIZE>>) -> nat
    decreases log.len(),
{
    if log.len() == 0 {
        0
    } else {
        audio_blocks(log.drop_last()) + if log.last() is Audio {
            1nat
        } else {
            0nat
        }
    }
}

/// The number of overruns among some steps.
pub open spec fn overruns(steps: Seq<CycleStep>) -> nat
    decreases steps.len(),
{
    if steps.len() == 0 {
        0
    } else {
        overruns(steps.drop_last()) + match steps.last() {
            CycleStep::Record { overrun: true, .. } => 1nat,
            _ => 0nat,
        }
    }
}

/// The number of steps that record some output which fits into a block.
pub open spec fn blocks_recorded(steps: Seq<CycleStep>) -> nat
    decreases steps.len(),
{
    if steps.len() == 0 {
        0
    } else {
        blocks_recorded(steps.drop_last()) + match steps.last() {
            CycleStep::Record { n, .. } if n != 0 && 2 * n <= MAX_BLOCK_SIZE => 1nat,
            _ => 0nat,
        }
    }
}

/// No block gets lost unseen: over any steps of cycles, whatever ring they start with, each
/// output that fits into a block is in the ring as one more block or counted as an overrun.
/// Without a ring there is neither.
pub proof fn law_every_block_is_accounted_for(states: Seq<Session>, steps: Seq<CycleStep>)
    requires
        states.len() == steps.len() + 1,
        forall|i: int|
            0 <= i < steps.len() ==> taken(states[i], states[i + 1], #[trigger] steps[i]),
    ensures
        states[0].recording ==> audio_blocks(states.last().log) + overruns(steps) == audio_blocks(
            states[0].log,
        ) + blocks_recorded(steps),
        !states[0].recording ==> states.last().log == states[0].log && overruns(steps) == 0,
{
    let first = states[0];
    let n = steps.len() as int;
    let holds = |i: int|
        {
            let done = steps.take(i);
            &&& states[i].recording == first.recording
            &&& first.recording ==> audio_blocks(states[i].log) + overruns(done) == audio_blocks(
                first.log,
            ) + blocks_recorded(done)
            &&& !first.recording ==> states[i].log == first.log && overruns(done) == 0
        };
    assert forall|i: int| 0 <= i < n && #[trigger] holds(i) implies holds(i + 1) by {
        assert(taken(states[i], states[i + 1], steps[i]));
        assert(steps.take(i + 1).drop_last() =~= steps.take(i));
        if states[i + 1].log.len() > states[i].log.len() {
            assert(states[i + 1].log.drop_last() =~= states[i].log);
        }
    }
    lemma_kept_by_each_step(n, holds);
    assert(holds(n));
    assert(steps.take(n) =~= steps);
}

} // verus!
