//! What each operation does, call by call.
//!
//! Every law here is about a call: it says of which arguments the operation takes, and what
//! they and the results have to do with each other, in plain values alone.
use crate::contract::{check_ffi_contract, silence};
use crate::host::{plan_streams, ControlLoop, HostAction, HostEvent, StreamPlan};
use crate::process::{
    finish_cycle, CaptureState, Channel, CycleEnd, CycleStart, HostBuffer,
};
use crate::properties::{
    create_capture_properties, latency_string, Property, StreamProperties,
};
use crate::recording::{
    create_audio_ring_buffer, feeds, pushed, ring_capacity, AlignedBlock, AudioMetadata,
    RecordingConsumer, RecordingProducer, RingPayload,
};
use crate::setup::{
    load_initial_cabsim, load_initial_model, plan_cabsim, wants_slimmable_copy, CabSimOutcome,
    CabSimPlan, CabSimStart, ModelKind, ModelOutcome, ModelStart,
};
use crate::text::{decimal_value, lemma_decimal_digits, law_decimal_round_trip, push_decimal};
use vstd::prelude::*;

verus! {

/// A chunk of `size` bytes at `offset` covers `bytes` bytes of a memory of `len` bytes: it
/// starts inside, it covers no more than there are, and it stops only where it or the memory
/// ends.
pub open spec fn covers(len: int, offset: int, size: int, bytes: int) -> bool {
    &&& 0 <= offset <= len
    &&& bytes <= size
    &&& offset + bytes <= len
    &&& bytes == size || offset + bytes == len
}

/// A channel is checked by what its chunk covers: the answer is that number of bytes and a
/// quarter of it if it is a multiple of four, and none if it is not, or if the chunk starts
/// behind the memory.
pub proof fn law_check_ffi_contract(
    raw: &[u8],
    offset: usize,
    size: usize,
    r: Option<(usize, usize)>,
    bytes: int,
)
    requires
        call_ensures(check_ffi_contract, (raw, offset, size), r),
    ensures
        call_requires(check_ffi_contract, (raw, offset, size)),
        offset > raw@.len() ==> r is None,
        covers(raw@.len() as int, offset as int, size as int, bytes) ==> if bytes % 4 == 0 {
            r matches Some((n_bytes, n_samples)) && n_bytes == bytes && 4 * n_samples == bytes
        } else {
            r is None
        },
{
}

/// Silencing keeps the length of a memory and leaves nothing but zeros in it.
pub proof fn law_silence(raw: &mut [u8], i: int)
    requires
        call_ensures(silence, (raw,), ()),
    ensures
        call_requires(silence, (raw,)),
        final(raw)@.len() == old(raw)@.len(),
        0 <= i < old(raw)@.len() ==> final(raw)@[i] == 0,
{
}

/// Without a buffer the cycle is a miss; a buffer with fewer than two planes, or with one of
/// the two unmapped, is ignored. No cycle runs, and nothing changes.
pub proof fn law_cycle_needs_two_mapped_planes(
    state: &mut CaptureState,
    buffer: HostBuffer<'_>,
    rate: u32,
    producer: &mut Option<RecordingProducer>,
    start: CycleStart,
)
    requires
        call_ensures(CaptureState::process_dsp_buffer, (state, buffer, rate, producer), start),
    ensures
        call_requires(CaptureState::process_dsp_buffer, (state, buffer, rate, producer)),
        buffer is Missing <==> start is Miss,
        buffer matches HostBuffer::Planes { count, left, right } && (count < 2 || left is None
            || right is None) ==> start is Ignore,
        !(start is Run) ==> *final(state) == *old(state) && *final(producer) == *old(producer),
{
}

/// Two mapped planes are taken by what their chunks cover. If either chunk starts behind its
/// memory or covers a broken sample, the host has violated its contract. Else a cycle runs
/// just if both cover something, and it runs over all samples that both cover.
pub proof fn law_cycle_runs_over_what_both_channels_cover(
    state: &mut CaptureState,
    count: usize,
    left: Channel<'_>,
    right: Channel<'_>,
    rate: u32,
    producer: &mut Option<RecordingProducer>,
    start: CycleStart,
    bytes_l: int,
    bytes_r: int,
)
    requires
        call_ensures(
            CaptureState::process_dsp_buffer,
            (
                state,
                HostBuffer::Planes { count, left: Some(left), right: Some(right) },
                rate,
                producer,
            ),
            start,
        ),
        count >= 2,
    ensures
        left.offset > left.raw@.len() ==> start is Violation,
        right.offset > right.raw@.len() ==> start is Violation,
        covers(left.raw@.len() as int, left.offset as int, left.size as int, bytes_l) && covers(
            right.raw@.len() as int,
            right.offset as int,
            right.size as int,
            bytes_r,
        ) ==> {
            &&& bytes_l % 4 != 0 || bytes_r % 4 != 0 <==> start is Violation
            &&& bytes_l % 4 == 0 && bytes_r % 4 == 0 && (bytes_l == 0 || bytes_r == 0)
                <==> start is Ignore
            &&& bytes_l % 4 == 0 && bytes_r % 4 == 0 && bytes_l > 0 && bytes_r > 0
                <==> start is Run
            &&& start is Run ==> {
                &&& 4 * start->n_samples <= bytes_l
                &&& 4 * start->n_samples <= bytes_r
                &&& 4 * start->n_samples == bytes_l || 4 * start->n_samples == bytes_r
            }
        },
{
}

/// A cycle that runs is counted, modulo 2^32. It is timed just if the count before it is a
/// multiple of 16, and it sets the denormal mode anew just if the count after it is one of
/// 1024. The block for the recording stays, and the format counts as sent.
pub proof fn law_running_cycle_is_counted(
    state: &mut CaptureState,
    buffer: HostBuffer<'_>,
    rate: u32,
    producer: &mut Option<RecordingProducer>,
    start: CycleStart,
)
    requires
        call_ensures(CaptureState::process_dsp_buffer, (state, buffer, rate, producer), start),
        start is Run,
    ensures
        final(state).frame_count as int == (old(state).frame_count + 1) % 0x1_0000_0000,
        start->measure <==> old(state).frame_count as int % 16 == 0,
        start->refresh_denormals <==> (old(state).frame_count + 1) % 1024 == 0,
        final(state).recording_block == old(state).recording_block,
        final(state).recording_meta_sent,
{
}

/// A running cycle offers the ring the format, if it was not sent before: the host's rate, 32
/// bits, two channels. The ring takes it as its newest or leaves it; it takes it while it has
/// accepted less than it can hold. Else the ring is left alone, as it is if there is none.
pub proof fn law_first_running_cycle_sends_the_format(
    state: &mut CaptureState,
    buffer: HostBuffer<'_>,
    rate: u32,
    producer: &mut Option<RecordingProducer>,
    start: CycleStart,
    c: RecordingConsumer,
)
    requires
        call_ensures(CaptureState::process_dsp_buffer, (state, buffer, rate, producer), start),
        start is Run,
    ensures
        old(state).recording_meta_sent ==> *final(producer) == *old(producer),
        *old(producer) is None ==> *final(producer) is None,
        *old(producer) matches Some(before) ==> {
            &&& *final(producer) matches Some(after)
            &&& ring_capacity(after) == ring_capacity(before)
            &&& feeds(after, c) == feeds(before, c)
            &&& !old(state).recording_meta_sent ==> {
                let format = RingPayload::Metadata(
                    AudioMetadata { sample_rate: rate, bit_depth: 32, channels: 2 },
                );
                &&& pushed(after) == pushed(before) || pushed(after) == pushed(before).push(format)
                &&& pushed(before).len() < ring_capacity(before) ==> pushed(after) == pushed(
                    before,
                ).push(format)
                &&& ring_capacity(before) == 0 ==> pushed(after) == pushed(before)
            }
        },
{
}

/// How a cycle starts depends on the buffer and on the count of cycles alone, not on the
/// recording or on the rate.
pub proof fn law_recording_does_not_touch_the_audio(
    state: &mut CaptureState,
    other_state: &mut CaptureState,
    buffer: HostBuffer<'_>,
    rate: u32,
    other_rate: u32,
    producer: &mut Option<RecordingProducer>,
    other_producer: &mut Option<RecordingProducer>,
    start: CycleStart,
    other_start: CycleStart,
)
    requires
        call_ensures(CaptureState::process_dsp_buffer, (state, buffer, rate, producer), start),
        call_ensures(
            CaptureState::process_dsp_buffer,
            (other_state, buffer, other_rate, other_producer),
            other_start,
        ),
        old(state).frame_count == old(other_state).frame_count,
    ensures
        start == other_start,
{
}

/// Output that fits into a block is put into one, left and right in turn, with what was
/// behind it in the block at hand. The ring takes that block as its newest, or there is an
/// overrun and the ring has got nothing; there is none while the ring has accepted less than
/// it can hold.
pub proof fn law_output_is_recorded_left_and_right_in_turn(
    state: &mut CaptureState,
    n_pw: usize,
    out_l: &[u32],
    out_r: &[u32],
    producer: &mut Option<RecordingProducer>,
    overrun: bool,
    c: RecordingConsumer,
)
    requires
        call_ensures(
            CaptureState::record_output,
            (state, n_pw, out_l, out_r, producer),
            overrun,
        ),
        *old(producer) is Some,
        0 < n_pw <= 2048,
        n_pw <= out_l@.len(),
        n_pw <= out_r@.len(),
    ensures
        call_requires(CaptureState::record_output, (state, n_pw, out_l, out_r, producer)),
        *final(producer) is Some,
        ({
            let before = (*old(producer))->0;
            let after = (*final(producer))->0;
            let block = pushed(after).last()->Audio_0;
            let base = old(state).recording_block.data@;
            &&& ring_capacity(after) == ring_capacity(before)
            &&& feeds(after, c) == feeds(before, c)
            &&& overrun ==> pushed(after) == pushed(before)
            &&& pushed(before).len() < ring_capacity(before) ==> !overrun
            &&& ring_capacity(before) == 0 ==> overrun
            &&& !overrun ==> {
                &&& pushed(after).len() == pushed(before).len() + 1
                &&& pushed(after).drop_last() == pushed(before)
                &&& pushed(after).last() is Audio
                &&& block.valid_len == 2 * n_pw
                &&& forall|i: int|
                    0 <= i < n_pw ==> block.data@[2 * i] == #[trigger] out_l@[i]
                &&& forall|i: int|
                    0 <= i < n_pw ==> block.data@[2 * i + 1] == #[trigger] out_r@[i]
                &&& forall|i: int|
                    2 * n_pw <= i < 4096 ==> #[trigger] block.data@[i] == base[i]
            }
        }),
{
    let after = (*final(producer))->0;
    if !overrun {
        assert(pushed(after).drop_last() =~= pushed((*old(producer))->0));
    }
}

/// Without a ring, without output, or with output that no block can hold, nothing is
/// recorded, and there is no overrun.
pub proof fn law_what_cannot_be_recorded_is_no_overrun(
    state: &mut CaptureState,
    n_pw: usize,
    out_l: &[u32],
    out_r: &[u32],
    producer: &mut Option<RecordingProducer>,
    overrun: bool,
)
    requires
        call_ensures(
            CaptureState::record_output,
            (state, n_pw, out_l, out_r, producer),
            overrun,
        ),
        *old(producer) is None || n_pw == 0 || n_pw > 2048,
    ensures
        2 * n_pw <= usize::MAX ==> call_requires(
            CaptureState::record_output,
            (state, n_pw, out_l, out_r, producer),
        ),
        !overrun,
        *old(producer) is None <==> *final(producer) is None,
        *old(producer) matches Some(before) ==> *final(producer) matches Some(after) && pushed(
            after,
        ) == pushed(before) && ring_capacity(after) == ring_capacity(before),
{
}

/// Recording leaves the count of cycles and the flag for the format alone. The block at hand
/// is exchanged for a blank one just if there is a ring and some output.
pub proof fn law_recording_exchanges_the_block(
    state: &mut CaptureState,
    n_pw: usize,
    out_l: &[u32],
    out_r: &[u32],
    producer: &mut Option<RecordingProducer>,
    overrun: bool,
    i: int,
)
    requires
        call_ensures(
            CaptureState::record_output,
            (state, n_pw, out_l, out_r, producer),
            overrun,
        ),
    ensures
        final(state).frame_count == old(state).frame_count,
        final(state).recording_meta_sent == old(state).recording_meta_sent,
        if *old(producer) is Some && n_pw > 0 {
            &&& final(state).recording_block.valid_len == 0
            &&& 0 <= i < 4096 ==> final(state).recording_block.data@[i] == 0
        } else {
            final(state).recording_block == old(state).recording_block
        },
{
}

/// A cycle ends with the time between the readings of the clock, modulo 2^64, if there are
/// any, and with the number of samples, modulo 2^32, just if it is not the last one stored.
pub proof fn law_cycle_end(
    n_samples: usize,
    clock: Option<(u64, u64)>,
    last_n_samples: u32,
    end: CycleEnd,
)
    requires
        call_ensures(finish_cycle, (n_samples, clock, last_n_samples), end),
    ensures
        call_requires(finish_cycle, (n_samples, clock, last_n_samples)),
        clock is None <==> end.cycle_nanos is None,
        clock matches Some((start, stop)) ==> end.cycle_nanos matches Some(nanos) && (start + nanos)
            % 0x1_0000_0000_0000_0000 == stop,
        end.quantum is None <==> n_samples as int % 0x1_0000_0000 == last_n_samples,
        end.quantum matches Some(n) ==> n == n_samples as int % 0x1_0000_0000,
{
}

/// A new block is blank.
pub proof fn law_new_block<const N: usize>(block: AlignedBlock<N>, i: int)
    requires
        call_ensures(AlignedBlock::<N>::new, (), block),
    ensures
        call_requires(AlignedBlock::<N>::new, ()),
        block.valid_len == 0,
        0 <= i < N ==> block.data@[i] == 0,
{
}

/// Interleaving puts sample `i` of the left channel at `2 * i` and that of the right channel
/// behind it, and leaves the rest of the block.
pub proof fn law_interleave<const N: usize>(
    block: &mut AlignedBlock<N>,
    left: &[u32],
    right: &[u32],
    n: usize,
)
    requires
        call_ensures(AlignedBlock::<N>::interleave, (block, left, right, n), ()),
        2 * n <= N,
        n <= left@.len(),
        n <= right@.len(),
    ensures
        call_requires(AlignedBlock::<N>::interleave, (block, left, right, n)),
        final(block).valid_len == 2 * n,
        forall|i: int| 0 <= i < n ==> final(block).data@[2 * i] == #[trigger] left@[i],
        forall|i: int| 0 <= i < n ==> final(block).data@[2 * i + 1] == #[trigger] right@[i],
        forall|i: int|
            2 * n <= i < N ==> #[trigger] final(block).data@[i] == old(block).data@[i],
{
}

/// A new ring has two ends, holds what was asked for, and has accepted nothing.
pub proof fn law_new_ring(capacity: usize, r: (RecordingProducer, RecordingConsumer))
    requires
        call_ensures(create_audio_ring_buffer, (capacity,), r),
    ensures
        capacity * 32768 <= isize::MAX ==> call_requires(create_audio_ring_buffer, (capacity,)),
        feeds(r.0, r.1),
        ring_capacity(r.0) == capacity,
        pushed(r.0).len() == 0,
{
}

/// A requested shutdown stops the host at once, whatever was seen before, and nothing else
/// does.
pub proof fn law_shutdown_is_obeyed(
    control: &mut ControlLoop,
    event: HostEvent,
    producer: &mut Option<RecordingProducer>,
    action: HostAction,
)
    requires
        call_ensures(ControlLoop::run_pipewire_host, (control, event, producer), action),
    ensures
        call_requires(ControlLoop::run_pipewire_host, (control, event, producer)),
        action is Stop <==> event is Woken && event->shutdown,
        action is Return <==> event is Stopped,
        event is Woken ==> *final(control) == *old(control),
        event is Stopped ==> *final(control) == *old(control),
{
}

/// While no shutdown is requested, the host serves on: it publishes the rate just if it is not
/// zero, and polls with what it knows of the last poll.
pub proof fn law_host_serves_until_shutdown(
    control: &mut ControlLoop,
    rate: u32,
    producer: &mut Option<RecordingProducer>,
    action: HostAction,
)
    requires
        call_ensures(
            ControlLoop::run_pipewire_host,
            (control, HostEvent::Woken { shutdown: false, active_rate: rate }, producer),
            action,
        ),
    ensures
        action is Serve,
        action->publish_rate is None <==> rate == 0,
        action->publish_rate matches Some(published) ==> published == rate,
        action->was_silent == old(control).was_silent,
        action->was_fading == old(control).was_fading,
{
}

/// What a poll finds is kept, and what was drained is counted, modulo 2^32; then the host
/// sleeps.
pub proof fn law_poll_is_kept(
    control: &mut ControlLoop,
    silent: bool,
    fading: bool,
    drained: usize,
    producer: &mut Option<RecordingProducer>,
    action: HostAction,
)
    requires
        call_ensures(
            ControlLoop::run_pipewire_host,
            (control, HostEvent::Polled { silent, fading, drained }, producer),
            action,
        ),
    ensures
        action is Sleep,
        action->drains as int == drained as int % 0x1_0000_0000,
        final(control).was_silent == silent,
        final(control).was_fading == fading,
{
}

/// The main thread writes to the ring just when the real-time thread has been stopped: it
/// offers the end of the stream. The ring takes it as its newest or leaves it; it takes it
/// while it has accepted less than it can hold.
pub proof fn law_recording_ends_once_stopped(
    control: &mut ControlLoop,
    event: HostEvent,
    producer: &mut Option<RecordingProducer>,
    action: HostAction,
    c: RecordingConsumer,
)
    requires
        call_ensures(ControlLoop::run_pipewire_host, (control, event, producer), action),
    ensures
        !(event is Stopped) ==> *final(producer) == *old(producer),
        *old(producer) is None ==> *final(producer) is None,
        *old(producer) matches Some(before) ==> {
            &&& *final(producer) matches Some(after)
            &&& ring_capacity(after) == ring_capacity(before)
            &&& feeds(after, c) == feeds(before, c)
            &&& event is Stopped ==> {
                &&& pushed(after) == pushed(before) || pushed(after) == pushed(before).push(
                    RingPayload::StreamStop,
                )
                &&& pushed(before).len() < ring_capacity(before) ==> pushed(after) == pushed(
                    before,
                ).push(RingPayload::StreamStop)
                &&& ring_capacity(before) == 0 ==> pushed(after) == pushed(before)
            }
        },
{
}

/// The control loop starts with neither silence nor a fade seen.
pub proof fn law_new_control_loop(control: ControlLoop)
    requires
        call_ensures(ControlLoop::new, (), control),
    ensures
        call_requires(ControlLoop::new, ()),
        !control.was_silent,
        !control.was_fading,
{
}

/// `s` is `n` in decimal notation: digits only, no zero in front of others, and read from left
/// to right they give `n`.
pub open spec fn is_decimal(s: Seq<char>, n: int) -> bool {
    &&& s.len() > 0
    &&& forall|i: int| 0 <= i < s.len() ==> '0' <= #[trigger] s[i] <= '9'
    &&& s[0] == '0' ==> s.len() == 1
    &&& decimal_value(s) == n
}

/// `s` is a number of frames over the nominal rate.
pub open spec fn is_latency(s: Seq<char>, frames: int) -> bool {
    &&& s.len() > 6
    &&& is_decimal(s.take(s.len() - 6), frames)
    &&& s.skip(s.len() - 6) == seq!['/', '4', '8', '0', '0', '0']
}

/// Appending a number keeps the text and adds the number in decimal notation.
pub proof fn law_push_decimal(out: &mut String, n: u32)
    requires
        call_ensures(push_decimal, (out, n), ()),
    ensures
        call_requires(push_decimal, (out, n)),
        old(out)@.len() <= final(out)@.len(),
        final(out)@.take(old(out)@.len() as int) == old(out)@,
        is_decimal(final(out)@.skip(old(out)@.len() as int), n as int),
{
    let k = old(out)@.len() as int;
    lemma_decimal_digits(n as nat);
    law_decimal_round_trip(n as nat);
    assert(final(out)@.take(k) =~= old(out)@);
    assert(final(out)@.skip(k) =~= crate::text::decimal(n as nat));
}

/// The latency of a buffer is its size over the nominal rate.
pub proof fn law_latency_string(buffer_size: u32, s: String)
    requires
        call_ensures(latency_string, (buffer_size,), s),
    ensures
        call_requires(latency_string, (buffer_size,)),
        is_latency(s@, buffer_size as int),
{
    lemma_latency(buffer_size);
}

proof fn lemma_latency(buffer_size: u32)
    ensures
        is_latency(crate::properties::latency(buffer_size), buffer_size as int),
{
    let digits = crate::text::decimal(buffer_size as nat);
    let s = crate::properties::latency(buffer_size);
    reveal_strlit("/48000");
    lemma_decimal_digits(buffer_size as nat);
    law_decimal_round_trip(buffer_size as nat);
    assert(s.take(s.len() - 6) =~= digits);
    assert(s.skip(s.len() - 6) =~= seq!['/', '4', '8', '0', '0', '0']);
}

/// The streams get the latency of the buffer size, and the processor that was found best or
/// the first.
pub proof fn law_plan_streams(buffer_size: u32, optimal_cpu: Option<usize>, plan: StreamPlan)
    requires
        call_ensures(plan_streams, (buffer_size, optimal_cpu), plan),
    ensures
        call_requires(plan_streams, (buffer_size, optimal_cpu)),
        is_latency(plan.latency@, buffer_size as int),
        optimal_cpu matches Some(cpu) ==> plan.target_cpu == cpu,
        optimal_cpu is None ==> plan.target_cpu == 0,
{
    lemma_latency(buffer_size);
}

/// A property is looked up by its key: the answer is the value of the first entry that has
/// it, and none just if no entry has.
pub proof fn law_property_lookup(
    properties: &StreamProperties,
    key: &str,
    value: Option<&str>,
    i: int,
)
    requires
        call_ensures(StreamProperties::get, (properties, key), value),
        0 <= i < properties.entries@.len(),
        properties.entries@[i].key@ == key@,
        forall|j: int| 0 <= j < i ==> (#[trigger] properties.entries@[j]).key@ != key@,
    ensures
        call_requires(StreamProperties::get, (properties, key)),
        value matches Some(v) && v@ == properties.entries@[i].value@,
{
    let all = properties@;
    assert forall|j: int| 0 <= j < i implies (#[trigger] all[j]).0 != key@ by {
        assert(all[j] == properties.entries@[j]@);
    }
    crate::properties::lemma_lookup_skips(all, key@, i as nat);
    assert(all.skip(i)[0] == all[i]);
    assert(all[i] == properties.entries@[i]@);
}

/// A key that no property has is not found.
pub proof fn law_property_lookup_fails(
    properties: &StreamProperties,
    key: &str,
    value: Option<&str>,
)
    requires
        call_ensures(StreamProperties::get, (properties, key), value),
        forall|j: int|
            0 <= j < properties.entries@.len() ==> (#[trigger] properties.entries@[j]).key@ != key@,
    ensures
        value is None,
{
    let all = properties@;
    assert forall|j: int| 0 <= j < all.len() implies (#[trigger] all[j]).0 != key@ by {
        assert(all[j] == properties.entries@[j]@);
    }
    crate::properties::lemma_lookup_skips(all, key@, all.len());
}

/// The property has this key and this value.
pub open spec fn says(property: Property, key: &str, value: &str) -> bool {
    property.key@ == key@ && property.value@ == value@
}

/// The capture stream is an audio sink with the product's names and groups, and asks for the
/// latency of its buffer just if the size is not zero.
pub proof fn law_capture_properties(buffer_size: u32, properties: StreamProperties)
    requires
        call_ensures(create_capture_properties, (buffer_size,), properties),
    ensures
        call_requires(create_capture_properties, (buffer_size,)),
        properties.entries@.len() == if buffer_size == 0 {
            8int
        } else {
            9int
        },
        says(properties.entries@[0], "media.type", "Audio"),
        says(properties.entries@[1], "media.category", "Duplex"),
        says(properties.entries@[2], "media.role", "DSP"),
        says(properties.entries@[3], "media.class", "Audio/Sink"),
        says(properties.entries@[4], "node.name", "NAM-Audio-Pipe-input"),
        says(properties.entries@[5], "node.description", "NAM-Audio-Pipe Input"),
        says(properties.entries@[6], "node.group", "nam-audio-pipe-dsp"),
        says(properties.entries@[7], "node.link-group", "nam-audio-pipe-link-group"),
        buffer_size != 0 ==> {
            &&& properties.entries@[8].key@ == "node.latency"@
            &&& is_latency(properties.entries@[8].value@, buffer_size as int)
        },
{
    let all = properties@;
    lemma_latency(buffer_size);
    assert(all.len() == properties.entries@.len());
    assert forall|i: int| 0 <= i < all.len() implies #[trigger] all[i]
        == properties.entries@[i]@ by {}
    assert(all[0] == properties.entries@[0]@);
    assert(all[1] == properties.entries@[1]@);
    assert(all[2] == properties.entries@[2]@);
    assert(all[3] == properties.entries@[3]@);
    assert(all[4] == properties.entries@[4]@);
    assert(all[5] == properties.entries@[5]@);
    assert(all[6] == properties.entries@[6]@);
    assert(all[7] == properties.entries@[7]@);
    if buffer_size != 0 {
        assert(all[8] == properties.entries@[8]@);
    }
}

/// Only a WaveNet whose size is set at run time is copied for rebuilds.
pub proof fn law_wants_slimmable_copy(kind_l: Option<ModelKind>, r: bool)
    requires
        call_ensures(wants_slimmable_copy, (kind_l,), r),
    ensures
        call_requires(wants_slimmable_copy, (kind_l,)),
        r <==> kind_l == Some(ModelKind::WavenetDyn),
{
}

/// Without a model the audio passes through: there is nothing to rebuild and no architecture.
pub proof fn law_no_model_is_bypass<M, G>(
    outcome: ModelOutcome<M, G>,
    start: ModelStart<M, G>,
)
    requires
        call_ensures(load_initial_model::<M, G>, (outcome,), start),
    ensures
        call_requires(load_initial_model::<M, G>, (outcome,)),
        outcome is NoPath <==> start is Bypass,
        start matches ModelStart::Bypass { setup } ==> setup.full_wavenet_model is None
            && setup.architecture@.len() == 0,
{
}

/// A loaded model is sent on as it is, left as left and right as right, with its gains and its
/// rate; its path, rate and architecture are published; and its copy is kept just if it is a
/// WaveNet whose size is set at run time.
pub proof fn law_loaded_model_is_sent_as_it_is<M, G>(
    outcome: ModelOutcome<M, G>,
    start: ModelStart<M, G>,
)
    requires
        call_ensures(load_initial_model::<M, G>, (outcome,), start),
    ensures
        outcome is Loaded <==> start is Active,
        outcome matches ModelOutcome::Loaded { path, loaded } ==> {
            &&& start->payload.model_l == loaded.model_l
            &&& start->payload.model_r == loaded.model_r
            &&& start->payload.input_mult_adj == loaded.input_mult_adj
            &&& start->payload.output_mult_adj == loaded.output_mult_adj
            &&& start->payload.sample_rate == loaded.sample_rate
            &&& start->active_sample_rate == loaded.sample_rate
            &&& start->active_model_name@ == path@
            &&& start->Active_setup.architecture@ == loaded.architecture@
            &&& loaded.kind_l == Some(ModelKind::WavenetDyn)
                ==> start->Active_setup.full_wavenet_model == loaded.slimmable_copy
            &&& loaded.kind_l != Some(ModelKind::WavenetDyn)
                ==> start->Active_setup.full_wavenet_model is None
        },
{
}

/// A model that cannot be loaded ends the program with the reason behind a fixed text.
pub proof fn law_failed_model_exits<M, G>(outcome: ModelOutcome<M, G>, start: ModelStart<M, G>)
    requires
        call_ensures(load_initial_model::<M, G>, (outcome,), start),
    ensures
        outcome is Failed <==> start is Exit,
        outcome matches ModelOutcome::Failed { error } ==> start->message@
            == "Model load failed: "@ + error@,
{
}

/// A cabinet simulation is planned just if one is asked for. A known rate and a set buffer size
/// are taken as they are, and 48000 and 256 stand in just for zeros.
pub proof fn law_cabsim_takes_what_is_known(
    path_given: bool,
    active_rate: u32,
    buffer_size: u32,
    plan: Option<CabSimPlan>,
)
    requires
        call_ensures(plan_cabsim, (path_given, active_rate, buffer_size), plan),
    ensures
        call_requires(plan_cabsim, (path_given, active_rate, buffer_size)),
        path_given <==> plan is Some,
        plan matches Some(p) ==> {
            &&& active_rate != 0 ==> p.target_rate == active_rate
            &&& active_rate == 0 ==> p.target_rate == 48000
            &&& buffer_size != 0 ==> p.partition_size == buffer_size
            &&& buffer_size == 0 ==> p.partition_size == 256
        },
{
}

/// The cabinet simulation is sent on, and its samples are returned, just if all was built. The
/// host goes on without an impulse response that was not asked for or not loaded; a failure
/// to build is an error with the reason behind a fixed text.
pub proof fn law_cabsim_is_sent_if_built<S, A>(
    outcome: CabSimOutcome<S, A>,
    start: CabSimStart<S, A>,
)
    requires
        call_ensures(load_initial_cabsim::<S, A>, (outcome,), start),
    ensures
        call_requires(load_initial_cabsim::<S, A>, (outcome,)),
        outcome is Ready <==> start.dispatch is Some,
        outcome is Ready <==> start.result is Ok && start.result->Ok_0 is Some,
        outcome is NoPath || outcome is LoadFailed <==> start.result is Ok
            && start.result->Ok_0 is None,
        outcome matches CabSimOutcome::Ready { samples, adapter } ==> start.dispatch->0 == adapter
            && start.result->Ok_0->0 == samples,
        outcome matches CabSimOutcome::EngineFailed { error } ==> start.result->Err_0@
            == "Cab-sim engine init: "@ + error@,
        outcome matches CabSimOutcome::AdapterFailed { error } ==> start.result->Err_0@
            == "Cab-sim adapter init: "@ + error@,
{
}

} // verus!
