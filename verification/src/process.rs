//! The real-time callback.
//!
//! A cycle takes the buffer that the host has ready, runs the DSP pipeline over it, and
//! records the pipeline's output. The host, the clock and the pipeline are the caller's:
//! it hands over what they gave, and does what the result says:
//!
//! 1. [`CaptureState::process_dsp_buffer`] on what was dequeued;
//! 2. on [`CycleStart::Run`], the clock if `measure` is set, the denormal mode if
//!    `refresh_denormals` is set, and the pipeline;
//! 3. [`CaptureState::record_output`] on the pipeline's output;
//! 4. the clock again if `measure` was set, then [`finish_cycle`].
use crate::contract::{check_ffi_contract, chunk_ok, chunk_samples, SAMPLE_BYTES};
use crate::recording::{
    announced, is_blank, offer, recorded, same_ring, session, AlignedBlock, AudioMetadata,
    RecordingProducer, RingPayload, BIT_DEPTH, CHANNELS, MAX_BLOCK_SIZE,
};
use vstd::prelude::*;

verus! {

/// One channel of a host buffer: the mapped memory, and the chunk of it that is filled.
#[derive(Clone, Copy)]
pub struct Channel<'a> {
    pub raw: &'a [u8],
    pub offset: usize,
    pub size: usize,
}

/// What the host had ready for a cycle.
#[derive(Clone, Copy)]
pub enum HostBuffer<'a> {
    /// No buffer.
    Missing,
    /// A buffer with this many planes. The first two are the channels, where they are
    /// there and their memory is mapped.
    Planes { count: usize, left: Option<Channel<'a>>, right: Option<Channel<'a>> },
}

/// How a cycle starts.
#[derive(Debug, Clone, Copy, PartialEq, Eq, Structural)]
pub enum CycleStart {
    /// There was no buffer: one more input buffer missed.
    Miss,
    /// There is nothing to do with the buffer.
    Ignore,
    /// The buffer violates the host's contract: raise the flag for it, and silence the
    /// whole memory of both channels.
    Violation,
    /// Run the pipeline over the first `n_samples` samples of both chunks, in a cycle
    /// that is timed if `measure` is set, and after setting the processor's denormal mode
    /// anew if `refresh_denormals` is.
    Run { n_samples: usize, measure: bool, refresh_denormals: bool },
}

/// What a buffer is good for.
pub enum Admission {
    Miss,
    Ignore,
    Violation,
    /// This many samples, at least one, in each of both channels.
    Samples(int),
}

impl<'a> Channel<'a> {
    /// The channel meets the host's contract.
    pub open spec fn ok(self) -> bool {
        chunk_ok(self.raw@.len() as int, self.offset as int, self.size as int)
    }

    /// The number of samples in the chunk.
    pub open spec fn samples(self) -> int {
        chunk_samples(self.raw@.len() as int, self.offset as int, self.size as int)
    }
}

impl<'a> HostBuffer<'a> {
    /// What the buffer is good for: two mapped planes are needed, both have to meet the
    /// contract, and the shorter channel sets the number of samples.
    pub open spec fn admission(self) -> Admission {
        match self {
            HostBuffer::Missing => Admission::Miss,
            HostBuffer::Planes { count, left: Some(left), right: Some(right) } => {
                let n = if left.samples() < right.samples() {
                    left.samples()
                } else {
                    right.samples()
                };
                if count < 2 {
                    Admission::Ignore
                } else if !left.ok() || !right.ok() {
                    Admission::Violation
                } else if n == 0 {
                    Admission::Ignore
                } else {
                    Admission::Samples(n)
                }
            },
            _ => Admission::Ignore,
        }
    }
}

/// The number of the cycle after cycle `frame`; the count wraps around.
pub open spec fn next_frame(frame: u32) -> u32 {
    if frame == u32::MAX {
        0
    } else {
        (frame + 1) as u32
    }
}

/// One running cycle in 16 is timed.
pub open spec fn is_measured(frame: u32) -> bool {
    frame % 16 == 0
}

/// One running cycle in 1024 sets the denormal mode anew.
pub open spec fn refreshes_denormals(frame: u32) -> bool {
    next_frame(frame) % 1024 == 0
}

/// What the callback keeps from cycle to cycle.
pub struct CaptureState {
    /// The number of running cycles so far; it wraps around.
    pub frame_count: u32,
    /// Whether the format of the recording has been sent.
    pub recording_meta_sent: bool,
    /// The block that the next recorded output goes into.
    pub recording_block: AlignedBlock<MAX_BLOCK_SIZE>,
}

impl CaptureState {
    /// Starts a cycle on what the host had ready.
    ///
    /// A cycle that runs is counted. The first one sends the format of the recording
    /// ahead, if there is a recording.
    pub fn process_dsp_buffer(
        &mut self,
        buffer: HostBuffer<'_>,
        current_host_rate: u32,
        recording_producer: &mut Option<RecordingProducer>,
    ) -> (start: CycleStart)
        ensures
            match buffer.admission() {
                Admission::Miss => start == CycleStart::Miss,
                Admission::Ignore => start == CycleStart::Ignore,
                Admission::Violation => start == CycleStart::Violation,
                Admission::Samples(n) => {
                    &&& start matches CycleStart::Run { n_samples, measure, refresh_denormals }
                    &&& n_samples == n
                    &&& measure == is_measured(old(self).frame_count)
                    &&& refresh_denormals == refreshes_denormals(old(self).frame_count)
                },
            },
            if start is Run {
                &&& final(self).frame_count == next_frame(old(self).frame_count)
                &&& final(self).recording_meta_sent
                &&& announced(
                    session(*old(recording_producer), old(self).recording_meta_sent),
                    session(*final(recording_producer), final(self).recording_meta_sent),
                    current_host_rate,
                )
                &&& old(self).recording_meta_sent ==> *final(recording_producer) == *old(
                    recording_producer,
                )
            } else {
                &&& final(self).frame_count == old(self).frame_count
                &&& final(self).recording_meta_sent == old(self).recording_meta_sent
                &&& *final(recording_producer) == *old(recording_producer)
            },
            final(self).recording_block == old(self).recording_block,
            same_ring(*old(recording_producer), *final(recording_producer)),
    {
        let (count, left, right) = match buffer {
            HostBuffer::Missing => {
                return CycleStart::Miss;
            },
            HostBuffer::Planes { count, left, right } => (count, left, right),
        };
        if count < 2 {
            return CycleStart::Ignore;
        }
        let (left, right) = match (left, right) {
            (Some(left), Some(right)) => (left, right),
            _ => {
                return CycleStart::Ignore;
            },
        };
        let contract_l = check_ffi_contract(left.raw, left.offset, left.size);
        let contract_r = check_ffi_contract(right.raw, right.offset, right.size);
        let (n_samples_l, n_samples_r) = match (contract_l, contract_r) {
            (Some((_, l)), Some((_, r))) => (l, r),
            _ => {
                return CycleStart::Violation;
            },
        };
        let n_samples: usize = if n_samples_l < n_samples_r {
            n_samples_l
        } else {
            n_samples_r
        };
        if n_samples == 0 {
            return CycleStart::Ignore;
        }
        if !self.recording_meta_sent {
            let meta = AudioMetadata {
                sample_rate: current_host_rate,
                bit_depth: BIT_DEPTH,
                channels: CHANNELS,
            };
            offer(recording_producer, RingPayload::Metadata(meta));
            self.recording_meta_sent = true;
        }
        let frame: u32 = self.frame_count;
        let next: u32 = frame.wrapping_add(1);
        let measure = (frame & 0xF) == 0;
        let refresh_denormals = (next & 0x3FF) == 0;
        proof {
            assert(frame & 0xF == frame % 16) by (bit_vector);
            assert(next & 0x3FF == next % 1024) by (bit_vector);
        }
        self.frame_count = next;
        CycleStart::Run { n_samples, measure, refresh_denormals }
    }

    /// Records the first `n_pw` samples of the pipeline's output, if there is a recording
    /// and they fit into a block. The result says whether the ring was full, so that the
    /// block is lost: one more overrun.
    pub fn record_output(
        &mut self,
        n_pw: usize,
        out_l: &[u32],
        out_r: &[u32],
        recording_producer: &mut Option<RecordingProducer>,
    ) -> (overrun: bool)
        requires
            *old(recording_producer) is Some && 2 * n_pw <= MAX_BLOCK_SIZE ==> n_pw <= out_l@.len()
                && n_pw <= out_r@.len(),
            *old(recording_producer) is Some ==> 2 * n_pw <= usize::MAX,
        ensures
            recorded(
                session(*old(recording_producer), old(self).recording_meta_sent),
                session(*final(recording_producer), final(self).recording_meta_sent),
                old(self).recording_block,
                out_l@,
                out_r@,
                n_pw as int,
                overrun,
            ),
            *old(recording_producer) is Some && n_pw > 0 ==> is_blank(final(self).recording_block),
            *old(recording_producer) is None || n_pw == 0 ==> *final(self) == *old(self),
            same_ring(*old(recording_producer), *final(recording_producer)),
            final(self).frame_count == old(self).frame_count,
            final(self).recording_meta_sent == old(self).recording_meta_sent,
    {
        if recording_producer.is_none() || n_pw == 0 {
            return false;
        }
        let mut block = AlignedBlock::new();
        std::mem::swap(&mut block, &mut self.recording_block);
        let interleaved_len: usize = n_pw * 2;
        if interleaved_len > MAX_BLOCK_SIZE {
            return false;
        }
        block.interleave(out_l, out_r, n_pw);
        offer(recording_producer, RingPayload::Audio(block))
    }
}

/// The time from `start` to `end` on a clock that wraps around.
pub open spec fn elapsed(start: u64, end: u64) -> int {
    if start <= end {
        end - start
    } else {
        end - start + 0x1_0000_0000_0000_0000
    }
}

/// A count as a 32-bit number, which wraps around.
pub open spec fn wrapped(n: usize) -> u32 {
    (n as int % 0x1_0000_0000) as u32
}

/// The number of samples per cycle, if it is not the last one seen.
pub open spec fn quantum_change(n_samples: usize, last_n_samples: u32) -> Option<u32> {
    if wrapped(n_samples) == last_n_samples {
        None
    } else {
        Some(wrapped(n_samples))
    }
}

/// What a running cycle leaves to report.
#[derive(Debug, Clone, Copy, PartialEq, Eq, Structural)]
pub struct CycleEnd {
    /// The duration of a timed cycle, to be stored and added to the latency histogram.
    pub cycle_nanos: Option<u64>,
    /// The number of samples per cycle, if it changed: to be stored as the last one seen
    /// and as the requested buffer size, and to be logged.
    pub quantum: Option<u32>,
}

/// Ends a running cycle over `n_samples` samples. `clock` holds both readings of the clock
/// if the cycle was timed; `last_n_samples` is the number of samples per cycle that was
/// stored last.
pub fn finish_cycle(
    n_samples: usize,
    clock: Option<(u64, u64)>,
    last_n_samples: u32,
) -> (end: CycleEnd)
    ensures
        match clock {
            Some((start, stop)) => end.cycle_nanos matches Some(t) && t == elapsed(start, stop),
            None => end.cycle_nanos is None,
        },
        end.quantum == quantum_change(n_samples, last_n_samples),
{
    let cycle_nanos = match clock {
        Some((start, stop)) => Some(stop.wrapping_sub(start)),
        None => None,
    };
    let wide: u64 = n_samples as u64;
    let n: u32 = wide as u32;
    proof {
        assert(wide as u32 == wide % 0x1_0000_0000) by (bit_vector);
    }
    let quantum = if n != last_n_samples {
        Some(n)
    } else {
        None
    };
    CycleEnd { cycle_nanos, quantum }
}

/// The samples that a cycle runs over lie inside the memory of both channels, and they are
/// all that do so and that both chunks cover: another count does exactly if it is no larger.
pub proof fn law_samples_lie_in_both_channels(
    count: usize,
    left: Channel<'_>,
    right: Channel<'_>,
    n: int,
    m: int,
)
    requires
        (HostBuffer::Planes { count, left: Some(left), right: Some(right) }).admission()
            == Admission::Samples(n),
    ensures
        n > 0,
        left.offset + n * SAMPLE_BYTES <= left.raw@.len(),
        right.offset + n * SAMPLE_BYTES <= right.raw@.len(),
        m <= n <==> {
            &&& m * SAMPLE_BYTES <= left.size
            &&& m * SAMPLE_BYTES <= right.size
            &&& left.offset + m * SAMPLE_BYTES <= left.raw@.len()
            &&& right.offset + m * SAMPLE_BYTES <= right.raw@.len()
        },
{
}

/// The number of the cycle that follows `frame` after `k` running cycles.
pub open spec fn frame_after(frame: u32, k: nat) -> u32
    decreases k,
{
    if k == 0 {
        frame
    } else {
        next_frame(frame_after(frame, (k - 1) as nat))
    }
}

proof fn lemma_frame_after(frame: u32, k: nat)
    ensures
        frame_after(frame, k) as int == (frame + k) % 0x1_0000_0000,
    decreases k,
{
    if k > 0 {
        lemma_frame_after(frame, (k - 1) as nat);
    }
}

/// Of any 16 running cycles in a row exactly one is timed, also where the count of cycles
/// wraps around.
pub proof fn law_one_cycle_in_16_is_measured(frame: u32)
    ensures
        exists|k: nat| k < 16 && #[trigger] is_measured(frame_after(frame, k)),
        forall|j: nat, k: nat|
            j < 16 && k < 16 && #[trigger] is_measured(frame_after(frame, j))
                && #[trigger] is_measured(frame_after(frame, k)) ==> j == k,
{
    let k = ((16 - frame % 16) % 16) as nat;
    lemma_frame_after(frame, k);
    assert(is_measured(frame_after(frame, k)));
    assert forall|j: nat, k: nat|
        j < 16 && k < 16 && #[trigger] is_measured(frame_after(frame, j))
            && #[trigger] is_measured(frame_after(frame, k)) implies j == k by {
        lemma_frame_after(frame, j);
        lemma_frame_after(frame, k);
    }
}

/// Of any 1024 running cycles in a row exactly one sets the denormal mode anew, also where
/// the count of cycles wraps around.
pub proof fn law_one_cycle_in_1024_refreshes_denormals(frame: u32)
    ensures
        exists|k: nat| k < 1024 && #[trigger] refreshes_denormals(frame_after(frame, k)),
        forall|j: nat, k: nat|
            j < 1024 && k < 1024 && #[trigger] refreshes_denormals(frame_after(frame, j))
                && #[trigger] refreshes_denormals(frame_after(frame, k)) ==> j == k,
{
    let k = (1023 - frame % 1024) as nat;
    lemma_frame_after(frame, k);
    assert(refreshes_denormals(frame_after(frame, k)));
    assert forall|j: nat, k: nat|
        j < 1024 && k < 1024 && #[trigger] refreshes_denormals(frame_after(frame, j))
            && #[trigger] refreshes_denormals(frame_after(frame, k)) implies j == k by {
        lemma_frame_after(frame, j);
        lemma_frame_after(frame, k);
    }
}

/// A change of the number of samples per cycle is reported once: when it has been stored,
/// cycles of the same length report nothing.
pub proof fn law_quantum_is_reported_once(n_samples: usize, last_n_samples: u32)
    ensures
        quantum_change(n_samples, last_n_samples) matches Some(stored) ==> quantum_change(
            n_samples,
            stored,
        ) is None,
{
}

/// A duration leads from one clock reading to the other, also where the clock wraps around.
pub proof fn law_elapsed_leads_to_the_end(start: u64, end: u64)
    ensures
        0 <= elapsed(start, end) <= u64::MAX,
        (start + elapsed(start, end)) % 0x1_0000_0000_0000_0000 == end,
{
}

} // verus!
