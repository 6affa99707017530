//! The recording ring: what the real-time callback hands to the disk writer.
//!
//! The ring is a single-producer single-consumer queue of the `rtrb` crate. The consumer
//! empties it in another thread at any time, so what the producer knows of it is what was
//! accepted so far, and that a ring which never accepted as much as it can hold has room.
use vstd::prelude::*;

verus! {

/// The number of samples, both channels together, that one block can hold.
pub const MAX_BLOCK_SIZE: usize = 4096;

/// No payload of the ring is larger than this.
pub const MAX_PAYLOAD_BYTES: usize = 32768;

/// The bit depth of a recording.
pub const BIT_DEPTH: u16 = 32;

/// The number of channels of a recording.
pub const CHANNELS: u16 = 2;

/// A block of interleaved samples, each as the bit pattern of its 32-bit float.
/// The first `valid_len` entries count.
#[derive(Debug)]
pub struct AlignedBlock<const N: usize> {
    pub data: [u32; N],
    pub valid_len: usize,
}

/// The format of a recording, sent ahead of its first block.
#[derive(Debug, Clone, Copy, PartialEq, Eq, Structural)]
pub struct AudioMetadata {
    /// In frames per second.
    pub sample_rate: u32,
    pub bit_depth: u16,
    pub channels: u16,
}

/// What travels through the recording ring.
#[derive(Debug)]
pub enum RingPayload<const N: usize> {
    /// The format of what follows.
    Metadata(AudioMetadata),
    /// The output of one cycle.
    Audio(AlignedBlock<N>),
    /// The end of the stream.
    StreamStop,
}

/// The real-time side of the recording ring.
pub type RecordingProducer = rtrb::Producer<RingPayload<MAX_BLOCK_SIZE>>;

/// The disk writer's side of the recording ring.
pub type RecordingConsumer = rtrb::Consumer<RingPayload<MAX_BLOCK_SIZE>>;

/// `rtrb::Producer`, opaque: [`pushed`], [`ring_capacity`] and [`feeds`] speak of it.
#[verifier::external_type_specification]
#[verifier::external_body]
#[verifier::reject_recursive_types(T)]
pub struct ExProducer<T>(rtrb::Producer<T>);

/// `rtrb::Consumer`, opaque: [`feeds`] speaks of it, and it is only handed on.
#[verifier::external_type_specification]
#[verifier::external_body]
#[verifier::reject_recursive_types(T)]
pub struct ExConsumer<T>(rtrb::Consumer<T>);

/// All that a ring has accepted from its producer, oldest first, whether or not the
/// consumer has taken it out since.
pub uninterp spec fn pushed(producer: RecordingProducer) -> Seq<RingPayload<MAX_BLOCK_SIZE>>;

/// The number of payloads that a ring was made to hold.
pub uninterp spec fn ring_capacity(producer: RecordingProducer) -> nat;

/// A producer and a consumer are the two ends of one ring: what the one pushes, the other
/// takes out.
pub uninterp spec fn feeds(producer: RecordingProducer, consumer: RecordingConsumer) -> bool;

/// `rtrb::RingBuffer::new`: both ends of one ring, which holds `capacity` payloads and has
/// accepted none.
///
/// It allocates all slots at once, and panics if they take more than `isize::MAX` bytes.
#[verifier::external_body]
fn ring_new(capacity: usize) -> (r: (RecordingProducer, RecordingConsumer))
    requires
        capacity * MAX_PAYLOAD_BYTES <= isize::MAX,
    ensures
        pushed(r.0) == Seq::<RingPayload<MAX_BLOCK_SIZE>>::empty(),
        ring_capacity(r.0) == capacity,
        feeds(r.0, r.1),
{
    rtrb::RingBuffer::new(capacity)
}

/// `rtrb::Producer::push`: the ring accepts the payload as its newest, or, if it is full,
/// hands it back and is left as it was. A ring that has accepted fewer payloads than it
/// can hold is not full; one that can hold none is. The producer stays an end of the ring
/// that it was an end of. Whether another ring is full depends on what the consumer has
/// taken out by then.
#[verifier::external_body]
fn ring_push(
    producer: &mut RecordingProducer,
    payload: RingPayload<MAX_BLOCK_SIZE>,
) -> (r: Result<(), RingPayload<MAX_BLOCK_SIZE>>)
    ensures
        r is Ok ==> pushed(*final(producer)) == pushed(*old(producer)).push(payload),
        r matches Err(back) ==> back == payload && pushed(*final(producer)) == pushed(
            *old(producer),
        ),
        ring_capacity(*final(producer)) == ring_capacity(*old(producer)),
        pushed(*old(producer)).len() < ring_capacity(*old(producer)) ==> r is Ok,
        ring_capacity(*old(producer)) == 0 ==> r is Err,
        forall|c: RecordingConsumer|
            #[trigger] feeds(*final(producer), c) == feeds(*old(producer), c),
{
    match producer.push(payload) {
        Ok(()) => Ok(()),
        Err(rtrb::PushError::Full(back)) => Err(back),
    }
}

/// There is a producer after just if there was one before, and it is an end of the same
/// ring.
pub open spec fn same_ring(
    before: Option<RecordingProducer>,
    after: Option<RecordingProducer>,
) -> bool {
    match (before, after) {
        (Some(b), Some(a)) => forall|c: RecordingConsumer| #[trigger] feeds(a, c) == feeds(b, c),
        (None, None) => true,
        _ => false,
    }
}

/// A recording as the real-time side sees it.
#[verifier::ext_equal]
pub struct Session {
    /// Whether there is a ring to record to.
    pub recording: bool,
    /// What the ring can hold.
    pub capacity: nat,
    /// What the ring has accepted.
    pub log: Seq<RingPayload<MAX_BLOCK_SIZE>>,
    /// Whether the format has been sent.
    pub meta_sent: bool,
}

/// The session that a producer, or the lack of one, and the flag stand for.
pub open spec fn session(producer: Option<RecordingProducer>, meta_sent: bool) -> Session {
    match producer {
        Some(p) => Session { recording: true, capacity: ring_capacity(p), log: pushed(p), meta_sent },
        None => Session { recording: false, capacity: 0, log: Seq::empty(), meta_sent },
    }
}

/// `after` is `before` once `payload` has been offered to its ring: the ring took it or
/// left it, and took it if it has not yet accepted as much as it can hold.
pub open spec fn offered(
    before: Session,
    after: Session,
    payload: RingPayload<MAX_BLOCK_SIZE>,
) -> bool {
    &&& after.recording == before.recording
    &&& after.capacity == before.capacity
    &&& after.log == before.log || after.log == before.log.push(payload)
    &&& before.log.len() < before.capacity ==> after.log == before.log.push(payload)
    &&& before.capacity == 0 ==> after.log == before.log
}

/// The format of a recording at a host rate.
pub open spec fn metadata_at(rate: u32) -> AudioMetadata {
    AudioMetadata { sample_rate: rate, bit_depth: BIT_DEPTH, channels: CHANNELS }
}

/// What the start of a running cycle does to the session: the first one offers the format
/// to the ring, if there is one.
pub open spec fn announced(before: Session, after: Session, rate: u32) -> bool {
    &&& after.meta_sent
    &&& if before.recording && !before.meta_sent {
        offered(before, after, RingPayload::Metadata(metadata_at(rate)))
    } else {
        after == (Session { meta_sent: true, ..before })
    }
}

/// The first `n` samples of two channels, interleaved.
pub open spec fn interleaved(left: Seq<u32>, right: Seq<u32>, n: int) -> Seq<u32> {
    Seq::new(
        (2 * n) as nat,
        |i: int|
            if i % 2 == 0 {
                left[i / 2]
            } else {
                right[i / 2]
            },
    )
}

/// `block` holds the first `n` samples of two channels, in what was `base` before.
pub open spec fn holds_samples<const N: usize>(
    block: AlignedBlock<N>,
    base: AlignedBlock<N>,
    left: Seq<u32>,
    right: Seq<u32>,
    n: int,
) -> bool {
    &&& block.valid_len == 2 * n
    &&& block.data@ == interleaved(left, right, n) + base.data@.skip(2 * n)
}

/// A block of silence without a valid sample.
pub open spec fn is_blank<const N: usize>(block: AlignedBlock<N>) -> bool {
    &&& block.valid_len == 0
    &&& block.data@ == Seq::new(N as nat, |i: int| 0u32)
}

/// What recording the first `n` samples of two channels does to the session, `base` being
/// the block at hand: nothing if there is no ring, no sample, or no block large enough;
/// else the samples are in the newest block that the ring has accepted, or there was an
/// overrun and the ring is as it was.
pub open spec fn recorded(
    before: Session,
    after: Session,
    base: AlignedBlock<MAX_BLOCK_SIZE>,
    left: Seq<u32>,
    right: Seq<u32>,
    n: int,
    overrun: bool,
) -> bool {
    if !before.recording || n == 0 || 2 * n > MAX_BLOCK_SIZE {
        after == before && !overrun
    } else if overrun {
        after == before && before.log.len() >= before.capacity
    } else {
        &&& after == (Session { log: before.log.push(after.log.last()), ..before })
        &&& before.capacity > 0
        &&& after.log.last() matches RingPayload::Audio(block)
        &&& holds_samples(block, base, left, right, n)
    }
}

impl<const N: usize> AlignedBlock<N> {
    /// A block of silence with no valid sample.
    pub fn new() -> (block: Self)
        ensures
            is_blank(block),
    {
        let block = AlignedBlock { data: [0u32; N], valid_len: 0 };
        assert(block.data@ =~= Seq::new(N as nat, |i: int| 0u32));
        block
    }

    /// Puts the first `n` samples of two channels into the block, left and right in turn.
    /// What the block holds behind them stays.
    pub fn interleave(&mut self, left: &[u32], right: &[u32], n: usize)
        requires
            2 * n <= N,
            n <= left@.len(),
            n <= right@.len(),
        ensures
            holds_samples(*final(self), *old(self), left@, right@, n as int),
    {
        let mut i: usize = 0;
        while i < n
            invariant
                i <= n,
                2 * n <= N,
                n <= left@.len(),
                n <= right@.len(),
                self.data@ == interleaved(left@, right@, i as int) + old(self).data@.skip(2 * i),
            decreases n - i,
        {
            self.data[i * 2] = left[i];
            self.data[i * 2 + 1] = right[i];
            i = i + 1;
        }
        self.valid_len = n * 2;
    }
}

/// Makes the recording ring, for `capacity` payloads: the end of the real-time side and that
/// of the disk writer. All of its memory, which has to be less than half of the address
/// space, is allocated here.
pub fn create_audio_ring_buffer(capacity: usize) -> (r: (RecordingProducer, RecordingConsumer))
    requires
        capacity * MAX_PAYLOAD_BYTES <= isize::MAX,
    ensures
        pushed(r.0) == Seq::<RingPayload<MAX_BLOCK_SIZE>>::empty(),
        ring_capacity(r.0) == capacity,
        feeds(r.0, r.1),
{
    ring_new(capacity)
}

/// Offers a payload to the ring, if there is one. The result says whether there is one and
/// it is full.
pub(crate) fn offer(
    producer: &mut Option<RecordingProducer>,
    payload: RingPayload<MAX_BLOCK_SIZE>,
) -> (full: bool)
    ensures
        match (*old(producer), *final(producer)) {
            (Some(before), Some(after)) => {
                &&& ring_capacity(after) == ring_capacity(before)
                &&& full ==> pushed(after) == pushed(before)
                &&& !full ==> pushed(after) == pushed(before).push(payload)
                &&& pushed(before).len() < ring_capacity(before) ==> !full
                &&& ring_capacity(before) == 0 ==> full
            },
            (None, None) => !full,
            _ => false,
        },
        same_ring(*old(producer), *final(producer)),
{
    match producer {
        Some(p) => ring_push(p, payload).is_err(),
        None => false,
    }
}

} // verus!
