//! Validation of the buffers that the audio host hands over.
use vstd::prelude::*;

verus! {

/// The size in bytes of one sample.
pub const SAMPLE_BYTES: usize = 4;

/// The number of bytes that a chunk of `size` bytes at `offset` covers in a buffer of
/// `len` bytes: `size`, cut off at the end of the buffer.
pub open spec fn chunk_bytes(len: int, offset: int, size: int) -> int {
    if offset > len {
        0
    } else if size < len - offset {
        size
    } else {
        len - offset
    }
}

/// A chunk meets the host's contract if it starts inside the buffer (or at its end) and
/// what it covers is a whole number of samples.
pub open spec fn chunk_ok(len: int, offset: int, size: int) -> bool {
    &&& offset <= len
    &&& chunk_bytes(len, offset, size) % SAMPLE_BYTES as int == 0
}

/// The number of samples in a chunk that meets the contract.
pub open spec fn chunk_samples(len: int, offset: int, size: int) -> int {
    chunk_bytes(len, offset, size) / SAMPLE_BYTES as int
}

/// Validates one channel of a host buffer at run time.
///
/// Returns the number of bytes and of samples that the chunk covers if the contract is
/// satisfied, and `None` if the buffer violates the bounds or the sample size.
pub fn check_ffi_contract(raw: &[u8], offset: usize, size: usize) -> (r: Option<(usize, usize)>)
    ensures
        r is Some <==> chunk_ok(raw@.len() as int, offset as int, size as int),
        r matches Some((n_bytes, n_samples)) ==> {
            &&& n_bytes == chunk_bytes(raw@.len() as int, offset as int, size as int)
            &&& n_samples == chunk_samples(raw@.len() as int, offset as int, size as int)
            &&& n_bytes == n_samples * SAMPLE_BYTES
            &&& offset + n_bytes <= raw@.len()
            &&& n_bytes <= size
        },
{
    let len: usize = raw.len();
    let rest: usize = len.saturating_sub(offset);
    let n_bytes: usize = if size < rest { size } else { rest };
    let n_samples: usize = n_bytes / SAMPLE_BYTES;
    if offset + n_bytes > len || n_samples * SAMPLE_BYTES != n_bytes {
        return None;
    }
    Some((n_bytes, n_samples))
}

/// The samples that a chunk is found to hold are all that fit: a count of samples lies
/// inside both the chunk and the buffer exactly if it is no larger.
pub proof fn law_samples_are_all_that_fit(len: int, offset: int, size: int, n: int)
    requires
        0 <= offset <= len,
        0 <= size,
        chunk_ok(len, offset, size),
    ensures
        n <= chunk_samples(len, offset, size) <==> n * SAMPLE_BYTES <= size && offset + n
            * SAMPLE_BYTES <= len,
{
}

/// Overwrites a whole buffer with silence.
pub fn silence(raw: &mut [u8])
    ensures
        final(raw)@ == Seq::new(old(raw)@.len(), |i: int| 0u8),
{
    let len: usize = raw.len();
    let mut i: usize = 0;
    while i < len
        invariant
            i <= len,
            raw@.len() == len,
            len == old(raw)@.len(),
            forall|j: int| 0 <= j < i ==> raw@[j] == 0u8,
        decreases len - i,
    {
        raw[i] = 0;
        i = i + 1;
    }
}

} // verus!
