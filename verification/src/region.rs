//! The memory region and the bytes mapped from it.
use crate::error::WorkerError;
use vstd::prelude::*;

verus! {

/// Number of bytes in the region, fixed when the region is created.
pub const REGION_SIZE: usize = 16;

/// The successor of a byte, with 255 followed by 0.
pub open spec fn next_byte(b: u8) -> u8 {
    if b == 255 {
        0
    } else {
        (b + 1) as u8
    }
}

/// The bytes after one mutation at `index`: that byte moves to its successor,
/// every other byte stays.
pub open spec fn bumped(bytes: Seq<u8>, index: int) -> Seq<u8>
    recommends
        0 <= index < bytes.len(),
{
    bytes.update(index, next_byte(bytes[index]))
}

/// The bytes after `count` mutations at `index`.
pub open spec fn bumped_times(bytes: Seq<u8>, index: int, count: nat) -> Seq<u8>
    recommends
        0 <= index < bytes.len(),
    decreases count,
{
    if count == 0 {
        bytes
    } else {
        bumped(bumped_times(bytes, index, (count - 1) as nat), index)
    }
}

/// Increments the byte at `index`, wrapping from 255 to 0.
pub fn bump(buffer: &mut [u8; REGION_SIZE], index: usize)
    requires
        index < REGION_SIZE,
    ensures
        final(buffer)@ == bumped(old(buffer)@, index as int),
{
    let value: u8 = buffer[index];
    buffer[index] = value.wrapping_add(1);
}

/// What is to be thought of a region of `actual` bytes where `expected` are
/// due: any difference is an error, whichever way it goes.
pub open spec fn size_verdict(actual: u64, expected: u64) -> Result<(), WorkerError> {
    if actual == expected {
        Ok(())
    } else {
        Err(WorkerError::SizeMismatch { expected, actual })
    }
}

/// Accepts a region of exactly `expected` bytes and rejects every other.
pub fn validate_size(actual: u64, expected: u64) -> (verdict: Result<(), WorkerError>)
    ensures
        verdict == size_verdict(actual, expected),
{
    if actual == expected {
        Ok(())
    } else {
        Err(WorkerError::SizeMismatch { expected, actual })
    }
}

/// Repeated mutation at one index adds the count to that byte modulo 256 and
/// touches nothing else.
pub proof fn lemma_bumped_times(bytes: Seq<u8>, index: int, count: nat)
    requires
        0 <= index < bytes.len(),
    ensures
        bumped_times(bytes, index, count).len() == bytes.len(),
        bumped_times(bytes, index, count)[index] == (bytes[index] + count) % 256,
        forall|j: int|
            0 <= j < bytes.len() && j != index ==> bumped_times(bytes, index, count)[j]
                == bytes[j],
    decreases count,
{
    if count > 0 {
        lemma_bumped_times(bytes, index, (count - 1) as nat);
    }
}

/// After 256 mutations at one index the bytes are what they were.
pub proof fn lemma_wraparound(bytes: Seq<u8>, index: int)
    requires
        0 <= index < bytes.len(),
    ensures
        bumped_times(bytes, index, 256) == bytes,
{
    lemma_bumped_times(bytes, index, 256);
    assert(bumped_times(bytes, index, 256) =~= bytes);
}

} // verus!
