//! The USB audio sink's share of the pipeline: the bytes of an isochronous
//! frame are little-endian 16-bit samples, which go into the ring in the
//! order they arrived. A sample that finds the ring full is dropped.

use vstd::prelude::*;
use crate::queue::producer_enqueue;
use crate::ring::{accepted_of, after_burst, SampleRing, RING_SLOTS};

verus! {

/// The sample that two bytes on the wire stand for: a 16-bit two's
/// complement number, low byte first.
pub open spec fn sample_from_le(low: u8, high: u8) -> i16 {
    let word = low + 256 * high;
    if word < 32768 {
        word as i16
    } else {
        (word - 65536) as i16
    }
}

/// The two bytes that a sample is sent as, low byte first.
pub open spec fn sample_to_le(sample: i16) -> (u8, u8) {
    let word = if sample < 0 {
        sample + 65536
    } else {
        sample as int
    };
    ((word % 256) as u8, (word / 256) as u8)
}

/// Decoding undoes encoding, and encoding undoes decoding: every sample has
/// exactly one pair of bytes.
pub proof fn lemma_sample_bytes_round_trip(sample: i16, low: u8, high: u8)
    ensures
        sample_from_le(sample_to_le(sample).0, sample_to_le(sample).1) == sample,
        sample_to_le(sample_from_le(low, high)) == (low, high),
{
}

/// The samples in the received bytes: one for each full pair, in order. A
/// trailing odd byte stands for nothing.
pub open spec fn frames(data: Seq<u8>) -> Seq<i16> {
    Seq::new((data.len() / 2) as nat, |i: int| sample_from_le(data[2 * i], data[2 * i + 1]))
}

/// A byte left over after the last full pair is discarded: it adds no
/// sample and changes none.
pub proof fn lemma_trailing_byte_ignored(data: Seq<u8>, byte: u8)
    requires
        data.len() % 2 == 0,
    ensures
        frames(data.push(byte)) == frames(data),
{
}

/// Decodes one sample from its two bytes.
pub fn decode_sample(low: u8, high: u8) -> (sample: i16)
    ensures
        sample == sample_from_le(low, high),
{
    let word: i32 = low as i32 + 256 * (high as i32);
    if word < 32768 {
        word as i16
    } else {
        (word - 65536) as i16
    }
}

/// The number of samples in the received bytes.
pub fn sample_count(data: &[u8]) -> (count: usize)
    ensures
        count == frames(data@).len(),
{
    data.len() / 2
}

/// The sample at `index` among those in the received bytes.
pub fn sample_at(data: &[u8], index: usize) -> (sample: i16)
    requires
        index < frames(data@).len(),
    ensures
        sample == frames(data@)[index as int],
{
    assert(index < data.len() / 2);
    decode_sample(data[2 * index], data[2 * index + 1])
}

/// Enqueues every sample in the received bytes, in order, and returns how
/// many found the ring full and were dropped.
pub fn ingest(ring: &mut SampleRing, data: &[u8]) -> (dropped: usize)
    ensures
        final(ring)@ == after_burst(old(ring)@, frames(data@)),
        dropped == frames(data@).len() - accepted_of(old(ring)@, frames(data@)).len(),
{
    let ghost start = ring@;
    let ghost all = frames(data@);
    let count = sample_count(data);
    let mut dropped: usize = 0;
    let mut done: usize = 0;
    while done < count
        invariant
            all == frames(data@),
            count == all.len(),
            done <= count,
            ring@ == after_burst(start, all.take(done as int)),
            dropped == done - accepted_of(start, all.take(done as int)).len(),
        decreases count - done,
    {
        let sample = sample_at(data, done);
        match ring.enqueue(sample) {
            Ok(()) => {},
            Err(_) => {
                dropped = dropped + 1;
            },
        }
        done = done + 1;
    }
    dropped
}

/// Enqueues every sample in the received bytes, in order, through the
/// producer end of a split queue, and returns how many were refused and
/// dropped. With the consumer at work on the other end, which samples find
/// room is not for this side to say: each sample is offered once, and what
/// becomes of the count on each outcome is `count_outcome`'s to say. From
/// bytes that hold no full sample nothing is offered and nothing is dropped.
pub fn ingest_into(
    producer: &mut heapless::spsc::Producer<'_, i16, RING_SLOTS>,
    data: &[u8],
) -> (dropped: usize)
    ensures
        dropped <= frames(data@).len(),
{
    let count = sample_count(data);
    let mut dropped: usize = 0;
    let mut done: usize = 0;
    while done < count
        invariant
            count == frames(data@).len(),
            done <= count,
            dropped <= done,
        decreases count - done,
    {
        let sample = sample_at(data, done);
        let accepted = producer_enqueue(producer, sample);
        dropped = count_outcome(dropped, accepted);
        done = done + 1;
    }
    dropped
}

/// The number of samples dropped so far, once one more sample has been
/// offered to the ring. A sample that was refused is not offered again: it is
/// dropped and counted. One that was accepted leaves the count as it was.
pub open spec fn dropped_after(dropped: int, accepted: bool) -> int {
    if accepted {
        dropped
    } else {
        dropped + 1
    }
}

/// Takes the outcome of offering one sample to the ring into the count of
/// dropped samples.
pub fn count_outcome(dropped: usize, accepted: bool) -> (count: usize)
    requires
        dropped < usize::MAX,
    ensures
        count == dropped_after(dropped as int, accepted),
{
    if accepted {
        dropped
    } else {
        dropped + 1
    }
}

} // verus!
