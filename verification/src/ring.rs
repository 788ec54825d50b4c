//! The sample ring: a bounded first-in first-out queue of samples between the
//! USB audio sink, which fills it, and the sample pump, which drains it.
//! Neither side ever waits: a sample that arrives at a full ring is dropped,
//! and an empty ring yields nothing.
//!
//! `SampleRing` owns its queue whole, so its contracts say exactly what each
//! step does. Where the queue is split between two interrupt handlers, each
//! handler holds one end of it and the other end may move at any time; the
//! entry points for that are `sink::ingest_into` and
//! `pump::SamplePump::service_from`.

use vstd::prelude::*;
use crate::queue::{queue_contents, queue_dequeue, queue_enqueue, queue_len, queue_new};
pub use crate::queue::RING_SLOTS;

verus! {

/// The number of samples the ring can hold: about a tenth of a second of
/// audio, to ride out the jitter between USB frames and the sample clock.
pub const RING_CAPACITY: usize = 4096;

/// Reported by `SampleRing::enqueue` when the ring has no room: the sample
/// that arrived was dropped.
#[derive(Clone, Copy, Debug, PartialEq, Eq)]
pub struct RingFull;

/// Whether a ring with these contents has no room for another sample.
pub open spec fn is_full(contents: Seq<i16>) -> bool {
    contents.len() >= RING_CAPACITY
}

/// The contents after a sample arrives: it joins the back, unless the ring is
/// full, in which case it is the arriving sample that is lost.
pub open spec fn after_enqueue(contents: Seq<i16>, sample: i16) -> Seq<i16> {
    if is_full(contents) {
        contents
    } else {
        contents.push(sample)
    }
}

/// The sample that the consumer sees next, if any.
pub open spec fn front(contents: Seq<i16>) -> Option<i16> {
    if contents.len() == 0 {
        None
    } else {
        Some(contents.first())
    }
}

/// The contents after the consumer has taken one sample.
pub open spec fn after_dequeue(contents: Seq<i16>) -> Seq<i16> {
    if contents.len() == 0 {
        contents
    } else {
        contents.drop_first()
    }
}

/// A bounded queue of samples. Its view is the sequence of samples it holds,
/// oldest first, which never grows past `RING_CAPACITY`.
pub struct SampleRing {
    queue: heapless::spsc::Queue<i16, RING_SLOTS>,
}

impl View for SampleRing {
    type V = Seq<i16>;

    closed spec fn view(&self) -> Seq<i16> {
        queue_contents(self.queue)
    }
}

impl SampleRing {
    /// The ring holds no more than its capacity.
    #[verifier::type_invariant]
    closed spec fn within_capacity(self) -> bool {
        queue_contents(self.queue).len() <= RING_CAPACITY
    }

    /// An empty ring.
    pub fn new() -> (ring: Self)
        ensures
            ring@ == Seq::<i16>::empty(),
    {
        SampleRing { queue: queue_new() }
    }

    /// Adds a sample behind those already held. A full ring is left unchanged
    /// and reports `RingFull`.
    pub fn enqueue(&mut self, sample: i16) -> (r: Result<(), RingFull>)
        ensures
            r is Err <==> is_full(old(self)@),
            final(self)@ == after_enqueue(old(self)@, sample),
            final(self)@.len() <= RING_CAPACITY,
    {
        proof {
            use_type_invariant(&*self);
        }
        if queue_enqueue(&mut self.queue, sample) {
            Ok(())
        } else {
            Err(RingFull)
        }
    }

    /// Takes the oldest sample out of the ring, or returns `None` when the
    /// ring is empty.
    pub fn dequeue(&mut self) -> (r: Option<i16>)
        ensures
            r == front(old(self)@),
            final(self)@ == after_dequeue(old(self)@),
    {
        proof {
            use_type_invariant(&*self);
        }
        queue_dequeue(&mut self.queue)
    }

    /// The number of samples held.
    pub fn len(&self) -> (n: usize)
        ensures
            n == self@.len(),
            n <= RING_CAPACITY,
    {
        proof {
            use_type_invariant(self);
        }
        queue_len(&self.queue)
    }

    /// Whether the ring holds no sample.
    pub fn is_empty(&self) -> (b: bool)
        ensures
            b == (self@.len() == 0),
    {
        self.len() == 0
    }

    /// Whether the next `enqueue` would be refused.
    pub fn is_full(&self) -> (b: bool)
        ensures
            b == is_full(self@),
    {
        self.len() >= RING_CAPACITY
    }
}

/// How many more samples a ring with these contents takes in.
pub open spec fn room(contents: Seq<i16>) -> nat {
    if is_full(contents) {
        0
    } else {
        (RING_CAPACITY - contents.len()) as nat
    }
}

/// Of a burst of samples that arrive with no dequeue in between, those that
/// the ring takes in: as many of the first as there is room for.
pub open spec fn accepted_of(contents: Seq<i16>, burst: Seq<i16>) -> Seq<i16> {
    if burst.len() <= room(contents) {
        burst
    } else {
        burst.take(room(contents) as int)
    }
}

/// The contents after such a burst.
pub open spec fn after_burst(contents: Seq<i16>, burst: Seq<i16>) -> Seq<i16> {
    contents + accepted_of(contents, burst)
}

/// A burst is a run of single enqueues: a burst with one more sample at its
/// end leaves what enqueueing that sample after the shorter burst leaves.
/// Once the ring is full, every later sample of the burst is lost.
pub proof fn lemma_burst_by_enqueue(contents: Seq<i16>, burst: Seq<i16>, sample: i16)
    ensures
        after_burst(contents, Seq::<i16>::empty()) == contents,
        after_burst(contents, burst.push(sample)) == after_enqueue(
            after_burst(contents, burst),
            sample,
        ),
        accepted_of(contents, burst.push(sample)).len() == if is_full(
            after_burst(contents, burst),
        ) {
            accepted_of(contents, burst).len()
        } else {
            accepted_of(contents, burst).len() + 1
        },
{
}

/// One step taken on the ring, by the producer or by the consumer.
pub enum RingOp {
    /// The producer offers a sample.
    Enqueue(i16),
    /// The consumer asks for a sample.
    Dequeue,
}

/// What a run of steps on an initially empty ring amounts to: the samples
/// still held, the samples the ring took in, and the samples the consumer
/// got, each in the order of the steps.
pub struct RingHistory {
    pub contents: Seq<i16>,
    pub accepted: Seq<i16>,
    pub observed: Seq<i16>,
}

/// The history after one more step.
pub open spec fn history_step(h: RingHistory, op: RingOp) -> RingHistory {
    match op {
        RingOp::Enqueue(sample) => RingHistory {
            contents: after_enqueue(h.contents, sample),
            accepted: if is_full(h.contents) {
                h.accepted
            } else {
                h.accepted.push(sample)
            },
            observed: h.observed,
        },
        RingOp::Dequeue => RingHistory {
            contents: after_dequeue(h.contents),
            accepted: h.accepted,
            observed: match front(h.contents) {
                Some(sample) => h.observed.push(sample),
                None => h.observed,
            },
        },
    }
}

/// The history of a run of steps that starts on an empty ring.
pub open spec fn history_of(ops: Seq<RingOp>) -> RingHistory
    decreases ops.len(),
{
    if ops.len() == 0 {
        RingHistory { contents: Seq::empty(), accepted: Seq::empty(), observed: Seq::empty() }
    } else {
        history_step(history_of(ops.drop_last()), ops.last())
    }
}

/// However enqueues and dequeues interleave, the ring never holds more than
/// its capacity, and the samples it took in are exactly those the consumer
/// got followed by those still held: the consumer sees the accepted samples
/// in the order they were enqueued, and the only samples lost are those that
/// arrived at a full ring.
pub proof fn lemma_ring_fifo(ops: Seq<RingOp>)
    ensures
        history_of(ops).contents.len() <= RING_CAPACITY,
        history_of(ops).accepted == history_of(ops).observed + history_of(ops).contents,
    decreases ops.len(),
{
    if ops.len() > 0 {
        lemma_ring_fifo(ops.drop_last());
    }
}

} // verus!
