//! What this crate takes on trust of `heapless::spsc`.
//!
//! The queue is opaque to the verifier. What it holds is given a name,
//! `queue_contents`, and each call made into it stands behind a wrapper here.
//! The contracts of the wrappers are read off the queue's source and were not
//! proved; everything else in the crate is proved from them.

use vstd::prelude::*;

verus! {

/// The number of slots of the queue. A queue keeps one slot free to tell
/// full from empty, so it holds one item less than it has slots.
pub const RING_SLOTS: usize = 4097;

/// `heapless::spsc::Queue`, opaque to the verifier.
#[verifier::external_type_specification]
#[verifier::external_body]
#[verifier::reject_recursive_types(T)]
pub struct ExQueue<T, const N: usize>(heapless::spsc::Queue<T, N>);

/// The samples held by a queue, oldest first.
pub uninterp spec fn queue_contents(queue: heapless::spsc::Queue<i16, RING_SLOTS>) -> Seq<i16>;

/// `heapless::spsc::Queue::new`: the new queue holds nothing.
#[verifier::external_body]
pub(crate) fn queue_new() -> (queue: heapless::spsc::Queue<i16, RING_SLOTS>)
    ensures
        queue_contents(queue) == Seq::<i16>::empty(),
{
    heapless::spsc::Queue::new()
}

/// `heapless::spsc::Queue::enqueue`, with its result reduced to whether it
/// was `Ok`: while fewer than `RING_SLOTS - 1` samples are held, the sample
/// is added behind them and the call succeeds; otherwise the call fails and
/// the queue is left as it was. The call does not panic.
#[verifier::external_body]
pub(crate) fn queue_enqueue(
    queue: &mut heapless::spsc::Queue<i16, RING_SLOTS>,
    sample: i16,
) -> (accepted: bool)
    ensures
        accepted == (queue_contents(*old(queue)).len() < RING_SLOTS - 1),
        queue_contents(*final(queue)) == if accepted {
            queue_contents(*old(queue)).push(sample)
        } else {
            queue_contents(*old(queue))
        },
    no_unwind
{
    queue.enqueue(sample).is_ok()
}

/// `heapless::spsc::Queue::dequeue`: the oldest sample is taken out and
/// returned; from an empty queue `None` comes back and nothing changes. The
/// call does not panic.
#[verifier::external_body]
pub(crate) fn queue_dequeue(
    queue: &mut heapless::spsc::Queue<i16, RING_SLOTS>,
) -> (r: Option<i16>)
    ensures
        r == if queue_contents(*old(queue)).len() == 0 {
            None
        } else {
            Some(queue_contents(*old(queue)).first())
        },
        queue_contents(*final(queue)) == if queue_contents(*old(queue)).len() == 0 {
            queue_contents(*old(queue))
        } else {
            queue_contents(*old(queue)).drop_first()
        },
    no_unwind
{
    queue.dequeue()
}

/// `heapless::spsc::Queue::len`: the number of samples held.
#[verifier::external_body]
pub(crate) fn queue_len(queue: &heapless::spsc::Queue<i16, RING_SLOTS>) -> (n: usize)
    ensures
        n == queue_contents(*queue).len(),
{
    queue.len()
}

/// `heapless::spsc::Producer`, the enqueueing end of a split queue, opaque to
/// the verifier.
#[verifier::external_type_specification]
#[verifier::external_body]
#[verifier::reject_recursive_types(T)]
pub struct ExProducer<'a, T, const N: usize>(heapless::spsc::Producer<'a, T, N>);

/// `heapless::spsc::Consumer`, the dequeueing end of a split queue, opaque to
/// the verifier.
#[verifier::external_type_specification]
#[verifier::external_body]
#[verifier::reject_recursive_types(T)]
pub struct ExConsumer<'a, T, const N: usize>(heapless::spsc::Consumer<'a, T, N>);

/// `heapless::spsc::Producer::enqueue`, with its result reduced to whether it
/// was `Ok`. The consumer may run between any two calls, so nothing is
/// claimed of the outcome.
#[verifier::external_body]
pub(crate) fn producer_enqueue(
    producer: &mut heapless::spsc::Producer<'_, i16, RING_SLOTS>,
    sample: i16,
) -> (accepted: bool) {
    producer.enqueue(sample).is_ok()
}

/// `heapless::spsc::Consumer::dequeue`. The producer may run between any two
/// calls, so nothing is claimed of the outcome.
#[verifier::external_body]
pub(crate) fn consumer_dequeue(
    consumer: &mut heapless::spsc::Consumer<'_, i16, RING_SLOTS>,
) -> (dequeued: Option<i16>) {
    consumer.dequeue()
}

} // verus!
