use parametric_speaker::ring::{RingFull, SampleRing, RING_CAPACITY, RING_SLOTS};

#[test]
fn new_ring_is_empty() {
    let mut ring = SampleRing::new();
    assert_eq!(ring.len(), 0);
    assert!(ring.is_empty());
    assert!(!ring.is_full());
    assert_eq!(ring.dequeue(), None);
}

#[test]
fn capacity_is_one_less_than_slots() {
    assert_eq!(RING_CAPACITY, 4096);
    assert_eq!(RING_SLOTS, RING_CAPACITY + 1);
}

#[test]
fn enqueue_then_dequeue_returns_the_sample() {
    let mut ring = SampleRing::new();
    assert_eq!(ring.enqueue(-1234), Ok(()));
    assert_eq!(ring.len(), 1);
    assert!(!ring.is_empty());
    assert_eq!(ring.dequeue(), Some(-1234));
    assert_eq!(ring.len(), 0);
    assert_eq!(ring.dequeue(), None);
}

#[test]
fn samples_come_out_in_the_order_they_went_in() {
    let mut ring = SampleRing::new();
    let samples: [i16; 6] = [3, -3, 0, 32767, -32768, 3];
    for s in samples {
        assert_eq!(ring.enqueue(s), Ok(()));
    }
    assert_eq!(ring.len(), 6);
    for s in samples {
        assert_eq!(ring.dequeue(), Some(s));
    }
    assert_eq!(ring.dequeue(), None);
}

#[test]
fn interleaved_steps_keep_the_order() {
    let mut ring = SampleRing::new();
    let mut next_in: i16 = 0;
    let mut next_out: i16 = 0;
    for round in 0..2000usize {
        for _ in 0..(round % 7) {
            assert_eq!(ring.enqueue(next_in), Ok(()));
            next_in += 1;
        }
        for _ in 0..(round % 5) {
            match ring.dequeue() {
                Some(s) => {
                    assert_eq!(s, next_out);
                    next_out += 1;
                }
                None => assert_eq!(next_in, next_out),
            }
        }
        assert_eq!(ring.len(), (next_in - next_out) as usize);
    }
    while let Some(s) = ring.dequeue() {
        assert_eq!(s, next_out);
        next_out += 1;
    }
    assert_eq!(next_in, next_out);
}

#[test]
fn overrun_drops_the_newest_sample() {
    let mut ring = SampleRing::new();
    let value = |i: usize| (i as i32 - 2048) as i16;
    for i in 0..4096usize {
        assert_eq!(ring.enqueue(value(i)), Ok(()), "sample {}", i);
    }
    assert!(ring.is_full());
    assert_eq!(ring.len(), 4096);
    assert_eq!(ring.enqueue(value(4096)), Err(RingFull));
    assert_eq!(ring.len(), 4096);
    for i in 0..4096usize {
        assert_eq!(ring.dequeue(), Some(value(i)), "sample {}", i);
    }
    assert_eq!(ring.dequeue(), None);
}

#[test]
fn full_ring_is_left_unchanged_by_enqueue() {
    let mut ring = SampleRing::new();
    for i in 0..RING_CAPACITY {
        assert_eq!(ring.enqueue((i % 100) as i16), Ok(()));
    }
    for _ in 0..10 {
        assert_eq!(ring.enqueue(-7), Err(RingFull));
        assert_eq!(ring.len(), RING_CAPACITY);
    }
    for i in 0..RING_CAPACITY {
        assert_eq!(ring.dequeue(), Some((i % 100) as i16));
    }
    assert!(ring.is_empty());
}

#[test]
fn ring_never_holds_more_than_its_capacity() {
    let mut ring = SampleRing::new();
    for i in 0..10000usize {
        if i % 3 == 0 {
            let _ = ring.dequeue();
        }
        let _ = ring.enqueue(i as i16);
        assert!(ring.len() <= RING_CAPACITY);
    }
    assert_eq!(ring.len(), RING_CAPACITY);
}

#[test]
fn room_returns_after_a_dequeue() {
    let mut ring = SampleRing::new();
    for i in 0..RING_CAPACITY {
        assert_eq!(ring.enqueue(i as i16), Ok(()));
    }
    assert_eq!(ring.enqueue(1), Err(RingFull));
    assert_eq!(ring.dequeue(), Some(0));
    assert!(!ring.is_full());
    assert_eq!(ring.enqueue(9999), Ok(()));
    assert!(ring.is_full());
    for i in 1..RING_CAPACITY {
        assert_eq!(ring.dequeue(), Some(i as i16));
    }
    assert_eq!(ring.dequeue(), Some(9999));
    assert_eq!(ring.dequeue(), None);
}

#[test]
fn ring_wraps_around_many_times() {
    let mut ring = SampleRing::new();
    let mut expected: i16 = 0;
    let mut produced: i16 = 0;
    for _ in 0..5 {
        for _ in 0..3000 {
            assert_eq!(ring.enqueue(produced), Ok(()));
            produced = produced.wrapping_add(1);
        }
        for _ in 0..3000 {
            assert_eq!(ring.dequeue(), Some(expected));
            expected = expected.wrapping_add(1);
        }
    }
    assert!(ring.is_empty());
}
