use parametric_speaker::pump::SamplePump;
use parametric_speaker::ring::{SampleRing, RING_CAPACITY, RING_SLOTS};
use parametric_speaker::sink::{
    count_outcome, decode_sample, ingest, ingest_into, sample_at, sample_count,
};

#[test]
fn decode_is_little_endian_twos_complement() {
    assert_eq!(decode_sample(0x00, 0x00), 0);
    assert_eq!(decode_sample(0x01, 0x00), 1);
    assert_eq!(decode_sample(0x00, 0x01), 256);
    assert_eq!(decode_sample(0x34, 0x12), 0x1234);
    assert_eq!(decode_sample(0xff, 0x7f), 32767);
    assert_eq!(decode_sample(0x00, 0x80), -32768);
    assert_eq!(decode_sample(0xff, 0xff), -1);
    assert_eq!(decode_sample(0x10, 0x27), 10000);
    assert_eq!(decode_sample(0xf0, 0xd8), -10000);
}

#[test]
fn decode_agrees_with_the_byte_order_of_every_sample() {
    for sample in i16::MIN..=i16::MAX {
        let bytes = sample.to_le_bytes();
        assert_eq!(decode_sample(bytes[0], bytes[1]), sample);
        assert_eq!(i16::from_le_bytes(bytes), decode_sample(bytes[0], bytes[1]));
    }
}

#[test]
fn sample_count_ignores_a_trailing_byte() {
    assert_eq!(sample_count(&[]), 0);
    assert_eq!(sample_count(&[1]), 0);
    assert_eq!(sample_count(&[1, 2]), 1);
    assert_eq!(sample_count(&[1, 2, 3]), 1);
    assert_eq!(sample_count(&[0u8; 1024]), 512);
    assert_eq!(sample_count(&[0u8; 1023]), 511);
}

#[test]
fn sample_at_reads_the_pair_at_the_index() {
    let data: [u8; 7] = [0x01, 0x00, 0xff, 0xff, 0x00, 0x80, 0x55];
    assert_eq!(sample_at(&data, 0), 1);
    assert_eq!(sample_at(&data, 1), -1);
    assert_eq!(sample_at(&data, 2), -32768);
}

#[test]
fn ingest_enqueues_the_samples_in_order() {
    let mut ring = SampleRing::new();
    let data: [u8; 6] = [0x01, 0x00, 0xfe, 0xff, 0x10, 0x27];
    assert_eq!(ingest(&mut ring, &data), 0);
    assert_eq!(ring.len(), 3);
    assert_eq!(ring.dequeue(), Some(1));
    assert_eq!(ring.dequeue(), Some(-2));
    assert_eq!(ring.dequeue(), Some(10000));
    assert_eq!(ring.dequeue(), None);
}

#[test]
fn ingest_discards_a_trailing_odd_byte() {
    let mut ring = SampleRing::new();
    let data: [u8; 5] = [0x01, 0x00, 0x02, 0x00, 0x7f];
    assert_eq!(ingest(&mut ring, &data), 0);
    assert_eq!(ring.len(), 2);
    assert_eq!(ring.dequeue(), Some(1));
    assert_eq!(ring.dequeue(), Some(2));
    assert_eq!(ring.dequeue(), None);
}

#[test]
fn ingest_of_nothing_changes_nothing() {
    let mut ring = SampleRing::new();
    assert_eq!(ring.enqueue(5), Ok(()));
    assert_eq!(ingest(&mut ring, &[]), 0);
    assert_eq!(ingest(&mut ring, &[9]), 0);
    assert_eq!(ring.len(), 1);
    assert_eq!(ring.dequeue(), Some(5));
}

#[test]
fn ingest_appends_behind_what_is_held() {
    let mut ring = SampleRing::new();
    assert_eq!(ring.enqueue(-5), Ok(()));
    assert_eq!(ingest(&mut ring, &[7, 0, 8, 0]), 0);
    assert_eq!(ring.dequeue(), Some(-5));
    assert_eq!(ring.dequeue(), Some(7));
    assert_eq!(ring.dequeue(), Some(8));
}

#[test]
fn ingest_counts_the_samples_it_drops() {
    let mut ring = SampleRing::new();
    for i in 0..(RING_CAPACITY - 2) {
        assert_eq!(ring.enqueue(i as i16), Ok(()));
    }
    let data: [u8; 10] = [1, 1, 2, 2, 3, 3, 4, 4, 5, 5];
    assert_eq!(ingest(&mut ring, &data), 3);
    assert!(ring.is_full());
    for i in 0..(RING_CAPACITY - 2) {
        assert_eq!(ring.dequeue(), Some(i as i16));
    }
    assert_eq!(ring.dequeue(), Some(0x0101));
    assert_eq!(ring.dequeue(), Some(0x0202));
    assert_eq!(ring.dequeue(), None);
}

#[test]
fn ingest_into_a_full_ring_drops_every_sample() {
    let mut ring = SampleRing::new();
    for _ in 0..RING_CAPACITY {
        assert_eq!(ring.enqueue(1), Ok(()));
    }
    let frame = [0xaau8; 1024];
    assert_eq!(ingest(&mut ring, &frame), 512);
    assert_eq!(ring.len(), RING_CAPACITY);
    for _ in 0..RING_CAPACITY {
        assert_eq!(ring.dequeue(), Some(1));
    }
}

#[test]
fn full_frames_fill_the_ring() {
    let mut ring = SampleRing::new();
    let mut frame = [0u8; 1024];
    for i in 0..512usize {
        let bytes = (i as i16).to_le_bytes();
        frame[2 * i] = bytes[0];
        frame[2 * i + 1] = bytes[1];
    }
    for _ in 0..8 {
        assert_eq!(ingest(&mut ring, &frame), 0);
    }
    assert!(ring.is_full());
    assert_eq!(ingest(&mut ring, &frame), 512);
    for _ in 0..8 {
        for i in 0..512usize {
            assert_eq!(ring.dequeue(), Some(i as i16));
        }
    }
    assert!(ring.is_empty());
}

#[test]
fn split_queue_carries_samples_from_sink_to_pump() {
    let mut queue: heapless::spsc::Queue<i16, RING_SLOTS> = heapless::spsc::Queue::new();
    let (mut producer, mut consumer) = queue.split();
    let mut pump = SamplePump::new(2399);

    let underrun = pump.service_from(&mut consumer);
    assert!(underrun.underrun);
    assert_eq!(underrun.sample, 0);
    assert!(!pump.is_enabled());

    let data: [u8; 7] = [0x10, 0x27, 0x00, 0x00, 0x00, 0x80, 0x01];
    assert_eq!(ingest_into(&mut producer, &data), 0);

    let first = pump.service_from(&mut consumer);
    assert!(!first.underrun);
    assert_eq!(first.sample, 10000);
    assert_eq!(first.duty, 1565);
    assert!(pump.is_enabled());

    let second = pump.service_from(&mut consumer);
    assert!(!second.underrun);
    assert_eq!(second.sample, 0);
    assert_eq!(second.duty, 1199);
    assert_eq!(pump.zero_run(), 1);

    let third = pump.service_from(&mut consumer);
    assert_eq!(third.sample, -32768);
    assert_eq!(third.duty, 0);

    let fourth = pump.service_from(&mut consumer);
    assert!(fourth.underrun);
    assert_eq!(pump.zero_run(), 1);
}

#[test]
fn split_queue_reports_overrun() {
    let mut queue: heapless::spsc::Queue<i16, RING_SLOTS> = heapless::spsc::Queue::new();
    let (mut producer, mut consumer) = queue.split();
    let frame = [0x01u8; 1024];
    for _ in 0..8 {
        assert_eq!(ingest_into(&mut producer, &frame), 0);
    }
    assert_eq!(ingest_into(&mut producer, &frame[..9]), 4);
    assert_eq!(consumer.len(), RING_CAPACITY);
    assert_eq!(consumer.dequeue(), Some(0x0101));
    assert_eq!(ingest_into(&mut producer, &[2, 0, 3, 0]), 1);
}

#[test]
fn a_refused_sample_is_counted_and_an_accepted_one_is_not() {
    assert_eq!(count_outcome(0, true), 0);
    assert_eq!(count_outcome(0, false), 1);
    assert_eq!(count_outcome(511, true), 511);
    assert_eq!(count_outcome(511, false), 512);
}

#[test]
fn split_queue_counts_every_refusal_of_a_burst() {
    let mut queue: heapless::spsc::Queue<i16, RING_SLOTS> = heapless::spsc::Queue::new();
    let (mut producer, mut consumer) = queue.split();
    let frame = [0x02u8; 1024];
    for _ in 0..7 {
        assert_eq!(ingest_into(&mut producer, &frame), 0);
    }
    assert_eq!(ingest_into(&mut producer, &frame[..1000]), 0);
    assert_eq!(consumer.len(), RING_CAPACITY - 12);
    assert_eq!(ingest_into(&mut producer, &frame[..41]), 8);
    assert_eq!(consumer.len(), RING_CAPACITY);
    assert_eq!(ingest_into(&mut producer, &frame[..1]), 0);
    assert_eq!(ingest_into(&mut producer, &[]), 0);
    for _ in 0..RING_CAPACITY {
        assert_eq!(consumer.dequeue(), Some(0x0202));
    }
    assert_eq!(consumer.dequeue(), None);
}
