use clip::dsp::{DelayLine, RingBuffer, SmallRingBuffer};

#[test]
fn ring_buffer_starts_silent() {
    let rb: RingBuffer<f32> = RingBuffer::new(4, 0.0);
    for d in 0..4 {
        assert_eq!(rb.tap(d), 0.0);
    }
}

#[test]
fn ring_buffer_len_is_its_capacity() {
    let rb: RingBuffer<f32> = RingBuffer::new(7, 0.0);
    assert_eq!(rb.len(), 7);
}

#[test]
fn ring_buffer_round_trip() {
    let mut rb: RingBuffer<f32> = RingBuffer::new(4, 0.0);
    rb.push(1.0);
    rb.push(2.0);
    rb.push(3.0);
    rb.push(4.0);
    assert_eq!(rb.tap(0), 4.0);
    assert_eq!(rb.tap(1), 3.0);
    assert_eq!(rb.tap(2), 2.0);
    assert_eq!(rb.tap(3), 1.0);
}

#[test]
fn ring_buffer_keeps_the_last_writes() {
    let mut rb: RingBuffer<f32> = RingBuffer::new(4, 0.0);
    for i in 1..=10 {
        rb.push(i as f32);
    }
    assert_eq!(rb.tap(0), 10.0);
    assert_eq!(rb.tap(1), 9.0);
    assert_eq!(rb.tap(2), 8.0);
    assert_eq!(rb.tap(3), 7.0);
}

#[test]
fn ring_buffer_partly_filled_shows_silence_behind() {
    let mut rb: RingBuffer<f32> = RingBuffer::new(4, -1.0);
    rb.push(5.0);
    rb.push(6.0);
    assert_eq!(rb.tap(0), 6.0);
    assert_eq!(rb.tap(1), 5.0);
    assert_eq!(rb.tap(2), -1.0);
    assert_eq!(rb.tap(3), -1.0);
}

#[test]
fn ring_buffer_push_chains() {
    let mut rb: RingBuffer<f32> = RingBuffer::new(3, 0.0);
    rb.push(1.0).push(2.0).push(3.0);
    assert_eq!(rb.tap(0), 3.0);
    assert_eq!(rb.tap(2), 1.0);
}

#[test]
fn ring_buffer_reset_gives_silence() {
    let mut rb: RingBuffer<f32> = RingBuffer::new(4, 0.0);
    for i in 1..=6 {
        rb.push(i as f32);
    }
    rb.reset();
    for d in 0..4 {
        assert_eq!(rb.tap(d), 0.0);
    }
    rb.push(9.0);
    assert_eq!(rb.tap(0), 9.0);
    assert_eq!(rb.tap(1), 0.0);
    assert_eq!(rb.tap(3), 0.0);
}

#[test]
fn ring_buffer_with_one_slot_holds_the_last_write() {
    let mut rb: RingBuffer<f32> = RingBuffer::new(1, 0.0);
    assert_eq!(rb.tap(0), 0.0);
    rb.push(1.0);
    assert_eq!(rb.tap(0), 1.0);
    rb.push(2.0);
    assert_eq!(rb.tap(0), 2.0);
}

#[test]
fn ring_buffer_works_on_integers() {
    let mut rb: RingBuffer<i32> = RingBuffer::new(2, 0);
    rb.push(-3);
    rb.push(8);
    rb.push(11);
    assert_eq!(rb.tap(0), 11);
    assert_eq!(rb.tap(1), 8);
}

#[test]
fn ring_buffer_clone_goes_its_own_way() {
    let mut rb: RingBuffer<f32> = RingBuffer::new(2, 0.0);
    rb.push(1.0);
    let mut copy = rb.clone();
    copy.push(2.0);
    assert_eq!(rb.tap(0), 1.0);
    assert_eq!(copy.tap(0), 2.0);
    assert_eq!(copy.tap(1), 1.0);
}

#[test]
fn ring_buffer_iter_stops_before_the_oldest() {
    let mut rb: RingBuffer<f32> = RingBuffer::new(4, 0.0);
    rb.push(1.0);
    rb.push(2.0);
    rb.push(3.0);
    rb.push(4.0);
    let mut it = rb.into_iter();
    assert_eq!(it.next(), Some(4.0));
    assert_eq!(it.next(), Some(3.0));
    assert_eq!(it.next(), Some(2.0));
    assert_eq!(it.next(), None);
}

#[test]
fn ring_buffer_iter_over_one_slot_gives_nothing() {
    let mut rb: RingBuffer<f32> = RingBuffer::new(1, 0.0);
    rb.push(1.0);
    let mut it = rb.into_iter();
    assert_eq!(it.next(), None);
}

#[test]
fn small_ring_buffer_starts_silent() {
    let rb: SmallRingBuffer<f32> = SmallRingBuffer::new(0.0);
    assert_eq!(rb.len(), 255);
    for d in 0..255 {
        assert_eq!(rb.tap(d), 0.0);
    }
}

#[test]
fn small_ring_buffer_round_trip() {
    let mut rb: SmallRingBuffer<f32> = SmallRingBuffer::new(0.0);
    for i in 1..=255 {
        rb.push(i as f32);
    }
    assert_eq!(rb.tap(0), 255.0);
    assert_eq!(rb.tap(1), 254.0);
    assert_eq!(rb.tap(254), 1.0);
}

#[test]
fn small_ring_buffer_wraps_around() {
    let mut rb: SmallRingBuffer<f32> = SmallRingBuffer::new(0.0);
    for i in 0..600 {
        rb.push(i as f32);
    }
    assert_eq!(rb.len(), 255);
    for d in 0..255 {
        assert_eq!(rb.tap(d), (599 - d) as f32);
    }
}

#[test]
fn small_ring_buffer_push_chains() {
    let mut rb: SmallRingBuffer<f32> = SmallRingBuffer::new(0.0);
    rb.push(1.0).push(2.0);
    assert_eq!(rb.tap(0), 2.0);
    assert_eq!(rb.tap(1), 1.0);
    assert_eq!(rb.tap(2), 0.0);
}

#[test]
fn small_ring_buffer_reset_gives_silence() {
    let mut rb: SmallRingBuffer<f32> = SmallRingBuffer::new(0.0);
    for i in 0..300 {
        rb.push(1.0 + i as f32);
    }
    rb.reset();
    for d in 0..255 {
        assert_eq!(rb.tap(d), 0.0);
    }
    rb.push(4.0);
    assert_eq!(rb.tap(0), 4.0);
    assert_eq!(rb.tap(1), 0.0);
}

#[test]
fn both_delay_lines_agree() {
    let mut a: RingBuffer<f32> = RingBuffer::new(255, 0.0);
    let mut b: SmallRingBuffer<f32> = SmallRingBuffer::new(0.0);
    for i in 0..1000 {
        let x = ((i * 37) % 101) as f32 - 50.0;
        a.push(x);
        b.push(x);
        assert_eq!(a.tap(0), b.tap(0));
        assert_eq!(a.tap(100), b.tap(100));
        assert_eq!(a.tap(254), b.tap(254));
    }
}
