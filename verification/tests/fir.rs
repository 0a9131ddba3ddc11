use clip::dsp::fir::{fir, polyphase_fir};
use clip::dsp::{DelayLine, RingBuffer, SmallRingBuffer};

fn mac(acc: f32, tap: f32, coeff: f32) -> f32 {
    acc + tap * coeff
}

/// Writes down the order in which the taps are met: each step shifts what was
/// there by one decimal place.
fn record(acc: f32, tap: f32, coeff: f32) -> f32 {
    acc * 10.0 + tap * coeff
}

fn line(samples: &[f32], capacity: usize) -> RingBuffer<f32> {
    let mut rb = RingBuffer::new(capacity, 0.0);
    for x in samples {
        rb.push(*x);
    }
    rb
}

#[test]
fn fir_sums_taps_times_coefficients() {
    let rb = line(&[1.0, 2.0, 3.0], 4);
    let table = vec![10.0f32, 20.0, 30.0];
    // the newest sample meets the first coefficient
    assert_eq!(fir(&rb, &table, 0.0, &mac), 3.0 * 10.0 + 2.0 * 20.0 + 1.0 * 30.0);
}

#[test]
fn fir_starts_from_the_given_zero() {
    let rb = line(&[1.0, 2.0], 2);
    let table = vec![1.0f32, 1.0];
    assert_eq!(fir(&rb, &table, 100.0, &mac), 103.0);
}

#[test]
fn fir_over_an_empty_table_is_the_zero() {
    let rb = line(&[1.0, 2.0], 2);
    let table: Vec<f32> = vec![];
    assert_eq!(fir(&rb, &table, 0.0, &mac), 0.0);
    assert_eq!(polyphase_fir(&rb, &table, 0, 0.0, &mac), 0.0);
    assert_eq!(polyphase_fir(&rb, &table, 1, 0.0, &mac), 0.0);
}

#[test]
fn fir_goes_from_the_newest_tap_to_the_oldest() {
    let rb = line(&[3.0, 2.0, 1.0], 3);
    let table = vec![1.0f32, 1.0, 1.0];
    // taps 1, 2, 3 in this order
    assert_eq!(fir(&rb, &table, 0.0, &record), 123.0);
}

#[test]
fn polyphase_fir_takes_every_second_coefficient() {
    let rb = line(&[1.0, 2.0, 3.0], 3);
    let table = vec![1.0f32, 10.0, 100.0, 1000.0];
    assert_eq!(polyphase_fir(&rb, &table, 0, 0.0, &mac), 3.0 * 1.0 + 2.0 * 100.0);
    assert_eq!(polyphase_fir(&rb, &table, 1, 0.0, &mac), 3.0 * 10.0 + 2.0 * 1000.0);
}

#[test]
fn polyphase_fir_leaves_out_the_last_of_an_odd_table() {
    let rb = line(&[1.0, 2.0, 3.0], 3);
    let table = vec![1.0f32, 10.0, 100.0, 1000.0, 10000.0];
    assert_eq!(polyphase_fir(&rb, &table, 0, 0.0, &mac), 203.0);
    assert_eq!(polyphase_fir(&rb, &table, 1, 0.0, &mac), 2030.0);
}

#[test]
fn polyphase_fir_goes_from_the_newest_tap_to_the_oldest() {
    let rb = line(&[2.0, 1.0], 2);
    let table = vec![1.0f32, 3.0, 1.0, 3.0];
    assert_eq!(polyphase_fir(&rb, &table, 0, 0.0, &record), 12.0);
    assert_eq!(polyphase_fir(&rb, &table, 1, 0.0, &record), 36.0);
}

#[test]
fn fir_reads_a_small_ring_buffer_alike() {
    let mut small: SmallRingBuffer<f32> = SmallRingBuffer::new(0.0);
    small.push(1.0).push(2.0).push(3.0);
    let rb = line(&[1.0, 2.0, 3.0], 4);
    let table = vec![0.5f32, 0.25, 0.125];
    assert_eq!(fir(&small, &table, 0.0, &mac), fir(&rb, &table, 0.0, &mac));
    assert_eq!(fir(&small, &table, 0.0, &mac), 1.5 + 0.5 + 0.125);
}

#[test]
fn polyphase_fir_is_fir_over_the_line_with_zeros_between() {
    let samples = [1.0f32, 2.0, 3.0];
    let table = vec![1.0f32, 10.0, 100.0, 1000.0, 5.0, 50.0];
    let rb = line(&samples, 3);
    // the newest sample has just come in
    let even = line(&[1.0, 0.0, 2.0, 0.0, 3.0], 6);
    // the zero after it has
    let odd = line(&[1.0, 0.0, 2.0, 0.0, 3.0, 0.0], 6);
    assert_eq!(polyphase_fir(&rb, &table, 0, 0.0, &mac), fir(&even, &table, 0.0, &mac));
    assert_eq!(polyphase_fir(&rb, &table, 1, 0.0, &mac), fir(&odd, &table, 0.0, &mac));
    assert_eq!(polyphase_fir(&rb, &table, 0, 0.0, &mac), 3.0 + 200.0 + 5.0);
    assert_eq!(polyphase_fir(&rb, &table, 1, 0.0, &mac), 30.0 + 2000.0 + 50.0);
}

#[test]
fn fir_does_not_read_behind_its_table() {
    let a = line(&[9.0, 9.0, 1.0, 2.0], 4);
    let b = line(&[-4.0, 1.0, 2.0], 3);
    let table = vec![0.5f32, 0.25];
    assert_eq!(fir(&a, &table, 0.0, &mac), fir(&b, &table, 0.0, &mac));
}
