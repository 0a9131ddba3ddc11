use clip::dsp::oversample::Cascade;
use clip::dsp::processor::{paired_8, sequential_4};
use clip::dsp::{
    FastOversampleX4, IdentityProcessor, MonoProcessor, NullProcessor, OversampleX4, RingBuffer,
    SmallRingBuffer,
};

type Mac = fn(f32, f32, f32) -> f32;
type Gain = fn(f32) -> f32;

fn mac(acc: f32, tap: f32, coeff: f32) -> f32 {
    acc + tap * coeff
}

fn double(a: f32) -> f32 {
    a * 2.0
}

fn fir_2x() -> Vec<f32> {
    vec![1.0, 2.0, 3.0, 4.0]
}

fn fir_4x() -> Vec<f32> {
    vec![1.0, 0.0, 2.0, 1.0]
}

fn cascade() -> Cascade<f32, RingBuffer<f32>, Mac, Gain> {
    Cascade::new(
        RingBuffer::new(3, 0.0),
        RingBuffer::new(3, 0.0),
        RingBuffer::new(5, 0.0),
        RingBuffer::new(5, 0.0),
        fir_2x(),
        fir_4x(),
        0.0,
        mac,
        double,
    )
}

fn cascade_of(fir_2x: Vec<f32>) -> Cascade<f32, RingBuffer<f32>, Mac, Gain> {
    Cascade::new(
        RingBuffer::new(fir_2x.len() / 2 + 1, 0.0),
        RingBuffer::new(3, 0.0),
        RingBuffer::new(fir_2x.len() + 1, 0.0),
        RingBuffer::new(5, 0.0),
        fir_2x,
        fir_4x(),
        0.0,
        mac,
        double,
    )
}

fn around<P: MonoProcessor<f32>>(inner: P) -> OversampleX4<f32, P, Mac, Gain> {
    OversampleX4::new(inner, fir_2x(), fir_4x(), 0.0, mac, double)
}

fn fast_around<P: MonoProcessor<f32>>(inner: P) -> FastOversampleX4<f32, P, Mac, Gain> {
    FastOversampleX4::new(inner, fir_2x(), fir_4x(), 0.0, mac, double)
}

/// A smoothing table whose two branches each come to one half.
fn smooth() -> Vec<f32> {
    vec![0.125, 0.375, 0.375, 0.125]
}

/// Negates every sample and counts them.
struct Negate {
    seen: usize,
}

impl MonoProcessor<f32> for Negate {
    fn step(&mut self, x: f32) -> f32 {
        self.seen += 1;
        -x
    }

    fn reset(&mut self) {
        self.seen = 0;
    }

    fn initialize(&mut self) {}

    fn process_simd_4(&mut self, x: [f32; 4]) -> [f32; 4] {
        sequential_4(self, x)
    }

    fn process_simd_8(&mut self, x: [f32; 8]) -> [f32; 8] {
        paired_8(self, x)
    }
}

const INPUT: [f32; 8] = [1.0, 0.0, 0.0, 2.0, -1.0, 0.0, 0.0, 0.0];
const OUTPUT: [f32; 8] = [8.0, 144.0, 520.0, 528.0, 280.0, 896.0, 504.0, -512.0];

#[test]
fn step_up_2x_gives_both_branches_doubled() {
    let mut c = cascade();
    // taps 1, 0: even 1 * 1, odd 1 * 2, each times two
    assert_eq!(c.step_up_2x(1.0), (2.0, 4.0));
    // taps 3, 1: even 3 * 1 + 1 * 3, odd 3 * 2 + 1 * 4
    assert_eq!(c.step_up_2x(3.0), (12.0, 20.0));
}

#[test]
fn step_up_4x_gives_both_branches_doubled() {
    let mut c = cascade();
    assert_eq!(c.step_up_4x(2.0), (4.0, 0.0));
    // taps 4, 2: even 4 * 1 + 2 * 2, odd 4 * 0 + 2 * 1
    assert_eq!(c.step_up_4x(4.0), (16.0, 4.0));
}

#[test]
fn step_down_4x_sums_over_the_whole_table() {
    let mut c = cascade();
    // taps 0, 4
    assert_eq!(c.step_down_4x(4.0, 0.0), 0.0);
    // taps 4, 16, 0, 4: 4 * 1 + 16 * 0 + 0 * 2 + 4 * 1
    assert_eq!(c.step_down_4x(16.0, 4.0), 8.0);
}

#[test]
fn step_down_2x_sums_over_the_whole_table() {
    let mut c = cascade();
    // the second sample is the newer one: taps 8, 5
    assert_eq!(c.step_down_2x(5.0, 8.0), 8.0 * 1.0 + 5.0 * 2.0);
    // taps 1, 0, 8, 5
    assert_eq!(c.step_down_2x(0.0, 1.0), 1.0 + 8.0 * 3.0 + 5.0 * 4.0);
}

#[test]
fn stages_do_not_touch_each_other() {
    let mut c = cascade();
    c.step_up_4x(7.0);
    c.step_down_4x(7.0, 7.0);
    c.step_down_2x(7.0, 7.0);
    assert_eq!(c.step_up_2x(1.0), (2.0, 4.0));
}

#[test]
fn upsample_gives_four_samples_in_the_order_of_time() {
    let mut c = cascade();
    assert_eq!(c.upsample(1.0), [4.0, 0.0, 16.0, 4.0]);
    assert_eq!(c.upsample(0.0), [28.0, 8.0, 40.0, 12.0]);
}

#[test]
fn downsample_gives_one_sample_for_four() {
    let mut c = cascade();
    assert_eq!(c.downsample([4.0, 0.0, 16.0, 4.0]), 8.0);
    assert_eq!(c.downsample([28.0, 8.0, 40.0, 12.0]), 144.0);
}

#[test]
fn cascade_reset_gives_silence() {
    let mut c = cascade();
    c.upsample(5.0);
    c.downsample([1.0, 2.0, 3.0, 4.0]);
    c.reset();
    assert_eq!(c.upsample(1.0), [4.0, 0.0, 16.0, 4.0]);
    assert_eq!(c.downsample([4.0, 0.0, 16.0, 4.0]), 8.0);
}

#[test]
fn oversample_step_gives_one_sample_for_one() {
    let mut os = around(IdentityProcessor());
    for i in 0..8 {
        assert_eq!(os.step(INPUT[i]), OUTPUT[i]);
    }
}

#[test]
fn fast_oversample_step_gives_the_same() {
    let mut os = fast_around(IdentityProcessor());
    for i in 0..8 {
        assert_eq!(os.step(INPUT[i]), OUTPUT[i]);
    }
}

#[test]
fn fast_oversample_matches_on_a_long_signal() {
    let mut a = OversampleX4::new(Negate { seen: 0 }, smooth(), smooth(), 0.0, mac as Mac, double as Gain);
    let mut b = FastOversampleX4::new(Negate { seen: 0 }, smooth(), smooth(), 0.0, mac as Mac, double as Gain);
    for i in 0..2000 {
        let x = ((i * 37) % 101) as f32 / 50.0 - 1.0;
        assert_eq!(a.step(x), b.step(x));
    }
}

#[test]
fn oversample_runs_the_inner_processor_on_four_samples_a_step() {
    let mut os = around(Negate { seen: 0 });
    for i in 0..8 {
        assert_eq!(os.step(INPUT[i]), -OUTPUT[i]);
    }
    assert_eq!(os.inner_processor.seen, 32);
}

#[test]
fn oversample_around_silence_is_silent() {
    let mut os = around(NullProcessor(0.0f32));
    for x in INPUT {
        assert_eq!(os.step(x), 0.0);
    }
}

#[test]
fn oversample_settles_on_a_constant_input() {
    let mut os = OversampleX4::new(IdentityProcessor(), smooth(), smooth(), 0.0, mac as Mac, double as Gain);
    assert_eq!(os.step(0.75), 0.041015625);
    assert_eq!(os.step(0.75), 0.375);
    assert_eq!(os.step(0.75), 0.708984375);
    for _ in 0..100 {
        assert!((os.step(0.75) - 0.75).abs() < 1e-6);
    }
}

#[test]
fn fast_oversample_settles_on_a_constant_input() {
    let mut os = FastOversampleX4::new(IdentityProcessor(), smooth(), smooth(), 0.0, mac as Mac, double as Gain);
    let mut y = 0.0;
    for _ in 0..100 {
        y = os.step(-0.5);
    }
    assert!((y + 0.5).abs() < 1e-6);
}

#[test]
fn oversample_reset_clears_the_lines_and_leaves_the_inner_processor() {
    let mut os = around(Negate { seen: 0 });
    os.step(1.0);
    os.step(2.0);
    os.reset();
    assert_eq!(os.inner_processor.seen, 8);
    for i in 0..8 {
        assert_eq!(os.step(INPUT[i]), -OUTPUT[i]);
    }
}

#[test]
fn fast_oversample_reset_clears_the_lines() {
    let mut os = fast_around(IdentityProcessor());
    os.step(1.0);
    os.step(2.0);
    os.reset();
    for i in 0..8 {
        assert_eq!(os.step(INPUT[i]), OUTPUT[i]);
    }
}

#[test]
fn oversample_initialize_changes_nothing() {
    let mut os = around(IdentityProcessor());
    os.step(INPUT[0]);
    os.initialize();
    assert_eq!(os.step(INPUT[1]), OUTPUT[1]);
    let mut fast = fast_around(IdentityProcessor());
    fast.step(INPUT[0]);
    fast.initialize();
    assert_eq!(fast.step(INPUT[1]), OUTPUT[1]);
}

#[test]
fn oversample_process_replaces_a_buffer() {
    let mut os = around(IdentityProcessor());
    let mut buffer = INPUT;
    os.process(&mut buffer);
    assert_eq!(buffer, OUTPUT);
}

#[test]
fn oversample_four_at_once_is_four_steps() {
    let mut os = around(IdentityProcessor());
    assert_eq!(os.process_simd_4([1.0, 0.0, 0.0, 2.0]), [8.0, 144.0, 520.0, 528.0]);
    assert_eq!(os.process_simd_4([-1.0, 0.0, 0.0, 0.0]), [280.0, 896.0, 504.0, -512.0]);
    let mut fast = fast_around(IdentityProcessor());
    assert_eq!(fast.process_simd_4([1.0, 0.0, 0.0, 2.0]), [8.0, 144.0, 520.0, 528.0]);
}

#[test]
fn oversample_eight_at_once_reads_the_first_four_lanes_twice() {
    let mut os = around(IdentityProcessor());
    let mut twin = around(IdentityProcessor());
    let y = os.process_simd_8([1.0, 0.0, 0.0, 2.0, 9.0, 9.0, 9.0, 9.0]);
    let a = twin.process_simd_4([1.0, 0.0, 0.0, 2.0]);
    let b = twin.process_simd_4([1.0, 0.0, 0.0, 2.0]);
    assert_eq!(y, [a[0], a[1], a[2], a[3], b[0], b[1], b[2], b[3]]);
    let mut fast = fast_around(IdentityProcessor());
    assert_eq!(fast.process_simd_8([1.0, 0.0, 0.0, 2.0, 9.0, 9.0, 9.0, 9.0]), y);
}

#[test]
fn oversample_nests() {
    let mut os = around(around(IdentityProcessor()));
    let mut inner = around(IdentityProcessor());
    let mut outer = cascade();
    for x in INPUT {
        let q = outer.upsample(x);
        let r = inner.process_simd_4(q);
        assert_eq!(os.step(x), outer.downsample(r));
    }
}

#[test]
fn oversample_without_tables_gives_the_zero() {
    let mut os = OversampleX4::new(IdentityProcessor(), vec![], vec![], 0.0f32, mac as Mac, double as Gain);
    assert_eq!(os.step(1.0), 0.0);
}

#[test]
fn oversample_leaves_out_the_last_of_an_odd_table_on_the_way_up() {
    let mut odd = OversampleX4::new(IdentityProcessor(), vec![1.0, 2.0, 3.0, 4.0, 5.0], vec![1.0, 1.0], 0.0f32, mac as Mac, double as Gain);
    let mut even = OversampleX4::new(IdentityProcessor(), vec![1.0, 2.0, 3.0, 4.0, 0.0], vec![1.0, 1.0], 0.0f32, mac as Mac, double as Gain);
    let mut differs = false;
    for x in INPUT {
        let a = odd.step(x);
        let b = even.step(x);
        differs = differs || a != b;
    }
    // on the way down the fifth coefficient is read
    assert!(differs);
    let mut c = cascade_of(vec![1.0, 2.0, 3.0, 4.0, 5.0]);
    assert_eq!(c.step_up_2x(1.0), (2.0, 4.0));
    assert_eq!(c.step_up_2x(3.0), (12.0, 20.0));
}

#[test]
fn fast_oversample_takes_the_longest_table() {
    let mut table = vec![0.0f32; 254];
    table[253] = 1.0;
    let mut os = FastOversampleX4::new(IdentityProcessor(), table.clone(), vec![1.0, 1.0], 0.0f32, mac as Mac, double as Gain);
    let mut twin = OversampleX4::new(IdentityProcessor(), table, vec![1.0, 1.0], 0.0f32, mac as Mac, double as Gain);
    for i in 0..600 {
        let x = (i % 7) as f32;
        assert_eq!(os.step(x), twin.step(x));
    }
}

#[test]
fn small_lines_serve_a_cascade() {
    let mut c: Cascade<f32, SmallRingBuffer<f32>, Mac, Gain> = Cascade::new(
        SmallRingBuffer::new(0.0),
        SmallRingBuffer::new(0.0),
        SmallRingBuffer::new(0.0),
        SmallRingBuffer::new(0.0),
        fir_2x(),
        fir_4x(),
        0.0,
        mac,
        double,
    );
    assert_eq!(c.upsample(1.0), [4.0, 0.0, 16.0, 4.0]);
    assert_eq!(c.downsample([4.0, 0.0, 16.0, 4.0]), 8.0);
}

#[test]
fn upsample_writes_the_input_once_to_the_first_line() {
    let mut c = cascade();
    c.upsample(1.0);
    // taps 0, 1: even 0 * 1 + 1 * 3, odd 0 * 2 + 1 * 4, each times two
    assert_eq!(c.step_up_2x(0.0), (6.0, 8.0));
}

#[test]
fn downsample_writes_four_samples_to_the_first_line_and_two_to_the_second() {
    let mut c = cascade();
    c.downsample([1.0, 2.0, 3.0, 4.0]);
    // the first line now holds 4, 3, 2, 1 and takes 0, 0: taps 0, 0, 4, 3
    assert_eq!(c.step_down_4x(0.0, 0.0), 4.0 * 2.0 + 3.0 * 1.0);
    let mut d = cascade();
    let y = d.downsample([1.0, 2.0, 3.0, 4.0]);
    // taps 2, 1 and taps 4, 3, 2, 1 of the first line, then taps y1, y0 of the second
    let y0 = 2.0 * 1.0 + 1.0 * 0.0;
    let y1 = 4.0 * 1.0 + 3.0 * 0.0 + 2.0 * 2.0 + 1.0 * 1.0;
    assert_eq!(y, y1 * 1.0 + y0 * 2.0);
    // the second line takes 0, 0: taps 0, 0, y1, y0
    assert_eq!(d.step_down_2x(0.0, 0.0), y1 * 3.0 + y0 * 4.0);
}
