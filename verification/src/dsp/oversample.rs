//! Four-times oversampling around an inner processor.
//!
//! One input sample is raised to four by two polyphase interpolation stages,
//! the inner processor handles the four at once, and two decimation stages
//! bring them back to one. Each stage is a filter over a delay line of its
//! own.

use crate::dsp::fir::{fir, fir_sum, phase, polyphase_fir, total_gain, total_mac};
use crate::dsp::processor::{chain, high_half, low_half, pair_of_fours, spans, MonoProcessor};
use crate::dsp::ring_buffer::{pushed, silent, DelayLine, RingBuffer, SmallRingBuffer};
use vstd::prelude::*;

verus! {

/// What the filters compute with: the coefficient tables of the two stages,
/// the sample that a sum starts from, the multiply-accumulate and the gain
/// that makes up for the zeros that interpolation puts between the samples.
pub struct Kernel<T, K, G> {
    /// The low-pass between the single and the double rate.
    pub fir_2x: Seq<T>,
    /// The low-pass between the double and the fourfold rate.
    pub fir_4x: Seq<T>,
    /// Where every sum starts.
    pub zero: T,
    /// `mac(acc, tap, coeff)` stands for `acc + tap * coeff`.
    pub mac: K,
    /// `gain(a)` stands for `a * 2`.
    pub gain: G,
}

/// The histories of the four delay lines, newest sample first.
pub struct Lines<T> {
    /// Input samples, at the single rate.
    pub up_x2: Seq<T>,
    /// Interpolated samples, at the double rate.
    pub up_x4: Seq<T>,
    /// Decimated samples, at the double rate.
    pub down_x2: Seq<T>,
    /// Processed samples, at the fourfold rate.
    pub down_x4: Seq<T>,
}

impl<T, K: Fn(T, T, T) -> T, G: Fn(T) -> T> Kernel<T, K, G> {
    /// `out` is what a sum over `coeffs` may come to once the gain is applied.
    pub open spec fn interpolates(self, taps: Seq<T>, coeffs: Seq<T>, out: T) -> bool {
        exists|acc: T| #[trigger]
            fir_sum(self.mac, self.zero, taps, coeffs, acc) && call_ensures(self.gain, (acc,), out)
    }

    /// `out` is the pair of samples that a line holding `taps` gives at twice
    /// its rate: the first from the even branch of `table`, the second from
    /// the odd branch.
    pub open spec fn doubles(self, taps: Seq<T>, table: Seq<T>, out: (T, T)) -> bool {
        &&& self.interpolates(taps, phase(table, 0), out.0)
        &&& self.interpolates(taps, phase(table, 1), out.1)
    }

    /// `y` is the sample that a line gives at half its rate once `x0` and then
    /// `x1` have been written to it: the sum over the whole `table`.
    pub open spec fn halves(self, line: Seq<T>, table: Seq<T>, x0: T, x1: T, y: T) -> bool {
        fir_sum(self.mac, self.zero, pushed(pushed(line, x0), x1), table, y)
    }

    /// Raising `x` to the fourfold rate may give `q` and leave the lines as
    /// `next`: `x` is doubled to a pair, and each sample of the pair is
    /// doubled again.
    pub open spec fn upsamples(self, lines: Lines<T>, x: T, next: Lines<T>, q: [T; 4]) -> bool {
        exists|x0: T, x1: T|
            {
                &&& #[trigger] self.doubles(pushed(lines.up_x2, x), self.fir_2x, (x0, x1))
                &&& self.doubles(pushed(lines.up_x4, x0), self.fir_4x, (q[0], q[1]))
                &&& self.doubles(
                    pushed(pushed(lines.up_x4, x0), x1),
                    self.fir_4x,
                    (q[2], q[3]),
                )
                &&& next == (Lines {
                    up_x2: pushed(lines.up_x2, x),
                    up_x4: pushed(pushed(lines.up_x4, x0), x1),
                    ..lines
                })
            }
    }

    /// Bringing `q` down to the single rate may give `y` and leave the lines
    /// as `next`: each pair of `q` is halved to one sample, and the two that
    /// come of it are halved again.
    pub open spec fn downsamples(self, lines: Lines<T>, q: [T; 4], next: Lines<T>, y: T) -> bool {
        exists|y0: T, y1: T|
            {
                &&& self.halves(lines.down_x4, self.fir_4x, q[0], q[1], y0)
                &&& self.halves(
                    pushed(pushed(lines.down_x4, q[0]), q[1]),
                    self.fir_4x,
                    q[2],
                    q[3],
                    y1,
                )
                &&& #[trigger] self.halves(lines.down_x2, self.fir_2x, y0, y1, y)
                &&& next == (Lines {
                    down_x2: pushed(pushed(lines.down_x2, y0), y1),
                    down_x4: pushed(
                        pushed(pushed(pushed(lines.down_x4, q[0]), q[1]), q[2]),
                        q[3],
                    ),
                    ..lines
                })
            }
    }
}

impl<T> Lines<T> {
    /// Lines of the same lengths that hold `zero` at every delay.
    pub open spec fn cleared(self, zero: T) -> Lines<T> {
        Lines {
            up_x2: silent(self.up_x2.len(), zero),
            up_x4: silent(self.up_x4.len(), zero),
            down_x2: silent(self.down_x2.len(), zero),
            down_x4: silent(self.down_x4.len(), zero),
        }
    }
}

/// The two interpolation stages and the two decimation stages of a four-times
/// oversampler, over delay lines of type `D`.
#[derive(Debug, Clone)]
pub struct Cascade<T, D, K, G> {
    up_delay_line_x2: D,
    up_delay_line_x4: D,
    down_delay_line_x2: D,
    down_delay_line_x4: D,
    fir_2x: Vec<T>,
    fir_4x: Vec<T>,
    zero: T,
    mac: K,
    gain: G,
}

impl<T: Copy, D: DelayLine<T>, K: Fn(T, T, T) -> T, G: Fn(T) -> T> Cascade<T, D, K, G> {
    /// What the stages compute with. No stage changes it.
    pub closed spec fn kernel(&self) -> Kernel<T, K, G> {
        Kernel {
            fir_2x: self.fir_2x@,
            fir_4x: self.fir_4x@,
            zero: self.zero,
            mac: self.mac,
            gain: self.gain,
        }
    }

    /// What the four delay lines hold.
    pub closed spec fn lines(&self) -> Lines<T> {
        Lines {
            up_x2: self.up_delay_line_x2.history(),
            up_x4: self.up_delay_line_x4.history(),
            down_x2: self.down_delay_line_x2.history(),
            down_x4: self.down_delay_line_x4.history(),
        }
    }

    /// Every line is valid, rests at the kernel's zero and is long enough for
    /// the filter that reads it, and the kernel's functions accept every
    /// input.
    pub closed spec fn wf(&self) -> bool {
        &&& self.up_delay_line_x2.wf()
        &&& self.up_delay_line_x4.wf()
        &&& self.down_delay_line_x2.wf()
        &&& self.down_delay_line_x4.wf()
        &&& self.up_delay_line_x2.silence() == self.zero
        &&& self.up_delay_line_x4.silence() == self.zero
        &&& self.down_delay_line_x2.silence() == self.zero
        &&& self.down_delay_line_x4.silence() == self.zero
        &&& self.fir_2x@.len() / 2 <= self.up_delay_line_x2.history().len()
        &&& self.fir_4x@.len() / 2 <= self.up_delay_line_x4.history().len()
        &&& self.fir_2x@.len() <= self.down_delay_line_x2.history().len()
        &&& self.fir_4x@.len() <= self.down_delay_line_x4.history().len()
        &&& total_mac(self.mac)
        &&& total_gain(self.gain)
    }

    /// The stages over the four given lines. An interpolation line must hold
    /// at least half as many samples as its table has coefficients, a
    /// decimation line at least as many.
    pub fn new(
        up_delay_line_x2: D,
        up_delay_line_x4: D,
        down_delay_line_x2: D,
        down_delay_line_x4: D,
        fir_2x: Vec<T>,
        fir_4x: Vec<T>,
        zero: T,
        mac: K,
        gain: G,
    ) -> (r: Self)
        requires
            up_delay_line_x2.wf(),
            up_delay_line_x4.wf(),
            down_delay_line_x2.wf(),
            down_delay_line_x4.wf(),
            up_delay_line_x2.silence() == zero,
            up_delay_line_x4.silence() == zero,
            down_delay_line_x2.silence() == zero,
            down_delay_line_x4.silence() == zero,
            fir_2x@.len() / 2 <= up_delay_line_x2.history().len(),
            fir_4x@.len() / 2 <= up_delay_line_x4.history().len(),
            fir_2x@.len() <= down_delay_line_x2.history().len(),
            fir_4x@.len() <= down_delay_line_x4.history().len(),
            total_mac(mac),
            total_gain(gain),
        ensures
            r.wf(),
            r.kernel() == (Kernel { fir_2x: fir_2x@, fir_4x: fir_4x@, zero, mac, gain }),
            r.lines() == (Lines {
                up_x2: up_delay_line_x2.history(),
                up_x4: up_delay_line_x4.history(),
                down_x2: down_delay_line_x2.history(),
                down_x4: down_delay_line_x4.history(),
            }),
    {
        Cascade {
            up_delay_line_x2,
            up_delay_line_x4,
            down_delay_line_x2,
            down_delay_line_x4,
            fir_2x,
            fir_4x,
            zero,
            mac,
            gain,
        }
    }

    /// From the single to the double rate: writes `x` to the first
    /// interpolation line and gives the two samples that stand for it.
    pub fn step_up_2x(&mut self, x: T) -> (r: (T, T))
        requires
            old(self).wf(),
        ensures
            final(self).wf(),
            final(self).kernel() == old(self).kernel(),
            final(self).lines() == (Lines {
                up_x2: pushed(old(self).lines().up_x2, x),
                ..old(self).lines()
            }),
            old(self).kernel().doubles(
                pushed(old(self).lines().up_x2, x),
                old(self).kernel().fir_2x,
                r,
            ),
    {
        self.up_delay_line_x2.push(x);
        let even_sum = polyphase_fir(&self.up_delay_line_x2, &self.fir_2x, 0, self.zero, &self.mac);
        let even = (self.gain)(even_sum);
        let odd_sum = polyphase_fir(&self.up_delay_line_x2, &self.fir_2x, 1, self.zero, &self.mac);
        let odd = (self.gain)(odd_sum);
        proof {
            let kernel = self.kernel();
            let taps = self.lines().up_x2;
            assert(fir_sum(kernel.mac, kernel.zero, taps, phase(kernel.fir_2x, 0), even_sum));
            assert(kernel.interpolates(taps, phase(kernel.fir_2x, 0), even));
            assert(fir_sum(kernel.mac, kernel.zero, taps, phase(kernel.fir_2x, 1), odd_sum));
            assert(kernel.interpolates(taps, phase(kernel.fir_2x, 1), odd));
        }
        (even, odd)
    }

    /// From the double to the fourfold rate: writes `x` to the second
    /// interpolation line and gives the two samples that stand for it.
    pub fn step_up_4x(&mut self, x: T) -> (r: (T, T))
        requires
            old(self).wf(),
        ensures
            final(self).wf(),
            final(self).kernel() == old(self).kernel(),
            final(self).lines() == (Lines {
                up_x4: pushed(old(self).lines().up_x4, x),
                ..old(self).lines()
            }),
            old(self).kernel().doubles(
                pushed(old(self).lines().up_x4, x),
                old(self).kernel().fir_4x,
                r,
            ),
    {
        self.up_delay_line_x4.push(x);
        let even_sum = polyphase_fir(&self.up_delay_line_x4, &self.fir_4x, 0, self.zero, &self.mac);
        let even = (self.gain)(even_sum);
        let odd_sum = polyphase_fir(&self.up_delay_line_x4, &self.fir_4x, 1, self.zero, &self.mac);
        let odd = (self.gain)(odd_sum);
        proof {
            let kernel = self.kernel();
            let taps = self.lines().up_x4;
            assert(fir_sum(kernel.mac, kernel.zero, taps, phase(kernel.fir_4x, 0), even_sum));
            assert(kernel.interpolates(taps, phase(kernel.fir_4x, 0), even));
            assert(fir_sum(kernel.mac, kernel.zero, taps, phase(kernel.fir_4x, 1), odd_sum));
            assert(kernel.interpolates(taps, phase(kernel.fir_4x, 1), odd));
        }
        (even, odd)
    }

    /// From the fourfold to the double rate: writes `x0` and then `x1` to the
    /// first decimation line and gives the one sample that stands for both.
    pub fn step_down_4x(&mut self, x0: T, x1: T) -> (y: T)
        requires
            old(self).wf(),
        ensures
            final(self).wf(),
            final(self).kernel() == old(self).kernel(),
            final(self).lines() == (Lines {
                down_x4: pushed(pushed(old(self).lines().down_x4, x0), x1),
                ..old(self).lines()
            }),
            old(self).kernel().halves(
                old(self).lines().down_x4,
                old(self).kernel().fir_4x,
                x0,
                x1,
                y,
            ),
    {
        self.down_delay_line_x4.push(x0);
        self.down_delay_line_x4.push(x1);
        fir(&self.down_delay_line_x4, &self.fir_4x, self.zero, &self.mac)
    }

    /// From the double to the single rate: writes `x0` and then `x1` to the
    /// second decimation line and gives the one sample that stands for both.
    pub fn step_down_2x(&mut self, x0: T, x1: T) -> (y: T)
        requires
            old(self).wf(),
        ensures
            final(self).wf(),
            final(self).kernel() == old(self).kernel(),
            final(self).lines() == (Lines {
                down_x2: pushed(pushed(old(self).lines().down_x2, x0), x1),
                ..old(self).lines()
            }),
            old(self).kernel().halves(
                old(self).lines().down_x2,
                old(self).kernel().fir_2x,
                x0,
                x1,
                y,
            ),
    {
        self.down_delay_line_x2.push(x0);
        self.down_delay_line_x2.push(x1);
        fir(&self.down_delay_line_x2, &self.fir_2x, self.zero, &self.mac)
    }

    /// Both interpolation stages: the four samples at the fourfold rate that
    /// stand for `x`, in the order of time.
    pub fn upsample(&mut self, x: T) -> (q: [T; 4])
        requires
            old(self).wf(),
        ensures
            final(self).wf(),
            final(self).kernel() == old(self).kernel(),
            old(self).kernel().upsamples(old(self).lines(), x, final(self).lines(), q),
    {
        let (x0, x1) = self.step_up_2x(x);
        let (x00, x01) = self.step_up_4x(x0);
        let (x10, x11) = self.step_up_4x(x1);
        let q = [x00, x01, x10, x11];
        proof {
            assert(old(self).kernel().doubles(
                pushed(old(self).lines().up_x2, x),
                old(self).kernel().fir_2x,
                (x0, x1),
            ));
        }
        q
    }

    /// Both decimation stages: the one sample at the single rate that stands
    /// for the four of `q`.
    pub fn downsample(&mut self, q: [T; 4]) -> (y: T)
        requires
            old(self).wf(),
        ensures
            final(self).wf(),
            final(self).kernel() == old(self).kernel(),
            old(self).kernel().downsamples(old(self).lines(), q, final(self).lines(), y),
    {
        let y0 = self.step_down_4x(q[0], q[1]);
        let y1 = self.step_down_4x(q[2], q[3]);
        let y = self.step_down_2x(y0, y1);
        proof {
            assert(old(self).kernel().halves(
                old(self).lines().down_x2,
                old(self).kernel().fir_2x,
                y0,
                y1,
                y,
            ));
        }
        y
    }

    /// Fills the four delay lines with the kernel's zero.
    pub fn reset(&mut self)
        requires
            old(self).wf(),
        ensures
            final(self).wf(),
            final(self).kernel() == old(self).kernel(),
            final(self).lines() == old(self).lines().cleared(old(self).kernel().zero),
    {
        self.up_delay_line_x2.reset();
        self.up_delay_line_x4.reset();
        self.down_delay_line_x2.reset();
        self.down_delay_line_x4.reset();
    }
}

/// One step of an oversampler with the kernel `kernel` around the processor
/// `inner`: the input `x` is raised to four samples, `inner` handles the four
/// at once, and what it gives is brought down to the output `y`.
#[verifier::opaque]
pub open spec fn oversamples<T: Copy, P: MonoProcessor<T>, K: Fn(T, T, T) -> T, G: Fn(T) -> T>(
    kernel: Kernel<T, K, G>,
    inner: P,
    lines: Lines<T>,
    x: T,
    next_inner: P,
    next_lines: Lines<T>,
    y: T,
) -> bool {
    exists|mid: Lines<T>, q_in: [T; 4], q_out: [T; 4]|
        #![trigger kernel.upsamples(lines, x, mid, q_in), kernel.downsamples(mid, q_out, next_lines, y)]
        {
            &&& kernel.upsamples(lines, x, mid, q_in)
            &&& inner.steps_4(q_in, next_inner, q_out)
            &&& kernel.downsamples(mid, q_out, next_lines, y)
        }
}

/// Lock step: in one step of an oversampler each delay line takes as many
/// samples as its rate asks for, whatever the inner processor does. The first
/// interpolation line takes the input, the second two samples, the first
/// decimation line four and the second two, and no line changes its length.
pub proof fn lemma_lock_step<T: Copy, P: MonoProcessor<T>, K: Fn(T, T, T) -> T, G: Fn(T) -> T>(
    kernel: Kernel<T, K, G>,
    inner: P,
    lines: Lines<T>,
    x: T,
    next_inner: P,
    next_lines: Lines<T>,
    y: T,
)
    requires
        oversamples(kernel, inner, lines, x, next_inner, next_lines, y),
    ensures
        next_lines.up_x2 == pushed(lines.up_x2, x),
        exists|a: T, b: T| next_lines.up_x4 == #[trigger] pushed(pushed(lines.up_x4, a), b),
        exists|a: T, b: T, c: T, d: T|
            next_lines.down_x4 == #[trigger] pushed(
                pushed(pushed(pushed(lines.down_x4, a), b), c),
                d,
            ),
        exists|a: T, b: T| next_lines.down_x2 == #[trigger] pushed(pushed(lines.down_x2, a), b),
        next_lines.up_x2.len() == lines.up_x2.len(),
        next_lines.up_x4.len() == lines.up_x4.len(),
        next_lines.down_x2.len() == lines.down_x2.len(),
        next_lines.down_x4.len() == lines.down_x4.len(),
{
    reveal(oversamples);
    let (mid, q_in, q_out) = choose|mid: Lines<T>, q_in: [T; 4], q_out: [T; 4]|
        #![trigger kernel.upsamples(lines, x, mid, q_in), kernel.downsamples(mid, q_out, next_lines, y)]
        {
            &&& kernel.upsamples(lines, x, mid, q_in)
            &&& inner.steps_4(q_in, next_inner, q_out)
            &&& kernel.downsamples(mid, q_out, next_lines, y)
        };
    let (x0, x1) = choose|x0: T, x1: T|
        {
            &&& #[trigger] kernel.doubles(pushed(lines.up_x2, x), kernel.fir_2x, (x0, x1))
            &&& mid == (Lines {
                up_x2: pushed(lines.up_x2, x),
                up_x4: pushed(pushed(lines.up_x4, x0), x1),
                ..lines
            })
        };
    let (y0, y1) = choose|y0: T, y1: T|
        {
            &&& #[trigger] kernel.halves(mid.down_x2, kernel.fir_2x, y0, y1, y)
            &&& next_lines == (Lines {
                down_x2: pushed(pushed(mid.down_x2, y0), y1),
                down_x4: pushed(pushed(pushed(pushed(mid.down_x4, q_out[0]), q_out[1]), q_out[2]), q_out[3]),
                ..mid
            })
        };
    assert(next_lines.up_x4 == pushed(pushed(lines.up_x4, x0), x1));
    assert(next_lines.down_x2 == pushed(pushed(lines.down_x2, y0), y1));
    assert(next_lines.down_x4 == pushed(
        pushed(pushed(pushed(lines.down_x4, q_out[0]), q_out[1]), q_out[2]),
        q_out[3],
    ));
}

/// One input sample through the stages of `cascade` and through `inner`.
fn oversample_step<
    T: Copy,
    D: DelayLine<T>,
    P: MonoProcessor<T>,
    K: Fn(T, T, T) -> T,
    G: Fn(T) -> T,
>(inner: &mut P, cascade: &mut Cascade<T, D, K, G>, x: T) -> (y: T)
    requires
        old(inner).wf(),
        old(cascade).wf(),
    ensures
        final(inner).wf(),
        final(cascade).wf(),
        final(cascade).kernel() == old(cascade).kernel(),
        oversamples(
            old(cascade).kernel(),
            *old(inner),
            old(cascade).lines(),
            x,
            *final(inner),
            final(cascade).lines(),
            y,
        ),
{
    let q_in = cascade.upsample(x);
    let ghost mid = cascade.lines();
    let q_out = inner.process_simd_4(q_in);
    let y = cascade.downsample(q_out);
    proof {
        reveal(oversamples);
        let kernel = old(cascade).kernel();
        assert(kernel.upsamples(old(cascade).lines(), x, mid, q_in));
        assert(kernel.downsamples(mid, q_out, cascade.lines(), y));
    }
    y
}

/// A four-times oversampler whose delay lines are just as long as its tables
/// ask for: half a table and one slot for interpolation, a whole table and
/// one slot for decimation.
#[derive(Debug, Clone)]
pub struct OversampleX4<T, P, K, G> {
    /// The processor that runs at the fourfold rate.
    pub inner_processor: P,
    cascade: Cascade<T, RingBuffer<T>, K, G>,
}

impl<T: Copy, P: MonoProcessor<T>, K: Fn(T, T, T) -> T, G: Fn(T) -> T> OversampleX4<T, P, K, G> {
    /// The processor that runs at the fourfold rate, as it stands now.
    pub closed spec fn inner(&self) -> P {
        self.inner_processor
    }

    /// The filter stages.
    pub closed spec fn cascade(&self) -> Cascade<T, RingBuffer<T>, K, G> {
        self.cascade
    }

    /// What the filters compute with. Nothing changes it.
    pub open spec fn kernel(&self) -> Kernel<T, K, G> {
        self.cascade().kernel()
    }

    /// What the four delay lines hold.
    pub open spec fn lines(&self) -> Lines<T> {
        self.cascade().lines()
    }

    /// An oversampler around `inner_processor` with the two filter tables, all
    /// its delay lines at rest.
    pub fn new(
        inner_processor: P,
        fir_2x: Vec<T>,
        fir_4x: Vec<T>,
        zero: T,
        mac: K,
        gain: G,
    ) -> (r: Self)
        requires
            inner_processor.wf(),
            fir_2x@.len() < usize::MAX / 2,
            fir_4x@.len() < usize::MAX / 2,
            total_mac(mac),
            total_gain(gain),
        ensures
            r.wf(),
            r.inner() == inner_processor,
            r.kernel() == (Kernel { fir_2x: fir_2x@, fir_4x: fir_4x@, zero, mac, gain }),
            r.lines() == (Lines {
                up_x2: silent((fir_2x@.len() / 2 + 1) as nat, zero),
                up_x4: silent((fir_4x@.len() / 2 + 1) as nat, zero),
                down_x2: silent((fir_2x@.len() + 1) as nat, zero),
                down_x4: silent((fir_4x@.len() + 1) as nat, zero),
            }),
    {
        let up_delay_line_x2 = RingBuffer::new(fir_2x.len() / 2 + 1, zero);
        let up_delay_line_x4 = RingBuffer::new(fir_4x.len() / 2 + 1, zero);
        let down_delay_line_x2 = RingBuffer::new(fir_2x.len() + 1, zero);
        let down_delay_line_x4 = RingBuffer::new(fir_4x.len() + 1, zero);
        OversampleX4 {
            inner_processor,
            cascade: Cascade::new(
                up_delay_line_x2,
                up_delay_line_x4,
                down_delay_line_x2,
                down_delay_line_x4,
                fir_2x,
                fir_4x,
                zero,
                mac,
                gain,
            ),
        }
    }
}

impl<T: Copy, P: MonoProcessor<T>, K: Fn(T, T, T) -> T, G: Fn(T) -> T> MonoProcessor<T> for OversampleX4<
    T,
    P,
    K,
    G,
> {
    open spec fn wf(&self) -> bool {
        &&& self.inner().wf()
        &&& self.cascade().wf()
    }

    open spec fn steps(&self, x: T, next: Self, y: T) -> bool {
        &&& next.kernel() == self.kernel()
        &&& oversamples(
            self.kernel(),
            self.inner(),
            self.lines(),
            x,
            next.inner(),
            next.lines(),
            y,
        )
    }

    open spec fn steps_4(&self, x: [T; 4], next: Self, y: [T; 4]) -> bool {
        chain(
            |s: Self| s.wf(),
            |s: Self, a: T, n: Self, b: T| s.steps(a, n, b),
            *self,
            x@,
            next,
            y@,
        )
    }

    open spec fn steps_8(&self, x: [T; 8], next: Self, y: [T; 8]) -> bool {
        pair_of_fours(
            |s: Self| s.wf(),
            |s: Self, a: [T; 4], n: Self, b: [T; 4]| s.steps_4(a, n, b),
            *self,
            x,
            next,
            y,
        )
    }

    open spec fn resets(&self, next: Self) -> bool {
        &&& next.inner() == self.inner()
        &&& next.kernel() == self.kernel()
        &&& next.lines() == self.lines().cleared(self.kernel().zero)
    }

    open spec fn initializes(&self, next: Self) -> bool {
        next == *self
    }

    /// One input sample to one output sample: four samples at the fourfold
    /// rate go through the inner processor on the way.
    fn step(&mut self, x: T) -> (y: T) {
        oversample_step(&mut self.inner_processor, &mut self.cascade, x)
    }

    /// Fills the four delay lines with the kernel's zero. The inner processor
    /// is left as it is.
    fn reset(&mut self) {
        self.cascade.reset();
    }

    /// Nothing is computed ahead of time.
    fn initialize(&mut self) {
    }

    /// Four consecutive samples, stepped through one after the other.
    fn process_simd_4(&mut self, x: [T; 4]) -> (y: [T; 4]) {
        let ghost s0 = *self;
        let y0 = self.step(x[0]);
        let ghost s1 = *self;
        let y1 = self.step(x[1]);
        let ghost s2 = *self;
        let y2 = self.step(x[2]);
        let ghost s3 = *self;
        let y3 = self.step(x[3]);
        let y = [y0, y1, y2, y3];
        proof {
            let states = seq![s0, s1, s2, s3, *self];
            assert(x@.len() == 4 && y@.len() == 4);
            assert(spans(states, x@.len(), s0, *self));
        }
        y
    }

    /// Two calls of the four-wide form, both on the first four lanes of `x`:
    /// the last four are not read.
    fn process_simd_8(&mut self, x: [T; 8]) -> (y: [T; 8]) {
        let x0 = [x[0], x[1], x[2], x[3]];
        let x1 = [x[0], x[1], x[2], x[3]];
        let y0 = self.process_simd_4(x0);
        let ghost mid = *self;
        let y1 = self.process_simd_4(x1);
        let y = [y0[0], y0[1], y0[2], y0[3], y1[0], y1[1], y1[2], y1[3]];
        proof {
            assert(x0@ =~= low_half(x));
            assert(x1 =~= x0);
            assert(y0@ =~= low_half(y));
            assert(y1@ =~= high_half(y));
            let wf = |s: Self| s.wf();
            let steps_4 = |s: Self, a: [T; 4], n: Self, b: [T; 4]| s.steps_4(a, n, b);
            assert(wf(mid));
            assert(steps_4(*old(self), x0, mid, y0));
            assert(steps_4(mid, x0, *self, y1));
        }
        y
    }
}

/// A four-times oversampler whose delay lines all have 255 samples, whatever
/// the tables ask for: more memory, cheaper indexing.
#[derive(Debug, Clone)]
pub struct FastOversampleX4<T, P, K, G> {
    /// The processor that runs at the fourfold rate.
    pub inner_processor: P,
    cascade: Cascade<T, SmallRingBuffer<T>, K, G>,
}

impl<T: Copy, P: MonoProcessor<T>, K: Fn(T, T, T) -> T, G: Fn(T) -> T> FastOversampleX4<T, P, K, G> {
    /// The processor that runs at the fourfold rate, as it stands now.
    pub closed spec fn inner(&self) -> P {
        self.inner_processor
    }

    /// The filter stages.
    pub closed spec fn cascade(&self) -> Cascade<T, SmallRingBuffer<T>, K, G> {
        self.cascade
    }

    /// What the filters compute with. Nothing changes it.
    pub open spec fn kernel(&self) -> Kernel<T, K, G> {
        self.cascade().kernel()
    }

    /// What the four delay lines hold.
    pub open spec fn lines(&self) -> Lines<T> {
        self.cascade().lines()
    }

    /// An oversampler around `inner_processor` with the two filter tables, all
    /// its delay lines at rest. A table has an even number of coefficients, at
    /// least two, and is no longer than a delay line.
    pub fn new(
        inner_processor: P,
        fir_2x: Vec<T>,
        fir_4x: Vec<T>,
        zero: T,
        mac: K,
        gain: G,
    ) -> (r: Self)
        requires
            inner_processor.wf(),
            0 < fir_2x@.len() <= 255,
            0 < fir_4x@.len() <= 255,
            fir_2x@.len() % 2 == 0,
            fir_4x@.len() % 2 == 0,
            total_mac(mac),
            total_gain(gain),
        ensures
            r.wf(),
            r.inner() == inner_processor,
            r.kernel() == (Kernel { fir_2x: fir_2x@, fir_4x: fir_4x@, zero, mac, gain }),
            r.lines() == (Lines {
                up_x2: silent(255, zero),
                up_x4: silent(255, zero),
                down_x2: silent(255, zero),
                down_x4: silent(255, zero),
            }),
    {
        let up_delay_line_x2 = SmallRingBuffer::new(zero);
        let up_delay_line_x4 = SmallRingBuffer::new(zero);
        let down_delay_line_x2 = SmallRingBuffer::new(zero);
        let down_delay_line_x4 = SmallRingBuffer::new(zero);
        FastOversampleX4 {
            inner_processor,
            cascade: Cascade::new(
                up_delay_line_x2,
                up_delay_line_x4,
                down_delay_line_x2,
                down_delay_line_x4,
                fir_2x,
                fir_4x,
                zero,
                mac,
                gain,
            ),
        }
    }
}

impl<T: Copy, P: MonoProcessor<T>, K: Fn(T, T, T) -> T, G: Fn(T) -> T> MonoProcessor<T> for FastOversampleX4<
    T,
    P,
    K,
    G,
> {
    open spec fn wf(&self) -> bool {
        &&& self.inner().wf()
        &&& self.cascade().wf()
    }

    open spec fn steps(&self, x: T, next: Self, y: T) -> bool {
        &&& next.kernel() == self.kernel()
        &&& oversamples(
            self.kernel(),
            self.inner(),
            self.lines(),
            x,
            next.inner(),
            next.lines(),
            y,
        )
    }

    open spec fn steps_4(&self, x: [T; 4], next: Self, y: [T; 4]) -> bool {
        chain(
            |s: Self| s.wf(),
            |s: Self, a: T, n: Self, b: T| s.steps(a, n, b),
            *self,
            x@,
            next,
            y@,
        )
    }

    open spec fn steps_8(&self, x: [T; 8], next: Self, y: [T; 8]) -> bool {
        pair_of_fours(
            |s: Self| s.wf(),
            |s: Self, a: [T; 4], n: Self, b: [T; 4]| s.steps_4(a, n, b),
            *self,
            x,
            next,
            y,
        )
    }

    open spec fn resets(&self, next: Self) -> bool {
        &&& next.inner() == self.inner()
        &&& next.kernel() == self.kernel()
        &&& next.lines() == self.lines().cleared(self.kernel().zero)
    }

    open spec fn initializes(&self, next: Self) -> bool {
        next == *self
    }

    /// One input sample to one output sample: four samples at the fourfold
    /// rate go through the inner processor on the way.
    fn step(&mut self, x: T) -> (y: T) {
        oversample_step(&mut self.inner_processor, &mut self.cascade, x)
    }

    /// Fills the four delay lines with the kernel's zero. The inner processor
    /// is left as it is.
    fn reset(&mut self) {
        self.cascade.reset();
    }

    /// Nothing is computed ahead of time.
    fn initialize(&mut self) {
    }

    /// Four consecutive samples, stepped through one after the other.
    fn process_simd_4(&mut self, x: [T; 4]) -> (y: [T; 4]) {
        let ghost s0 = *self;
        let y0 = self.step(x[0]);
        let ghost s1 = *self;
        let y1 = self.step(x[1]);
        let ghost s2 = *self;
        let y2 = self.step(x[2]);
        let ghost s3 = *self;
        let y3 = self.step(x[3]);
        let y = [y0, y1, y2, y3];
        proof {
            let states = seq![s0, s1, s2, s3, *self];
            assert(x@.len() == 4 && y@.len() == 4);
            assert(spans(states, x@.len(), s0, *self));
        }
        y
    }

    /// Two calls of the four-wide form, both on the first four lanes of `x`:
    /// the last four are not read.
    fn process_simd_8(&mut self, x: [T; 8]) -> (y: [T; 8]) {
        let x0 = [x[0], x[1], x[2], x[3]];
        let x1 = [x[0], x[1], x[2], x[3]];
        let y0 = self.process_simd_4(x0);
        let ghost mid = *self;
        let y1 = self.process_simd_4(x1);
        let y = [y0[0], y0[1], y0[2], y0[3], y1[0], y1[1], y1[2], y1[3]];
        proof {
            assert(x0@ =~= low_half(x));
            assert(x1 =~= x0);
            assert(y0@ =~= low_half(y));
            assert(y1@ =~= high_half(y));
            let wf = |s: Self| s.wf();
            let steps_4 = |s: Self, a: [T; 4], n: Self, b: [T; 4]| s.steps_4(a, n, b);
            assert(wf(mid));
            assert(steps_4(*old(self), x0, mid, y0));
            assert(steps_4(mid, x0, *self, y1));
        }
        y
    }
}

} // verus!
