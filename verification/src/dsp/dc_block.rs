//! A one-pole filter that removes the constant part of a signal.

use crate::dsp::fir::total_mac;
use crate::dsp::processor::{chain, high_half, low_half, pair_of_fours, spans, MonoProcessor};
use vstd::prelude::*;

verus! {

/// The difference accepts every input.
pub open spec fn total_sub<T, S: Fn(T, T) -> T>(sub: S) -> bool {
    forall|a: T, b: T| call_requires(sub, (a, b))
}

/// The filter `y[n] = x[n] - x[n-1] + r * y[n-1]`, where `r` is a little less
/// than one. It keeps the last input and the last output.
///
/// The arithmetic is the caller's: `sub(a, b)` stands for `a - b`, and
/// `mac(acc, tap, coeff)` for `acc + tap * coeff`.
#[derive(Clone)]
pub struct DCBlock<T, S, K> {
    x_z1: T,
    y_z1: T,
    zero: T,
    feedback: T,
    sub: S,
    mac: K,
}

impl<T: Copy, S: Fn(T, T) -> T, K: Fn(T, T, T) -> T> DCBlock<T, S, K> {
    /// The input of the step before.
    pub closed spec fn x_z1(&self) -> T {
        self.x_z1
    }

    /// The output of the step before.
    pub closed spec fn y_z1(&self) -> T {
        self.y_z1
    }

    /// What both registers hold when the filter is at rest.
    pub closed spec fn zero(&self) -> T {
        self.zero
    }

    /// The coefficient `r` of the last output.
    pub closed spec fn feedback(&self) -> T {
        self.feedback
    }

    /// The difference that the filter computes with.
    pub closed spec fn sub(&self) -> S {
        self.sub
    }

    /// The multiply-accumulate that the filter computes with.
    pub closed spec fn mac(&self) -> K {
        self.mac
    }

    /// `next` has the coefficient, the zero and the arithmetic of `self`.
    pub open spec fn same_filter(&self, next: Self) -> bool {
        &&& next.zero() == self.zero()
        &&& next.feedback() == self.feedback()
        &&& next.sub() == self.sub()
        &&& next.mac() == self.mac()
    }

    /// A filter at rest.
    pub fn new(zero: T, feedback: T, sub: S, mac: K) -> (r: Self)
        requires
            total_sub(sub),
            total_mac(mac),
        ensures
            r.wf(),
            r.x_z1() == zero,
            r.y_z1() == zero,
            r.zero() == zero,
            r.feedback() == feedback,
            r.sub() == sub,
            r.mac() == mac,
    {
        DCBlock { x_z1: zero, y_z1: zero, zero, feedback, sub, mac }
    }
}

impl<T: Copy, S: Fn(T, T) -> T, K: Fn(T, T, T) -> T> MonoProcessor<T> for DCBlock<T, S, K> {
    open spec fn wf(&self) -> bool {
        &&& total_sub(self.sub())
        &&& total_mac(self.mac())
    }

    /// The output is the input less the last input, and to that the last
    /// output times the coefficient. Both are then kept for the next step.
    open spec fn steps(&self, x: T, next: Self, y: T) -> bool {
        &&& self.same_filter(next)
        &&& next.x_z1() == x
        &&& next.y_z1() == y
        &&& exists|d: T| #[trigger]
            call_ensures(self.sub(), (x, self.x_z1()), d) && call_ensures(
                self.mac(),
                (d, self.y_z1(), self.feedback()),
                y,
            )
    }

    open spec fn steps_4(&self, x: [T; 4], next: Self, y: [T; 4]) -> bool {
        chain(
            |s: Self| s.wf(),
            |s: Self, a: T, n: Self, b: T| s.steps(a, n, b),
            *self,
            x@,
            next,
            y@,
        )
    }

    open spec fn steps_8(&self, x: [T; 8], next: Self, y: [T; 8]) -> bool {
        pair_of_fours(
            |s: Self| s.wf(),
            |s: Self, a: [T; 4], n: Self, b: [T; 4]| s.steps_4(a, n, b),
            *self,
            x,
            next,
            y,
        )
    }

    open spec fn resets(&self, next: Self) -> bool {
        &&& self.same_filter(next)
        &&& next.x_z1() == self.zero()
        &&& next.y_z1() == self.zero()
    }

    open spec fn initializes(&self, next: Self) -> bool {
        next == *self
    }

    fn step(&mut self, x: T) -> (y: T) {
        let d = (self.sub)(x, self.x_z1);
        let y = (self.mac)(d, self.y_z1, self.feedback);
        self.x_z1 = x;
        self.y_z1 = y;
        y
    }

    /// Both registers go back to zero.
    fn reset(&mut self) {
        self.y_z1 = self.zero;
        self.x_z1 = self.zero;
    }

    /// Nothing is computed ahead of time.
    fn initialize(&mut self) {
    }

    /// Four consecutive samples, stepped through one after the other.
    fn process_simd_4(&mut self, x: [T; 4]) -> (y: [T; 4]) {
        let ghost s0 = *self;
        let y0 = self.step(x[0]);
        let ghost s1 = *self;
        let y1 = self.step(x[1]);
        let ghost s2 = *self;
        let y2 = self.step(x[2]);
        let ghost s3 = *self;
        let y3 = self.step(x[3]);
        let y = [y0, y1, y2, y3];
        proof {
            let states = seq![s0, s1, s2, s3, *self];
            assert(x@.len() == 4 && y@.len() == 4);
            assert(spans(states, x@.len(), s0, *self));
        }
        y
    }

    /// Two calls of the four-wide form, both on the first four lanes of `x`:
    /// the last four are not read.
    fn process_simd_8(&mut self, x: [T; 8]) -> (y: [T; 8]) {
        let x0 = [x[0], x[1], x[2], x[3]];
        let x1 = [x[0], x[1], x[2], x[3]];
        let y0 = self.process_simd_4(x0);
        let ghost mid = *self;
        let y1 = self.process_simd_4(x1);
        let y = [y0[0], y0[1], y0[2], y0[3], y1[0], y1[1], y1[2], y1[3]];
        proof {
            assert(x0@ =~= low_half(x));
            assert(x1 =~= x0);
            assert(y0@ =~= low_half(y));
            assert(y1@ =~= high_half(y));
            let wf = |s: Self| s.wf();
            let steps_4 = |s: Self, a: [T; 4], n: Self, b: [T; 4]| s.steps_4(a, n, b);
            assert(wf(mid));
            assert(steps_4(*old(self), x0, mid, y0));
            assert(steps_4(mid, x0, *self, y1));
        }
        y
    }
}

} // verus!
