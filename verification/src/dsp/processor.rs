//! The interface of a single-channel processor, and two processors that do
//! nothing to the signal.
//!
//! A processor may keep state from sample to sample, and what it computes is
//! its own affair. So its behaviour is given as a relation: `steps` says which
//! state and which output may follow a state and an input. What is built from
//! processors is then stated over that relation, for every processor.

use vstd::prelude::*;

verus! {

/// `states` holds a state before each of `n` samples and one after the last:
/// it starts at `first` and ends at `last`.
pub open spec fn spans<S>(states: Seq<S>, n: nat, first: S, last: S) -> bool {
    &&& states.len() == n + 1
    &&& states[0] == first
    &&& states[n as int] == last
}

/// Some chain of states leads from `p` to `next`, each state valid, with
/// `xs[i]` met and `ys[i]` given between one state and the next. Here `wf` and
/// `steps` are the invariant and the step relation of the states.
pub open spec fn chain<S, T>(
    wf: spec_fn(S) -> bool,
    steps: spec_fn(S, T, S, T) -> bool,
    p: S,
    xs: Seq<T>,
    next: S,
    ys: Seq<T>,
) -> bool {
    &&& ys.len() == xs.len()
    &&& exists|states: Seq<S>|
        {
            &&& #[trigger] spans(states, xs.len(), p, next)
            &&& forall|i: int| 0 <= i <= xs.len() ==> wf(#[trigger] states[i])
            &&& forall|i: int|
                #![trigger xs[i]]
                0 <= i < xs.len() ==> steps(states[i], xs[i], states[i + 1], ys[i])
        }
}

/// A processor of one channel of samples of type `T`.
///
/// The six relations say what the processor may do. One that is not given
/// holds of everything: a processor that says nothing of itself is held to
/// nothing.
pub trait MonoProcessor<T: Copy>: Sized {
    /// The processor's invariant.
    open spec fn wf(&self) -> bool {
        true
    }

    /// From state `self`, the input `x` may give the output `y` and leave the
    /// state `next`.
    open spec fn steps(&self, x: T, next: Self, y: T) -> bool {
        true
    }

    /// The same for four consecutive samples handled at once.
    open spec fn steps_4(&self, x: [T; 4], next: Self, y: [T; 4]) -> bool {
        true
    }

    /// The same for eight samples handled at once.
    open spec fn steps_8(&self, x: [T; 8], next: Self, y: [T; 8]) -> bool {
        true
    }

    /// A reset may turn state `self` into `next`.
    open spec fn resets(&self, next: Self) -> bool {
        true
    }

    /// Initializing may turn state `self` into `next`.
    open spec fn initializes(&self, next: Self) -> bool {
        true
    }

    /// Processes a single sample.
    fn step(&mut self, x: T) -> (y: T)
        requires
            old(self).wf(),
        ensures
            final(self).wf(),
            old(self).steps(x, *final(self), y),
    ;

    /// Clears buffers and envelopes.
    fn reset(&mut self)
        requires
            old(self).wf(),
        ensures
            final(self).wf(),
            old(self).resets(*final(self)),
    ;

    /// Runs the expensive calculations that a change of configuration calls
    /// for.
    fn initialize(&mut self)
        requires
            old(self).wf(),
        ensures
            final(self).wf(),
            old(self).initializes(*final(self)),
    ;

    /// Replaces each sample of `buffer` by the processor's output for it,
    /// first to last.
    fn process(&mut self, buffer: &mut [T])
        requires
            old(self).wf(),
        ensures
            final(self).wf(),
            chain(
                |s: Self| s.wf(),
                |s: Self, a: T, n: Self, b: T| s.steps(a, n, b),
                *old(self),
                old(buffer)@,
                *final(self),
                final(buffer)@,
            ),
    {
        let n = buffer.len();
        let mut i: usize = 0;
        let ghost mut states: Seq<Self> = seq![*self];
        while i < n
            invariant
                i <= n,
                n == buffer@.len(),
                buffer@.len() == old(buffer)@.len(),
                self.wf(),
                states.len() == i + 1,
                states[0] == *old(self),
                states[i as int] == *self,
                forall|k: int| 0 <= k <= i ==> (#[trigger] states[k]).wf(),
                forall|k: int|
                    #![trigger old(buffer)@[k]]
                    0 <= k < i ==> states[k].steps(old(buffer)@[k], states[k + 1], buffer@[k]),
                forall|k: int| i <= k < n ==> buffer@[k] == old(buffer)@[k],
            decreases n - i,
        {
            let y = self.step(buffer[i]);
            buffer[i] = y;
            proof {
                states = states.push(*self);
            }
            i += 1;
        }
        proof {
            assert(spans(states, old(buffer)@.len(), *old(self), *self));
        }
    }

    /// Processes four consecutive samples at once.
    fn process_simd_4(&mut self, x: [T; 4]) -> (y: [T; 4])
        requires
            old(self).wf(),
        ensures
            final(self).wf(),
            old(self).steps_4(x, *final(self), y),
    ;

    /// Processes eight samples at once.
    fn process_simd_8(&mut self, x: [T; 8]) -> (y: [T; 8])
        requires
            old(self).wf(),
        ensures
            final(self).wf(),
            old(self).steps_8(x, *final(self), y),
    ;
}

/// Stepping `p` through `xs`, first to last, may give the outputs `ys` and
/// leave the processor as `next`.
pub open spec fn runs<T: Copy, P: MonoProcessor<T>>(p: P, xs: Seq<T>, next: P, ys: Seq<T>) -> bool {
    chain(|s: P| s.wf(), |s: P, a: T, n: P, b: T| s.steps(a, n, b), p, xs, next, ys)
}

/// Four samples at once for a processor without a form of its own for it: the
/// four are stepped through one after the other.
pub fn sequential_4<T: Copy, P: MonoProcessor<T>>(p: &mut P, x: [T; 4]) -> (y: [T; 4])
    requires
        old(p).wf(),
    ensures
        final(p).wf(),
        runs(*old(p), x@, *final(p), y@),
{
    let ghost s0 = *p;
    let y0 = p.step(x[0]);
    let ghost s1 = *p;
    let y1 = p.step(x[1]);
    let ghost s2 = *p;
    let y2 = p.step(x[2]);
    let ghost s3 = *p;
    let y3 = p.step(x[3]);
    let y = [y0, y1, y2, y3];
    proof {
        let states = seq![s0, s1, s2, s3, *p];
        assert(x@.len() == 4 && y@.len() == 4);
        assert(spans(states, x@.len(), s0, *p));
    }
    y
}

/// The first four lanes of eight.
pub open spec fn low_half<T>(x: [T; 8]) -> Seq<T> {
    x@.subrange(0, 4)
}

/// The last four lanes of eight.
pub open spec fn high_half<T>(x: [T; 8]) -> Seq<T> {
    x@.subrange(4, 8)
}

/// The first four lanes of `x` go through a four-wide form twice, and the two
/// results stand side by side in `y`. Here `wf` and `steps_4` are the invariant
/// and the four-wide relation of the states.
pub open spec fn pair_of_fours<S, T>(
    wf: spec_fn(S) -> bool,
    steps_4: spec_fn(S, [T; 4], S, [T; 4]) -> bool,
    p: S,
    x: [T; 8],
    next: S,
    y: [T; 8],
) -> bool {
    exists|mid: S, x0: [T; 4], y0: [T; 4], y1: [T; 4]|
        {
            &&& x0@ == low_half(x)
            &&& y0@ == low_half(y)
            &&& y1@ == high_half(y)
            &&& wf(mid)
            &&& #[trigger] steps_4(p, x0, mid, y0)
            &&& #[trigger] steps_4(mid, x0, next, y1)
        }
}

/// What [`paired_8`] may do to `p`.
pub open spec fn pairs_8<T: Copy, P: MonoProcessor<T>>(p: P, x: [T; 8], next: P, y: [T; 8]) -> bool {
    pair_of_fours(
        |s: P| s.wf(),
        |s: P, a: [T; 4], n: P, b: [T; 4]| s.steps_4(a, n, b),
        p,
        x,
        next,
        y,
    )
}

/// Eight samples at once for a processor without a form of its own for it, by
/// two calls of its four-wide form. Both calls are given the first four lanes
/// of `x`: the last four are not read.
pub fn paired_8<T: Copy, P: MonoProcessor<T>>(p: &mut P, x: [T; 8]) -> (y: [T; 8])
    requires
        old(p).wf(),
    ensures
        final(p).wf(),
        pairs_8(*old(p), x, *final(p), y),
{
    let x0 = [x[0], x[1], x[2], x[3]];
    let x1 = [x[0], x[1], x[2], x[3]];
    let y0 = p.process_simd_4(x0);
    let ghost mid = *p;
    let y1 = p.process_simd_4(x1);
    let y = [y0[0], y0[1], y0[2], y0[3], y1[0], y1[1], y1[2], y1[3]];
    proof {
        assert(x0@ =~= low_half(x));
        assert(x1 =~= x0);
        assert(y0@ =~= low_half(y));
        assert(y1@ =~= high_half(y));
        let wf = |s: P| s.wf();
        let steps_4 = |s: P, a: [T; 4], n: P, b: [T; 4]| s.steps_4(a, n, b);
        assert(wf(mid));
        assert(steps_4(*old(p), x0, mid, y0));
        assert(steps_4(mid, x0, *p, y1));
    }
    y
}

/// Gives the sample it holds for every input: silence, where that sample is
/// zero. A placeholder in composite processors.
pub struct NullProcessor<T>(pub T);

impl<T: Copy> MonoProcessor<T> for NullProcessor<T> {
    open spec fn wf(&self) -> bool {
        true
    }

    open spec fn steps(&self, x: T, next: Self, y: T) -> bool {
        y == self.0 && next == *self
    }

    open spec fn steps_4(&self, x: [T; 4], next: Self, y: [T; 4]) -> bool {
        y@ == Seq::new(4, |i: int| self.0) && next == *self
    }

    open spec fn steps_8(&self, x: [T; 8], next: Self, y: [T; 8]) -> bool {
        y@ == Seq::new(8, |i: int| self.0) && next == *self
    }

    open spec fn resets(&self, next: Self) -> bool {
        next == *self
    }

    open spec fn initializes(&self, next: Self) -> bool {
        next == *self
    }

    fn step(&mut self, _x: T) -> (y: T) {
        self.0
    }

    fn process_simd_4(&mut self, _x: [T; 4]) -> (y: [T; 4]) {
        let y = [self.0;4];
        assert(y@ =~= Seq::new(4, |i: int| self.0));
        y
    }

    fn process_simd_8(&mut self, _x: [T; 8]) -> (y: [T; 8]) {
        let y = [self.0;8];
        assert(y@ =~= Seq::new(8, |i: int| self.0));
        y
    }

    fn reset(&mut self) {
    }

    fn initialize(&mut self) {
    }
}

/// Gives every input back unchanged. A placeholder in composite processors.
pub struct IdentityProcessor();

impl<T: Copy> MonoProcessor<T> for IdentityProcessor {
    open spec fn wf(&self) -> bool {
        true
    }

    open spec fn steps(&self, x: T, next: Self, y: T) -> bool {
        y == x && next == *self
    }

    open spec fn steps_4(&self, x: [T; 4], next: Self, y: [T; 4]) -> bool {
        y == x && next == *self
    }

    open spec fn steps_8(&self, x: [T; 8], next: Self, y: [T; 8]) -> bool {
        y == x && next == *self
    }

    open spec fn resets(&self, next: Self) -> bool {
        next == *self
    }

    open spec fn initializes(&self, next: Self) -> bool {
        next == *self
    }

    fn step(&mut self, x: T) -> (y: T) {
        x
    }

    fn process_simd_4(&mut self, x: [T; 4]) -> (y: [T; 4]) {
        x
    }

    fn process_simd_8(&mut self, x: [T; 8]) -> (y: [T; 8]) {
        x
    }

    fn reset(&mut self) {
    }

    fn initialize(&mut self) {
    }
}

} // verus!
