//! Fixed-capacity circular delay lines.
//!
//! A delay line is read by delay: `tap(0)` is the sample written last, `tap(1)`
//! the one before it. Its model is the sequence of the samples it can still
//! give back, newest first.

use vstd::prelude::*;

verus! {

/// What a delay line holds once `x` has been written to it: `x` in front, every
/// other sample one step older, the oldest gone.
pub open spec fn pushed<T>(history: Seq<T>, x: T) -> Seq<T> {
    Seq::new(
        history.len(),
        |d: int|
            if d == 0 {
                x
            } else {
                history[d - 1]
            },
    )
}

/// What a delay line holds once the samples of `xs` have been written to it,
/// first to last.
pub open spec fn pushed_all<T>(history: Seq<T>, xs: Seq<T>) -> Seq<T>
    decreases xs.len(),
{
    if xs.len() == 0 {
        history
    } else {
        pushed(pushed_all(history, xs.drop_last()), xs.last())
    }
}

/// A history of `n` samples that are all `silence`.
pub open spec fn silent<T>(n: nat, silence: T) -> Seq<T> {
    Seq::new(n, |d: int| silence)
}

/// The slot of a circular buffer of `n` slots that was written `delay` writes
/// before the one at `head`.
pub open spec fn slot(n: int, head: int, delay: int) -> int {
    (n + head - delay) % n
}

/// Going back `delay` slots from `head` wraps around the end at most once.
pub proof fn lemma_slot(n: int, head: int, delay: int)
    requires
        0 <= head < n,
        0 <= delay < n,
    ensures
        slot(n, head, delay) == if delay <= head {
            head - delay
        } else {
            n + head - delay
        },
        0 <= slot(n, head, delay) < n,
{
    if delay <= head {
        vstd::arithmetic::div_mod::lemma_mod_add_multiples_vanish(head - delay, n);
        vstd::arithmetic::div_mod::lemma_small_mod((head - delay) as nat, n as nat);
    } else {
        vstd::arithmetic::div_mod::lemma_small_mod((n + head - delay) as nat, n as nat);
    }
}

/// Writing keeps the number of samples that a line holds.
pub proof fn lemma_pushed_all_len<T>(history: Seq<T>, xs: Seq<T>)
    ensures
        pushed_all(history, xs).len() == history.len(),
    decreases xs.len(),
{
    if xs.len() > 0 {
        lemma_pushed_all_len(history, xs.drop_last());
    }
}

/// After the samples of `xs` have been written, the sample at delay `d` is the
/// one written `d` writes before the last, and behind the writes stands what
/// the line held before, as far as it still fits.
pub proof fn lemma_pushed_all<T>(history: Seq<T>, xs: Seq<T>, d: int)
    requires
        0 <= d < history.len(),
    ensures
        pushed_all(history, xs)[d] == if d < xs.len() {
            xs[xs.len() - 1 - d]
        } else {
            history[d - xs.len()]
        },
    decreases xs.len(),
{
    if xs.len() > 0 {
        lemma_pushed_all_len(history, xs.drop_last());
        if d > 0 {
            lemma_pushed_all(history, xs.drop_last(), d - 1);
        }
    }
}

/// Round trip: once a line has been written to at least as often as it has
/// slots, it holds the last writes and nothing else. Delay 0 gives the sample
/// written last, the largest delay the first of the writes that still fit,
/// whatever the line held before.
pub proof fn lemma_round_trip<T>(history: Seq<T>, xs: Seq<T>)
    requires
        xs.len() >= history.len(),
    ensures
        pushed_all(history, xs).len() == history.len(),
        forall|d: int|
            0 <= d < history.len() ==> #[trigger] pushed_all(history, xs)[d] == xs[xs.len() - 1
                - d],
{
    lemma_pushed_all_len(history, xs);
    assert forall|d: int| 0 <= d < history.len() implies #[trigger] pushed_all(history, xs)[d]
        == xs[xs.len() - 1 - d] by {
        lemma_pushed_all(history, xs, d);
    }
}

/// A line that was reset gives silence at every delay.
pub proof fn lemma_silent<T>(n: nat, silence: T, d: int)
    requires
        0 <= d < n,
    ensures
        silent(n, silence).len() == n,
        silent(n, silence)[d] == silence,
{
}

/// The interface that the filters read their samples through.
pub trait DelayLine<T: Copy>: Sized {
    /// The buffer's invariant.
    spec fn wf(&self) -> bool;

    /// The samples that can be tapped, newest first.
    spec fn history(&self) -> Seq<T>;

    /// The sample that the line is filled with when it is made or reset.
    spec fn silence(&self) -> T;

    /// Writes `x` as the newest sample; the oldest is lost.
    fn push(&mut self, x: T) -> (r: &mut Self)
        requires
            old(self).wf(),
        ensures
            r.wf(),
            r.history() == pushed(old(self).history(), x),
            r.silence() == old(self).silence(),
            *final(self) == *final(r),
    ;

    /// The sample written `delay` writes before the newest.
    fn tap(&self, delay: usize) -> (r: T)
        requires
            self.wf(),
            delay < self.history().len(),
        ensures
            r == self.history()[delay as int],
    ;

    /// How many samples can be tapped.
    fn len(&self) -> (n: usize)
        requires
            self.wf(),
        ensures
            n == self.history().len(),
    ;

    /// Fills the line with silence.
    fn reset(&mut self)
        requires
            old(self).wf(),
        ensures
            final(self).wf(),
            final(self).history() == silent(old(self).history().len(), old(self).silence()),
            final(self).silence() == old(self).silence(),
    ;
}

/// A circular buffer whose capacity is chosen when it is made. Every slot can
/// be tapped.
#[derive(Debug, Clone)]
pub struct RingBuffer<T> {
    buffer: Vec<T>,
    write_head: usize,
    silence: T,
}

impl<T: Copy> RingBuffer<T> {
    /// The slots, in the order of memory.
    pub closed spec fn slots(&self) -> Seq<T> {
        self.buffer@
    }

    /// The slot that was written last.
    pub closed spec fn write_head(&self) -> nat {
        self.write_head as nat
    }

    /// A buffer of `capacity` slots, each holding `silence`.
    pub fn new(capacity: usize, silence: T) -> (r: Self)
        requires
            0 < capacity <= usize::MAX / 2,
        ensures
            r.wf(),
            r.slots() == silent(capacity as nat, silence),
            r.write_head() == 0,
            r.history() == silent(capacity as nat, silence),
            r.silence() == silence,
    {
        let mut buffer: Vec<T> = Vec::with_capacity(capacity);
        let mut i: usize = 0;
        while i < capacity
            invariant
                i <= capacity,
                buffer@.len() == i,
                forall|k: int| 0 <= k < i ==> buffer@[k] == silence,
            decreases capacity - i,
        {
            buffer.push(silence);
            i += 1;
        }
        let r = RingBuffer { buffer, write_head: 0, silence };
        proof {
            assert(r.slots() =~= silent(capacity as nat, silence));
            assert forall|d: int| 0 <= d < capacity implies r.history()[d] == silence by {
                lemma_slot(capacity as int, 0, d);
            }
            assert(r.history() =~= silent(capacity as nat, silence));
        }
        r
    }
}

impl<T: Copy> DelayLine<T> for RingBuffer<T> {
    /// There is a slot, the write head points at one, and twice the number
    /// of slots is a number that an index can hold.
    open spec fn wf(&self) -> bool {
        &&& 0 < self.slots().len() <= usize::MAX / 2
        &&& self.write_head() < self.slots().len()
    }

    /// Delay `d` reads the slot `d` behind the write head, around the end.
    open spec fn history(&self) -> Seq<T> {
        Seq::new(
            self.slots().len(),
            |d: int| self.slots()[slot(self.slots().len() as int, self.write_head() as int, d)],
        )
    }

    closed spec fn silence(&self) -> T {
        self.silence
    }

    /// Moves the write head one slot on, around the end, and writes `x` there.
    fn push(&mut self, x: T) -> (r: &mut Self)
        ensures
            r.write_head() == (old(self).write_head() as int + 1) % (old(self).slots().len() as int),
            r.slots() == old(self).slots().update(r.write_head() as int, x),
    {
        let ghost before = *self;
        self.write_head += 1;
        self.write_head %= self.buffer.len();
        self.buffer[self.write_head] = x;
        proof {
            let n = before.buffer@.len() as int;
            let h = before.write_head as int;
            let h2 = self.write_head as int;
            assert(h2 == if h + 1 < n { h + 1 } else { 0 }) by {
                if h + 1 < n {
                    vstd::arithmetic::div_mod::lemma_small_mod((h + 1) as nat, n as nat);
                } else {
                    vstd::arithmetic::div_mod::lemma_mod_self_0(n);
                }
            }
            assert forall|d: int| 0 <= d < n implies self.history()[d] == pushed(
                before.history(),
                x,
            )[d] by {
                lemma_slot(n, h2, d);
                if d > 0 {
                    lemma_slot(n, h, d - 1);
                }
            }
            assert(self.history() =~= pushed(before.history(), x));
        }
        self
    }

    fn tap(&self, delay: usize) -> (r: T) {
        proof {
            lemma_slot(self.buffer@.len() as int, self.write_head as int, delay as int);
        }
        let idx = self.buffer.len() + self.write_head - delay;
        let idx = idx % self.buffer.len();
        self.buffer[idx]
    }

    fn len(&self) -> (n: usize) {
        self.buffer.len()
    }

    /// Every slot is filled with silence, and the write head goes back to the
    /// first.
    fn reset(&mut self)
        ensures
            final(self).slots() == silent(old(self).slots().len(), old(self).silence()),
            final(self).write_head() == 0,
    {
        let n = self.buffer.len();
        let mut i: usize = 0;
        while i < n
            invariant
                i <= n,
                n == self.buffer@.len(),
                self.buffer@.len() == old(self).buffer@.len(),
                self.silence == old(self).silence,
                self.write_head == old(self).write_head,
                forall|k: int| 0 <= k < i ==> self.buffer@[k] == self.silence,
            decreases n - i,
        {
            self.buffer[i] = self.silence;
            i += 1;
        }
        self.write_head = 0;
        proof {
            assert(self.slots() =~= silent(n as nat, self.silence));
            assert forall|d: int| 0 <= d < n implies self.history()[d] == self.silence by {
                lemma_slot(n as int, 0, d);
            }
            assert(self.history() =~= silent(n as nat, self.silence));
        }
    }
}

impl<T: Copy> RingBuffer<T> {
    /// A cursor over the line's samples, newest first.
    pub fn into_iter(&self) -> (it: RingBufferIter<'_, T>)
        requires
            self.wf(),
        ensures
            it.wf(),
            it.ring_buffer() == *self,
            it.index() == 0,
    {
        RingBufferIter { ring_buffer: self, index: 0 }
    }
}

/// A cursor that walks a [`RingBuffer`] from the newest sample towards the
/// oldest. It stops one short of the oldest: a line of `n` slots gives `n - 1`
/// samples.
pub struct RingBufferIter<'a, T> {
    ring_buffer: &'a RingBuffer<T>,
    index: usize,
}

impl<'a, T: Copy> RingBufferIter<'a, T> {
    /// The line that the cursor walks.
    pub closed spec fn ring_buffer(&self) -> RingBuffer<T> {
        *self.ring_buffer
    }

    /// The delay of the sample that comes next.
    pub closed spec fn index(&self) -> nat {
        self.index as nat
    }

    /// The cursor has not yet said that it is done.
    pub open spec fn wf(&self) -> bool {
        &&& self.ring_buffer().wf()
        &&& self.index() < self.ring_buffer().history().len()
    }

    /// The next sample, or `None` when only the oldest is left. After `None`
    /// the cursor is spent and cannot be asked again.
    pub fn next(&mut self) -> (r: Option<T>)
        requires
            old(self).wf(),
        ensures
            final(self).ring_buffer() == old(self).ring_buffer(),
            final(self).index() == old(self).index() + 1,
            r == if old(self).index() + 1 < old(self).ring_buffer().history().len() {
                Some(old(self).ring_buffer().history()[old(self).index() as int])
            } else {
                None
            },
            r is Some ==> final(self).wf(),
    {
        let ret = self.ring_buffer.tap(self.index);
        self.index += 1;
        if self.index >= self.ring_buffer.len() {
            None
        } else {
            Some(ret)
        }
    }
}

/// A delay line of 255 samples in 256 slots. With a power of two for the
/// number of slots, wrapping around is a bit mask. The slot that the next
/// write will take is never tapped.
#[derive(Debug, Clone)]
pub struct SmallRingBuffer<T> {
    buffer: [T; 256],
    write_head: usize,
    silence: T,
}

impl<T: Copy> SmallRingBuffer<T> {
    /// The 256 slots, in the order of memory.
    pub closed spec fn slots(&self) -> Seq<T> {
        self.buffer@
    }

    /// The slot that was written last.
    pub closed spec fn write_head(&self) -> nat {
        self.write_head as nat
    }

    /// A line that holds `silence` at every delay.
    pub fn new(silence: T) -> (r: Self)
        ensures
            r.wf(),
            r.slots() == silent(256, silence),
            r.write_head() == 0,
            r.history() == silent(255, silence),
            r.silence() == silence,
    {
        let r = SmallRingBuffer { buffer: [silence;256], write_head: 0, silence };
        proof {
            assert(r.slots() =~= silent(256, silence));
            assert(r.history() =~= silent(255, silence));
        }
        r
    }
}

/// For an index below twice the number of slots, the mask and the remainder
/// agree.
proof fn lemma_mask(i: usize)
    requires
        i < 512,
    ensures
        i & 255 == i % 256,
        i & 255 < 256,
{
    assert(i & 255 == i % 256) by (bit_vector);
}

impl<T: Copy> DelayLine<T> for SmallRingBuffer<T> {
    /// The write head points at one of the 256 slots.
    open spec fn wf(&self) -> bool {
        &&& self.slots().len() == 256
        &&& self.write_head() < 256
    }

    /// Delay `d` reads the slot `d` behind the write head, around the end.
    /// The delay 255 would read the slot that the next write takes: it is
    /// left out.
    open spec fn history(&self) -> Seq<T> {
        Seq::new(255, |d: int| self.slots()[slot(256, self.write_head() as int, d)])
    }

    closed spec fn silence(&self) -> T {
        self.silence
    }

    /// Moves the write head one slot on, around the end, and writes `x` there.
    fn push(&mut self, x: T) -> (r: &mut Self)
        ensures
            r.write_head() == (old(self).write_head() as int + 1) % 256,
            r.slots() == old(self).slots().update(r.write_head() as int, x),
    {
        let ghost before = *self;
        self.write_head += 1;
        proof {
            lemma_mask(self.write_head);
        }
        self.write_head &= 255;
        self.buffer[self.write_head] = x;
        proof {
            assert(self.history() =~= pushed(before.history(), x));
        }
        self
    }

    fn tap(&self, delay: usize) -> (r: T) {
        let idx = 256 + self.write_head - delay;
        proof {
            lemma_mask(idx);
        }
        let idx = idx & 255;
        self.buffer[idx]
    }

    fn len(&self) -> (n: usize) {
        255
    }

    /// Every slot is filled with silence, and the write head goes back to the
    /// first.
    fn reset(&mut self)
        ensures
            final(self).slots() == silent(256, old(self).silence()),
            final(self).write_head() == 0,
    {
        let mut i: usize = 0;
        while i < 256
            invariant
                i <= 256,
                self.silence == old(self).silence,
                forall|k: int| 0 <= k < i ==> self.buffer@[k] == self.silence,
            decreases 256 - i,
        {
            self.buffer[i] = self.silence;
            i += 1;
        }
        self.write_head = 0;
        proof {
            assert(self.slots() =~= silent(256, self.silence));
            assert(self.history() =~= silent(255, self.silence));
        }
    }
}

} // verus!
