//! Finite impulse response sums over a delay line.
//!
//! The library does no arithmetic on samples. The caller hands it a
//! multiply-accumulate `mac`, where `mac(acc, tap, coeff)` stands for
//! `acc + tap * coeff`, and the filters say in which order which tap meets
//! which coefficient. What a sum comes to is then stated through what `mac`
//! itself ensures, step by step.

use crate::dsp::ring_buffer::DelayLine;
use vstd::prelude::*;

verus! {

/// The multiply-accumulate accepts every input.
pub open spec fn total_mac<T, K: Fn(T, T, T) -> T>(mac: K) -> bool {
    forall|acc: T, tap: T, coeff: T| call_requires(mac, (acc, tap, coeff))
}

/// The gain accepts every input.
pub open spec fn total_gain<T, G: Fn(T) -> T>(gain: G) -> bool {
    forall|a: T| call_requires(gain, (a,))
}

/// One of the two polyphase branches of a filter table: every second
/// coefficient, from the first (`k == 0`) or from the second (`k == 1`).
pub open spec fn phase<T>(table: Seq<T>, k: int) -> Seq<T> {
    Seq::new((table.len() / 2) as nat, |i: int| table[2 * i + k])
}

/// `trace` holds the accumulator of a sum over `coeffs` as it grows: it starts
/// at `zero`, and each coefficient in turn, with the tap of the same index,
/// takes it one step further through `mac`.
pub open spec fn accumulates<T, K: Fn(T, T, T) -> T>(
    mac: K,
    zero: T,
    taps: Seq<T>,
    coeffs: Seq<T>,
    trace: Seq<T>,
) -> bool {
    &&& trace.len() == coeffs.len() + 1
    &&& trace[0] == zero
    &&& forall|i: int|
        #![trigger coeffs[i]]
        0 <= i < coeffs.len() ==> call_ensures(mac, (trace[i], taps[i], coeffs[i]), trace[i + 1])
}

/// `acc` is what the sum of `taps[i] * coeffs[i]` over all of `coeffs` may come
/// to, accumulated from `zero` in the order of the indices.
pub open spec fn fir_sum<T, K: Fn(T, T, T) -> T>(
    mac: K,
    zero: T,
    taps: Seq<T>,
    coeffs: Seq<T>,
    acc: T,
) -> bool {
    exists|trace: Seq<T>| #[trigger]
        accumulates(mac, zero, taps, coeffs, trace) && trace[coeffs.len() as int] == acc
}

/// `mac` gives one result for one input.
pub open spec fn functional<T, K: Fn(T, T, T) -> T>(mac: K) -> bool {
    forall|acc: T, tap: T, coeff: T, r1: T, r2: T|
        #![trigger call_ensures(mac, (acc, tap, coeff), r1), call_ensures(mac, (acc, tap, coeff), r2)]
        call_ensures(mac, (acc, tap, coeff), r1) && call_ensures(mac, (acc, tap, coeff), r2) ==> r1
            == r2
}

/// Two accumulations of the same sum go through the same values.
proof fn lemma_traces_agree<T, K: Fn(T, T, T) -> T>(
    mac: K,
    zero: T,
    taps: Seq<T>,
    coeffs: Seq<T>,
    one: Seq<T>,
    other: Seq<T>,
    i: int,
)
    requires
        functional(mac),
        accumulates(mac, zero, taps, coeffs, one),
        accumulates(mac, zero, taps, coeffs, other),
        0 <= i <= coeffs.len(),
    ensures
        one[i] == other[i],
    decreases i,
{
    if i > 0 {
        lemma_traces_agree(mac, zero, taps, coeffs, one, other, i - 1);
        let c = coeffs[i - 1];
        assert(call_ensures(mac, (one[i - 1], taps[i - 1], c), one[i]));
        assert(call_ensures(mac, (other[i - 1], taps[i - 1], c), other[i]));
    }
}

/// Determinism: where `mac` gives one result for one input, a sum comes to
/// one value and no other.
pub proof fn lemma_fir_sum_is_unique<T, K: Fn(T, T, T) -> T>(
    mac: K,
    zero: T,
    taps: Seq<T>,
    coeffs: Seq<T>,
    a: T,
    b: T,
)
    requires
        functional(mac),
        fir_sum(mac, zero, taps, coeffs, a),
        fir_sum(mac, zero, taps, coeffs, b),
    ensures
        a == b,
{
    let one = choose|trace: Seq<T>| #[trigger]
        accumulates(mac, zero, taps, coeffs, trace) && trace[coeffs.len() as int] == a;
    let other = choose|trace: Seq<T>| #[trigger]
        accumulates(mac, zero, taps, coeffs, trace) && trace[coeffs.len() as int] == b;
    lemma_traces_agree(mac, zero, taps, coeffs, one, other, coeffs.len() as int);
}

/// Locality: a sum reads no further back than its table is long. Two lines
/// that agree on as many of their newest samples as there are coefficients
/// give the same sums.
pub proof fn lemma_fir_reads_a_prefix<T, K: Fn(T, T, T) -> T>(
    mac: K,
    zero: T,
    taps: Seq<T>,
    other: Seq<T>,
    coeffs: Seq<T>,
    acc: T,
)
    requires
        forall|i: int| 0 <= i < coeffs.len() ==> taps[i] == other[i],
    ensures
        fir_sum(mac, zero, taps, coeffs, acc) == fir_sum(mac, zero, other, coeffs, acc),
{
    assert forall|trace: Seq<T>|
        accumulates(mac, zero, taps, coeffs, trace) == accumulates(
            mac,
            zero,
            other,
            coeffs,
            trace,
        ) by {}
    if fir_sum(mac, zero, taps, coeffs, acc) {
        let trace = choose|trace: Seq<T>| #[trigger]
            accumulates(mac, zero, taps, coeffs, trace) && trace[coeffs.len() as int] == acc;
        assert(accumulates(mac, zero, other, coeffs, trace));
    }
    if fir_sum(mac, zero, other, coeffs, acc) {
        let trace = choose|trace: Seq<T>| #[trigger]
            accumulates(mac, zero, other, coeffs, trace) && trace[coeffs.len() as int] == acc;
        assert(accumulates(mac, zero, taps, coeffs, trace));
    }
}

/// The samples of `history` at twice their rate, with `zero` between them,
/// newest first. With `k == 0` the newest sample of `history` has just come
/// in; with `k == 1` the zero after it has.
pub open spec fn stuffed<T>(history: Seq<T>, zero: T, k: int) -> Seq<T> {
    Seq::new(
        2 * history.len(),
        |j: int|
            if j % 2 == k {
                history[j / 2]
            } else {
                zero
            },
    )
}

/// A tap that is `zero` leaves a sum as it is.
pub open spec fn absorbs<T, K: Fn(T, T, T) -> T>(mac: K, zero: T) -> bool {
    forall|acc: T, coeff: T, r: T| #[trigger] call_ensures(mac, (acc, zero, coeff), r) <==> r == acc
}

/// The polyphase identity. Where a zero tap leaves a sum as it is, the sum
/// over one branch of a table is the sum over the whole table of the line at
/// twice its rate, with zeros between its samples: the branches do the same
/// work and skip the zeros.
pub proof fn lemma_polyphase<T, K: Fn(T, T, T) -> T>(
    mac: K,
    zero: T,
    history: Seq<T>,
    table: Seq<T>,
    k: int,
    acc: T,
)
    requires
        0 <= k < 2,
        table.len() % 2 == 0,
        table.len() / 2 <= history.len(),
        absorbs(mac, zero),
    ensures
        fir_sum(mac, zero, history, phase(table, k), acc) == fir_sum(
            mac,
            zero,
            stuffed(history, zero, k),
            table,
            acc,
        ),
{
    let n = (table.len() / 2) as int;
    let branch = phase(table, k);
    let line = stuffed(history, zero, k);
    if fir_sum(mac, zero, history, branch, acc) {
        let short = choose|trace: Seq<T>| #[trigger]
            accumulates(mac, zero, history, branch, trace) && trace[branch.len() as int] == acc;
        let long = Seq::new(
            (2 * n + 1) as nat,
            |j: int|
                if k == 0 {
                    short[(j + 1) / 2]
                } else {
                    short[j / 2]
                },
        );
        assert forall|j: int| #![trigger table[j]] 0 <= j < table.len() implies call_ensures(
            mac,
            (long[j], line[j], table[j]),
            long[j + 1],
        ) by {
            let i = j / 2;
            if j % 2 == k {
                assert(short[i] == short[i]);
                assert(branch[i] == table[j]);
                assert(call_ensures(mac, (short[i], history[i], branch[i]), short[i + 1]));
            } else {
                assert(long[j + 1] == long[j]);
            }
        }
        assert(accumulates(mac, zero, line, table, long));
    }
    if fir_sum(mac, zero, line, table, acc) {
        let long = choose|trace: Seq<T>| #[trigger]
            accumulates(mac, zero, line, table, trace) && trace[table.len() as int] == acc;
        let short = Seq::new((n + 1) as nat, |i: int| long[2 * i]);
        assert forall|i: int| #![trigger branch[i]] 0 <= i < branch.len() implies call_ensures(
            mac,
            (short[i], history[i], branch[i]),
            short[i + 1],
        ) by {
            let a = long[2 * i];
            let b = long[2 * i + 1];
            let c = long[2 * i + 2];
            assert(call_ensures(mac, (a, line[2 * i], table[2 * i]), b));
            assert(call_ensures(mac, (b, line[2 * i + 1], table[2 * i + 1]), c));
            if k == 0 {
                assert(line[2 * i + 1] == zero);
                assert(c == b);
            } else {
                assert(line[2 * i] == zero);
                assert(b == a);
            }
        }
        assert(accumulates(mac, zero, history, branch, short));
    }
}

/// The sum of each tap of `line` times the coefficient of the same index, over
/// the whole `table`.
pub fn fir<T: Copy, D: DelayLine<T>, K: Fn(T, T, T) -> T>(
    line: &D,
    table: &Vec<T>,
    zero: T,
    mac: &K,
) -> (acc: T)
    requires
        line.wf(),
        table@.len() <= line.history().len(),
        total_mac(*mac),
    ensures
        fir_sum(*mac, zero, line.history(), table@, acc),
{
    let n = table.len();
    let mut a = zero;
    let mut i: usize = 0;
    let ghost mut trace: Seq<T> = seq![zero];
    while i < n
        invariant
            line.wf(),
            n == table@.len(),
            n <= line.history().len(),
            total_mac(*mac),
            i <= n,
            trace.len() == i + 1,
            trace[0] == zero,
            trace[i as int] == a,
            forall|j: int|
                #![trigger table@[j]]
                0 <= j < i ==> call_ensures(
                    *mac,
                    (trace[j], line.history()[j], table@[j]),
                    trace[j + 1],
                ),
        decreases n - i,
    {
        let coeff = table[i];
        a = mac(a, line.tap(i), coeff);
        proof {
            trace = trace.push(a);
        }
        i += 1;
    }
    proof {
        assert(accumulates(*mac, zero, line.history(), table@, trace));
    }
    a
}

/// The sum of each tap of `line` times the coefficient of branch `k` of the
/// same index, over that branch of `table`.
pub fn polyphase_fir<T: Copy, D: DelayLine<T>, K: Fn(T, T, T) -> T>(
    line: &D,
    table: &Vec<T>,
    k: usize,
    zero: T,
    mac: &K,
) -> (acc: T)
    requires
        line.wf(),
        k < 2,
        table@.len() / 2 <= line.history().len(),
        total_mac(*mac),
    ensures
        fir_sum(*mac, zero, line.history(), phase(table@, k as int), acc),
{
    let len = table.len();
    let n = len / 2;
    let mut a = zero;
    let mut i: usize = 0;
    let ghost mut trace: Seq<T> = seq![zero];
    let ghost coeffs = phase(table@, k as int);
    while i < n
        invariant
            line.wf(),
            k < 2,
            len == table@.len(),
            n == len / 2,
            n <= line.history().len(),
            coeffs == phase(table@, k as int),
            total_mac(*mac),
            i <= n,
            trace.len() == i + 1,
            trace[0] == zero,
            trace[i as int] == a,
            forall|j: int|
                #![trigger coeffs[j]]
                0 <= j < i ==> call_ensures(
                    *mac,
                    (trace[j], line.history()[j], coeffs[j]),
                    trace[j + 1],
                ),
        decreases n - i,
    {
        let coeff = table[k + i * 2];
        a = mac(a, line.tap(i), coeff);
        proof {
            trace = trace.push(a);
        }
        i += 1;
    }
    proof {
        assert(accumulates(*mac, zero, line.history(), coeffs, trace));
    }
    a
}

} // verus!
