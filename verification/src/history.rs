//! Bounded time series: when a series outgrows its cap, every other sample is dropped.

use vstd::prelude::*;

verus! {

/// Most samples a decimated series keeps.
pub const HISTORY_CAP: usize = 512;

/// Every other sample of `s`, starting with the first.
pub open spec fn decimated<T>(s: Seq<T>) -> Seq<T> {
    Seq::new(((s.len() + 1) / 2) as nat, |i: int| s[2 * i])
}

/// The series after recording `value` under a cap.
pub open spec fn pushed_bounded<T>(s: Seq<T>, value: T, cap: int) -> Seq<T> {
    if s.len() + 1 > cap {
        decimated(s.push(value))
    } else {
        s.push(value)
    }
}

/// The series after recording `value`, dropping the oldest sample once `cap` is exceeded.
pub open spec fn pushed_sliding<T>(s: Seq<T>, value: T, cap: int) -> Seq<T> {
    if s.len() + 1 > cap {
        s.push(value).subrange(1, s.len() as int + 1)
    } else {
        s.push(value)
    }
}

/// A copy of a series.
pub fn copy_of<T: Copy>(series: &Vec<T>) -> (r: Vec<T>)
    ensures
        r@ == series@,
{
    let mut out: Vec<T> = Vec::new();
    let mut i: usize = 0;
    while i < series.len()
        invariant
            i <= series@.len(),
            out@ == series@.subrange(0, i as int),
        decreases series@.len() - i,
    {
        out.push(series[i]);
        assert(out@ =~= series@.subrange(0, i as int + 1));
        i += 1;
    }
    assert(out@ =~= series@);
    out
}

/// Keeps the samples at even positions.
pub fn decimate<T: Copy>(history: &mut Vec<T>)
    ensures
        final(history)@ == decimated(old(history)@),
        final(history)@.len() == (old(history)@.len() + 1) / 2,
{
    let mut kept: Vec<T> = Vec::new();
    let n: usize = history.len();
    let half: usize = n / 2 + n % 2;
    let mut k: usize = 0;
    while k < half
        invariant
            n == history@.len(),
            half == (n + 1) / 2,
            k <= half,
            kept@.len() == k,
            forall|j: int| 0 <= j < kept@.len() ==> kept@[j] == history@[2 * j],
        decreases half - k,
    {
        kept.push(history[2 * k]);
        k += 1;
    }
    assert(kept@ =~= decimated(history@));
    *history = kept;
}

/// Records a sample; a series that would exceed `cap` is decimated.
pub fn push_bounded<T: Copy>(history: &mut Vec<T>, value: T, cap: usize)
    requires
        old(history)@.len() <= cap,
        cap >= 1,
    ensures
        final(history)@ == pushed_bounded(old(history)@, value, cap as int),
        final(history)@.len() <= cap,
        final(history)@.len() >= 1,
        final(history)@[0] == old(history)@.push(value)[0],
{
    history.push(value);
    if history.len() > cap {
        decimate(history);
    }
}

/// Records a sample; the oldest one leaves once `cap` is exceeded.
pub fn push_sliding<T: Copy>(history: &mut Vec<T>, value: T, cap: usize)
    requires
        old(history)@.len() <= cap,
        cap >= 1,
    ensures
        final(history)@ == pushed_sliding(old(history)@, value, cap as int),
        final(history)@.len() <= cap,
        final(history)@.last() == value,
{
    history.push(value);
    if history.len() > cap {
        let _ = history.remove(0);
        assert(history@ =~= old(history)@.push(value).subrange(1, old(history)@.len() as int + 1));
    }
}

/// Records a sample under the standard cap.
pub fn push_history(history: &mut Vec<i64>, value: i64)
    requires
        old(history)@.len() <= HISTORY_CAP,
    ensures
        final(history)@ == pushed_bounded(old(history)@, value, HISTORY_CAP as int),
        final(history)@.len() <= HISTORY_CAP,
{
    push_bounded(history, value, HISTORY_CAP);
}

/// Decimation halves the length (rounding up) and keeps the first sample; a series
/// of odd length also keeps its last sample, so the direction from first to last
/// sample is unchanged.
pub proof fn lemma_decimation_keeps_ends<T>(s: Seq<T>)
    requires
        s.len() >= 1,
    ensures
        decimated(s).len() == (s.len() + 1) / 2,
        decimated(s)[0] == s[0],
        s.len() % 2 == 1 ==> decimated(s).last() == s.last(),
        forall|i: int| 0 <= i < decimated(s).len() ==> decimated(s)[i] == s[2 * i],
{
}

/// A full series that takes one more sample is cut to just over half the cap, and
/// the oldest and the newest sample both survive.
pub proof fn lemma_full_history_push(s: Seq<i64>, value: i64)
    requires
        s.len() == HISTORY_CAP,
    ensures
        pushed_bounded(s, value, HISTORY_CAP as int).len() == HISTORY_CAP / 2 + 1,
        pushed_bounded(s, value, HISTORY_CAP as int)[0] == s[0],
        pushed_bounded(s, value, HISTORY_CAP as int).last() == value,
{
    lemma_decimation_keeps_ends(s.push(value));
}

} // verus!
