//! The shape of mixing and resampling: which sources take part, and how
//! long the result is. The sample arithmetic itself (floating point) is done
//! by the caller following these plans.
use vstd::prelude::*;

verus! {

/// Number of non-empty sources among `lens`.
pub open spec fn non_empty_count(lens: Seq<usize>) -> nat
    decreases lens.len(),
{
    if lens.len() == 0 {
        0
    } else {
        non_empty_count(lens.drop_last()) + if lens.last() > 0 { 1nat } else { 0nat }
    }
}

/// The longest length among `lens` (0 for none).
pub open spec fn longest(lens: Seq<usize>) -> nat
    decreases lens.len(),
{
    if lens.len() == 0 {
        0
    } else {
        let rest = longest(lens.drop_last());
        if lens.last() > rest { lens.last() as nat } else { rest }
    }
}

/// How a set of sources is mixed.
#[derive(Debug, Clone, Copy, PartialEq, Eq, Structural)]
pub enum MixPlan {
    /// No non-empty source: the mix is empty.
    Empty,
    /// Exactly one non-empty source: the mix is that source, unchanged.
    Single { index: usize },
    /// Several: zero-pad to `len`, sum, divide by `sources`, then scale
    /// down by the peak if it exceeds 1.
    Average { sources: usize, len: usize },
}

/// Decides how sources of the given lengths are mixed.
pub fn mix_plan(lengths: &[usize]) -> (r: MixPlan)
    ensures
        non_empty_count(lengths@) == 0 <==> r is Empty,
        non_empty_count(lengths@) == 1 <==> r is Single,
        r matches MixPlan::Single { index } ==> index < lengths@.len() && lengths@[index as int] > 0,
        r matches MixPlan::Average { sources, len } ==> sources == non_empty_count(lengths@) && len == longest(lengths@),
{
    let mut count: usize = 0;
    let mut max: usize = 0;
    let mut first: usize = 0;
    let mut i: usize = 0;
    while i < lengths.len()
        invariant
            i <= lengths@.len(),
            count == non_empty_count(lengths@.subrange(0, i as int)),
            max == longest(lengths@.subrange(0, i as int)),
            count <= i,
            count > 0 ==> first < i && lengths@[first as int] > 0,
        decreases lengths@.len() - i,
    {
        proof {
            assert(lengths@.subrange(0, i + 1).drop_last() =~= lengths@.subrange(0, i as int));
            assert(lengths@.subrange(0, i + 1).last() == lengths@[i as int]);
        }
        if lengths[i] > 0 {
            if count == 0 {
                first = i;
            }
            count = count + 1;
        }
        if lengths[i] > max {
            max = lengths[i];
        }
        i = i + 1;
    }
    assert(lengths@.subrange(0, lengths@.len() as int) =~= lengths@);
    if count == 0 {
        MixPlan::Empty
    } else if count == 1 {
        MixPlan::Single { index: first }
    } else {
        MixPlan::Average { sources: count, len: max }
    }
}

/// Length of a buffer of `len` samples resampled from `from` to `to` Hz:
/// unchanged for equal rates or no samples, otherwise `ceil(len * to / from)`.
pub open spec fn resampled_len_of(len: nat, from: nat, to: nat) -> nat {
    if from == to || len == 0 {
        len
    } else {
        ((len * to + from - 1) as nat / from) as nat
    }
}

/// Resampling leaves the samples as they are for equal rates or an empty
/// buffer.
pub open spec fn resample_is_identity(len: nat, from: nat, to: nat) -> bool {
    from == to || len == 0
}

/// Whether resampling leaves the buffer unchanged.
pub fn resample_identity(len: usize, from_rate: u32, to_rate: u32) -> (r: bool)
    ensures
        r == resample_is_identity(len as nat, from_rate as nat, to_rate as nat),
{
    from_rate == to_rate || len == 0
}

/// The number of samples resampling produces.
pub fn resampled_len(len: usize, from_rate: u32, to_rate: u32) -> (r: usize)
    requires
        from_rate > 0,
        len as int * to_rate as int <= usize::MAX as int,
    ensures
        r as nat == resampled_len_of(len as nat, from_rate as nat, to_rate as nat),
{
    if from_rate == to_rate || len == 0 {
        return len;
    }
    let num: u128 = (len as u128) * (to_rate as u128) + (from_rate as u128) - 1;
    let q: u128 = num / (from_rate as u128);
    assert(q <= len as int * to_rate as int) by (nonlinear_arith)
        requires
            q == num / (from_rate as u128),
            num == (len as int) * (to_rate as int) + from_rate as int - 1,
            from_rate >= 1,
    ;
    q as usize
}

/// Mixing identity: no sources, or only empty ones, mix to nothing; a lone
/// non-empty source is passed through unchanged.
pub proof fn lemma_mix_identity(x: usize)
    ensures
        non_empty_count(Seq::<usize>::empty()) == 0,
        non_empty_count(seq![0usize, 0usize]) == 0,
        x > 0 ==> non_empty_count(seq![x]) == 1,
{
    let one = seq![0usize];
    let two = seq![0usize, 0usize];
    assert(non_empty_count(Seq::<usize>::empty()) == 0);
    assert(one.drop_last() =~= Seq::<usize>::empty());
    assert(one.last() == 0usize);
    assert(non_empty_count(one) == 0);
    assert(two.drop_last() =~= one);
    assert(two.last() == 0usize);
    assert(seq![x].last() == x);
    assert(seq![x].drop_last() =~= Seq::<usize>::empty());
}

/// Resample identity: equal rates, or an empty buffer, keep the samples and
/// their number.
pub proof fn lemma_resample_identity(len: nat, rate: nat, from: nat, to: nat)
    ensures
        resample_is_identity(len, rate, rate),
        resampled_len_of(len, rate, rate) == len,
        resample_is_identity(0, from, to),
        resampled_len_of(0, from, to) == 0,
{
}

} // verus!
