//! Chart point thinning: which indices of a long series a chart keeps.

use vstd::prelude::*;

verus! {

/// The indices kept when thinning `len` points to about `target`: all of
/// them when they fit, else the floor of every `k * len / target` for
/// `k < target` (the striding positions), then the last index.
pub open spec fn stride_indices(len: nat, target: nat) -> Seq<int> {
    let t = if target == 0 { 1 } else { target };
    if len == 0 {
        Seq::empty()
    } else if len <= t {
        Seq::new(len, |i: int| i)
    } else {
        Seq::new(t, |k: int| (k * len as int) / t as int).push(len - 1)
    }
}

proof fn lemma_stride_step(k: int, len: int, t: int)
    requires
        0 <= k,
        0 < t < len,
    ensures
        (k * len) / t + 1 <= ((k + 1) * len) / t,
        0 <= (k * len) / t,
{
    assert((k + 1) * len == k * len + len) by (nonlinear_arith);
    assert(k * len >= 0) by (nonlinear_arith)
        requires 0 <= k, 0 < len;
    assert((k * len + t) / t == (k * len) / t + 1) by (nonlinear_arith)
        requires 0 < t, k * len >= 0;
    assert((k * len + t) / t <= (k * len + len) / t) by (nonlinear_arith)
        requires 0 < t < len, k * len >= 0;
    assert(0 <= (k * len) / t) by (nonlinear_arith)
        requires 0 < t, k * len >= 0;
}

proof fn lemma_stride_monotone(i: int, j: int, len: int, t: int)
    requires
        0 <= i < j,
        0 < t < len,
    ensures
        (i * len) / t < (j * len) / t,
    decreases j - i,
{
    lemma_stride_step(j - 1, len, t);
    if i < j - 1 {
        lemma_stride_monotone(i, j - 1, len, t);
    }
}

proof fn lemma_stride_below(k: int, len: int, t: int)
    requires
        0 <= k < t,
        0 < t < len,
    ensures
        (k * len) / t <= len - 2,
{
    lemma_stride_monotone(k, t, len, t);
    assert((t * len) / t == len) by (nonlinear_arith)
        requires 0 < t;
    if k < t - 1 {
        lemma_stride_monotone(k, t - 1, len, t);
    }
    assert(((t - 1) * len) / t <= len - 2) by (nonlinear_arith)
        requires 0 < t < len;
}

/// Downsample `len` points to at most `target` (at least one) by striding,
/// returning the kept indices in increasing order; the first and last index
/// are always kept when `len > 0`.
pub fn downsample_stride(len: usize, target: usize) -> (r: Vec<usize>)
    ensures
        r@.len() == stride_indices(len as nat, target as nat).len(),
        forall|i: int| 0 <= i < r@.len() ==> r@[i] as int == #[trigger] stride_indices(len as nat, target as nat)[i],
        len > 0 ==> r@.len() > 0 && r@[0] == 0 && r@[r@.len() - 1] == len - 1,
        r@.len() <= (if target == 0 { 1 } else { target as int }) + 1,
        forall|i: int, j: int| 0 <= i < j < r@.len() ==> r@[i] < r@[j],
{
    let ghost spec = stride_indices(len as nat, target as nat);
    let mut out: Vec<usize> = Vec::new();
    if len == 0 {
        return out;
    }
    let t = if target == 0 { 1 } else { target };
    if len <= t {
        let mut i: usize = 0;
        while i < len
            invariant
                i <= len,
                0 < len <= t,
                t == (if target == 0 { 1 } else { target }),
                spec == stride_indices(len as nat, target as nat),
                out@.len() == i,
                forall|m: int| 0 <= m < i ==> out@[m] == m,
            decreases len - i,
        {
            out.push(i);
            i = i + 1;
        }
        return out;
    }
    let mut k: usize = 0;
    while k < t
        invariant
            k <= t < len,
            t == (if target == 0 { 1 } else { target }),
            spec == stride_indices(len as nat, target as nat),
            out@.len() == k,
            forall|m: int| 0 <= m < k ==> out@[m] as int == (m * len as int) / t as int,
        decreases t - k,
    {
        proof {
            lemma_stride_below(k as int, len as int, t as int);
            lemma_stride_step(k as int, len as int, t as int);
            assert((k as u128) * (len as u128) == (k as int) * (len as int)) by (nonlinear_arith)
                requires k < t < len, len <= usize::MAX;
            assert((k as int) * (len as int) <= u128::MAX) by (nonlinear_arith)
                requires k < t < len, len <= usize::MAX;
        }
        let idx = ((k as u128) * (len as u128) / (t as u128)) as usize;
        out.push(idx);
        k = k + 1;
    }
    out.push(len - 1);
    proof {
        assert forall|i: int| 0 <= i < out@.len() implies out@[i] as int == #[trigger] spec[i] by {}
        assert forall|i: int, j: int| 0 <= i < j < out@.len() implies out@[i] < out@[j] by {
            if j < t {
                lemma_stride_monotone(i, j, len as int, t as int);
            } else {
                lemma_stride_below(i, len as int, t as int);
            }
        }
        assert(out@[0] as int == (0 * len as int) / t as int);
    }
    out
}

} // verus!
