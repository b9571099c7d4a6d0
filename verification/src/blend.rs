//! Exact-arithmetic model of the renderer's blending rules.
//!
//! The renderer blends per-pixel light values three ways: each rasterized
//! column splits its light between two pixels by a fractional coverage, the
//! merge step folds a completed sample into a running average with weight
//! `1/(n+1)`, and the display path fades the in-progress sample in by partial
//! ray progress.  The values themselves are machine floats and live outside
//! this crate; the rules are stated here over exact rationals, a rational
//! written as an integer numerator over a nonzero integer denominator, and the
//! laws the renderer depends on are proved of them.

use vstd::prelude::*;

verus! {

/// Whether the rationals `a_num / a_den` and `b_num / b_den` are equal, by
/// cross-multiplication.
pub open spec fn rat_eq(a_num: int, a_den: int, b_num: int, b_den: int) -> bool {
    a_num * b_den == b_num * a_den
}

/// Numerator of `f * (1 - w) + s * w` where `f` and `s` are numerators over a
/// shared denominator and the weight `w` is `w_num / w_den`; the result is a
/// numerator over that shared denominator times `w_den`.
pub open spec fn blend_num(f_num: int, s_num: int, w_num: int, w_den: int) -> int {
    f_num * (w_den - w_num) + s_num * w_num
}

/// Sum of a sequence of exact pixel values.
pub open spec fn seq_sum(s: Seq<int>) -> int
    decreases s.len(),
{
    if s.len() == 0 {
        0
    } else {
        seq_sum(s.drop_last()) + s.last()
    }
}

/// The running final value after the samples of `s` are merged in order, as a
/// rational `(numerator, denominator)`.  The final buffer starts at zero, and
/// the merge of the `k`-th sample blends it with that sample at weight `1/k`,
/// exactly as the merge step does with `k - 1` samples already counted.
pub open spec fn consolidated(s: Seq<int>) -> (int, int)
    decreases s.len(),
{
    if s.len() == 0 {
        (0int, 1int)
    } else {
        let prev = consolidated(s.drop_last());
        let k = s.len() as int;
        (blend_num(prev.0, s.last() * prev.1, 1, k), prev.1 * k)
    }
}

/// Coverage pair law: wherever the stroke crosses a column at fraction
/// `f = f_num / f_den`, the two vertical coverages `(1 - f) * m` and `f * m`
/// total exactly the segment's brightness factor `m`, whatever `f` is.
pub proof fn lemma_coverage_pair_total(f_num: int, f_den: int, m_num: int, m_den: int)
    requires
        f_den != 0,
        m_den != 0,
    ensures
        rat_eq((f_den - f_num) * m_num + f_num * m_num, f_den * m_den, m_num, m_den),
{
    assert(((f_den - f_num) * m_num + f_num * m_num) * m_den == m_num * (f_den * m_den))
        by (nonlinear_arith);
}

/// Incremental mean law: merging samples one at a time, each at weight
/// `1/(count so far + 1)`, leaves the final value equal to the plain average
/// of all the samples merged.
pub proof fn lemma_consolidate_is_mean(s: Seq<int>)
    requires
        s.len() > 0,
    ensures
        consolidated(s).1 > 0,
        rat_eq(consolidated(s).0, consolidated(s).1, seq_sum(s), s.len() as int),
    decreases s.len(),
{
    let k = s.len() as int;
    let cur = consolidated(s);
    let prev = consolidated(s.drop_last());
    assert(cur.0 == prev.0 * (k - 1) + s.last() * prev.1);
    assert(cur.1 == prev.1 * k);
    if s.len() == 1 {
        assert(prev == (0int, 1int));
        assert(cur.0 == s.last()) by (nonlinear_arith)
            requires
                cur.0 == prev.0 * (k - 1) + s.last() * prev.1,
                prev == (0int, 1int),
                k == 1,
        ;
        assert(seq_sum(s.drop_last()) == 0);
        assert(seq_sum(s) == s.last());
    } else {
        lemma_consolidate_is_mean(s.drop_last());
        let prev_sum = seq_sum(s.drop_last());
        assert(cur.0 * k == (prev_sum + s.last()) * cur.1) by (nonlinear_arith)
            requires
                cur.0 == prev.0 * (k - 1) + s.last() * prev.1,
                cur.1 == prev.1 * k,
                prev.0 * (k - 1) == prev_sum * prev.1,
        ;
        assert(cur.1 > 0) by (nonlinear_arith)
            requires
                prev.1 > 0,
                k >= 2,
                cur.1 == prev.1 * k,
        ;
        assert(seq_sum(s) == prev_sum + s.last());
    }
}

/// The display weight for the in-progress sample: full weight while no sample
/// has completed, and otherwise the completed-sample merge weight
/// `1/(sample_count+1)` scaled down by ray progress
/// `ray_count / rays_per_sample`.
pub open spec fn display_weight(sample_count: int, ray_count: int, rays_per_sample: int) -> (
    int,
    int,
) {
    if sample_count == 0 {
        (1int, 1int)
    } else {
        (ray_count, rays_per_sample * (sample_count + 1))
    }
}

/// Fresh-render law: with no completed samples the display weight is full,
/// and a full-weight blend shows the scratch value alone, whatever the final
/// buffer holds.
pub proof fn lemma_display_shows_scratch_when_unsampled(
    f_num: int,
    s_num: int,
    ray_count: int,
    rays_per_sample: int,
)
    ensures
        (blend_num(
            f_num,
            s_num,
            display_weight(0, ray_count, rays_per_sample).0,
            display_weight(0, ray_count, rays_per_sample).1,
        ) == s_num),
{
    assert(blend_num(f_num, s_num, 1, 1) == s_num) by (nonlinear_arith);
}

} // verus!
