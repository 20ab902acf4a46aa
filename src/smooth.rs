//! Exponential smoothing of successive display frames.
//!
//! The smoothing coefficient alpha is a fixed-point fraction in millionths:
//! `UNIT` stands for 1, so alpha lies in `1..=UNIT`.
use vstd::prelude::*;
use crate::scale::{ints, UNIT};

verus! {

/// Alpha is a weight in `(0, 1]`.
pub open spec fn valid_alpha(alpha: int) -> bool {
    0 < alpha <= UNIT
}

/// One smoothed display value: `(1 - alpha) * prev + alpha * cur`,
/// rounded down.
pub open spec fn smooth_of(alpha: int, prev: int, cur: int) -> int {
    ((UNIT - alpha) * prev + alpha * cur) / (UNIT as int)
}

/// A smoothed frame, index by index.
pub open spec fn smooth_seq(alpha: int, prev: Seq<int>, cur: Seq<int>) -> Seq<int> {
    Seq::new(cur.len(), |i: int| smooth_of(alpha, prev[i], cur[i]))
}

/// A smoothed value lies between the previous and the current value.
proof fn lemma_smooth_between(alpha: int, prev: int, cur: int)
    requires
        valid_alpha(alpha),
        0 <= prev,
        0 <= cur,
    ensures
        0 <= smooth_of(alpha, prev, cur),
        smooth_of(alpha, prev, cur) <= prev || smooth_of(alpha, prev, cur) <= cur,
{
    let u = UNIT as int;
    let s = (u - alpha) * prev + alpha * cur;
    let m = if prev <= cur { cur } else { prev };
    assert(0 <= s <= u * m) by (nonlinear_arith)
        requires
            0 < alpha <= u,
            0 <= prev <= m,
            0 <= cur <= m,
            s == (u - alpha) * prev + alpha * cur,
    ;
    assert(s / u <= m) by (nonlinear_arith)
        requires
            0 <= s <= u * m,
            u > 0,
    ;
    assert(0 <= s / u) by (nonlinear_arith)
        requires
            0 <= s,
            u > 0,
    ;
}

/// With alpha equal to one, smoothing hands every value through unchanged.
pub proof fn lemma_full_alpha_is_identity(prev: Seq<int>, cur: Seq<int>)
    requires
        prev.len() == cur.len(),
    ensures
        smooth_seq(UNIT as int, prev, cur) == cur,
{
    assert forall|i: int| 0 <= i < cur.len() implies #[trigger] smooth_seq(
        UNIT as int,
        prev,
        cur,
    )[i] == cur[i] by {
        let u = UNIT as int;
        assert((u - u) * prev[i] + u * cur[i] == u * cur[i]) by (nonlinear_arith);
        assert((u * cur[i]) / u == cur[i]) by (nonlinear_arith)
            requires
                u > 0,
        ;
    }
    assert(smooth_seq(UNIT as int, prev, cur) =~= cur);
}

/// One smoothed display value.
pub fn smooth_value(alpha: u64, prev: u64, cur: u64) -> (r: u64)
    requires
        valid_alpha(alpha as int),
    ensures
        r == smooth_of(alpha as int, prev as int, cur as int),
{
    proof {
        lemma_smooth_between(alpha as int, prev as int, cur as int);
    }
    let u: u128 = UNIT as u128;
    let a: u128 = alpha as u128;
    assert((u - a) * (prev as u128) <= u * 0xffff_ffff_ffff_ffffu128) by (nonlinear_arith)
        requires
            a <= u,
            prev <= 0xffff_ffff_ffff_ffffu64,
    ;
    assert(a * (cur as u128) <= u * 0xffff_ffff_ffff_ffffu128) by (nonlinear_arith)
        requires
            a <= u,
            cur <= 0xffff_ffff_ffff_ffffu64,
    ;
    let s: u128 = (u - a) * (prev as u128) + a * (cur as u128);
    (s / u) as u64
}

/// Smoothing of a whole frame against the previous one, index by index.
pub fn smooth_frame(alpha: u64, prev: &Vec<u64>, cur: &Vec<u64>) -> (out: Vec<u64>)
    requires
        valid_alpha(alpha as int),
        prev@.len() == cur@.len(),
    ensures
        ints(out@) == smooth_seq(alpha as int, ints(prev@), ints(cur@)),
{
    let mut out: Vec<u64> = Vec::with_capacity(cur.len());
    let mut i: usize = 0;
    while i < cur.len()
        invariant
            valid_alpha(alpha as int),
            prev@.len() == cur@.len(),
            i <= cur@.len(),
            out@.len() == i,
            forall|j: int|
                0 <= j < i ==> out@[j] == smooth_of(
                    alpha as int,
                    prev@[j] as int,
                    cur@[j] as int,
                ),
        decreases cur@.len() - i,
    {
        out.push(smooth_value(alpha, prev[i], cur[i]));
        i += 1;
    }
    assert(ints(out@) =~= smooth_seq(alpha as int, ints(prev@), ints(cur@)));
    out
}

} // verus!
