//! Conversion from an engine reading to a display value.
//!
//! Readings and display values are fixed-point integers in millionths of a
//! unit ([`UNIT`]). Decibel readings may be negative; display values never are.
use vstd::prelude::*;

verus! {

/// Number of fixed-point steps in one unit: every real quantity of the
/// library is stored as an integer count of millionths.
pub const UNIT: i64 = 1_000_000;

/// Noise floor of the decibel display, in millionths of a decibel.
pub const DB_FLOOR: i64 = -100_000_000;

/// Ceiling of the amplitude display (128 units), in millionths.
pub const AMP_CEILING: u64 = 128_000_000;

/// Smallest reading whose amplitude display reaches the ceiling:
/// `sqrt(0.016384) * 1000 == 128`, and 0.016384 is 16384 millionths.
pub const AMP_KNEE: i64 = 16_384;

/// Square of [`AMP_CEILING`].
pub const AMP_CEILING_SQ: u64 = 16_384_000_000_000_000;

/// Factor that turns a reading in millionths into the radicand of the
/// amplitude formula: `sqrt(x / 10^6) * 1000 * 10^6 == sqrt(x * 10^12)`.
pub const RADICAND_SCALE: u64 = 1_000_000_000_000;

/// The two display units of a spectrum frame.
#[derive(PartialEq, Eq, Structural, Clone, Copy, Debug)]
pub enum ScaleMode {
    /// Clip below the noise floor, then shift into a non-negative range.
    Decibel,
    /// Square-root compression with a fixed gain and a hard ceiling.
    Amplitude,
}

/// Decibel display value of a reading `x`: zero below the noise floor,
/// otherwise the reading shifted up by the floor's magnitude.
pub open spec fn decibel_of(x: int) -> int {
    if x < DB_FLOOR {
        0
    } else {
        x - DB_FLOOR
    }
}

/// `r` is the integer square root of `n`, rounded down.
pub open spec fn is_floor_sqrt(r: int, n: int) -> bool {
    0 <= r && r * r <= n && n < (r + 1) * (r + 1)
}

/// The integer square root of `n`, rounded down (it exists and is unique
/// for every `n >= 0`: see `lemma_floor_sqrt_exists` and
/// `lemma_floor_sqrt_unique`).
pub open spec fn floor_sqrt_of(n: int) -> int {
    choose|r: int| is_floor_sqrt(r, n)
}

/// Amplitude display value of a reading `x`, in millionths:
/// `min(128, sqrt(x) * 1000)` rounded down, and zero for a reading that is
/// not positive.
pub open spec fn amplitude_of(x: int) -> int {
    if x <= 0 {
        0
    } else if x >= AMP_KNEE {
        AMP_CEILING as int
    } else {
        floor_sqrt_of(x * RADICAND_SCALE)
    }
}

/// Display value of a reading in the given mode.
pub open spec fn scaled(mode: ScaleMode, x: int) -> int {
    match mode {
        ScaleMode::Decibel => decibel_of(x),
        ScaleMode::Amplitude => amplitude_of(x),
    }
}

/// Display values of a whole frame of readings, index by index.
pub open spec fn scale_seq(mode: ScaleMode, s: Seq<i64>) -> Seq<int> {
    Seq::new(s.len(), |i: int| scaled(mode, s[i] as int))
}

/// A sequence of display values read as mathematical integers.
pub open spec fn ints(s: Seq<u64>) -> Seq<int> {
    s.map_values(|v: u64| v as int)
}

pub proof fn lemma_floor_sqrt_exists(n: nat)
    ensures
        exists|r: int| is_floor_sqrt(r, n as int),
    decreases n,
{
    if n == 0 {
        assert(is_floor_sqrt(0, 0));
    } else {
        lemma_floor_sqrt_exists((n - 1) as nat);
        let m: int = n - 1;
        let r = choose|r: int| is_floor_sqrt(r, m);
        if n < (r + 1) * (r + 1) {
            assert(is_floor_sqrt(r, n as int));
        } else {
            assert((r + 1) * (r + 1) < (r + 2) * (r + 2)) by (nonlinear_arith)
                requires
                    r >= 0,
            ;
            assert(is_floor_sqrt(r + 1, n as int));
        }
    }
}

pub proof fn lemma_floor_sqrt_unique(r1: int, r2: int, n: int)
    requires
        is_floor_sqrt(r1, n),
        is_floor_sqrt(r2, n),
    ensures
        r1 == r2,
{
    lemma_floor_sqrt_monotone_witness(r1, n, r2, n);
    lemma_floor_sqrt_monotone_witness(r2, n, r1, n);
}

proof fn lemma_floor_sqrt_monotone_witness(r1: int, n1: int, r2: int, n2: int)
    requires
        is_floor_sqrt(r1, n1),
        is_floor_sqrt(r2, n2),
        n1 <= n2,
    ensures
        r1 <= r2,
{
    if r1 > r2 {
        assert((r2 + 1) * (r2 + 1) <= r1 * r1) by (nonlinear_arith)
            requires
                0 <= r2 + 1 <= r1,
        ;
    }
}

/// The floor square root of `n` is what `floor_sqrt_of` names.
proof fn lemma_floor_sqrt_of(r: int, n: int)
    requires
        is_floor_sqrt(r, n),
    ensures
        floor_sqrt_of(n) == r,
{
    let c = floor_sqrt_of(n);
    assert(is_floor_sqrt(c, n));
    lemma_floor_sqrt_unique(c, r, n);
}

/// The floor square root of a radicand below the ceiling's square lies
/// below the ceiling.
proof fn lemma_below_knee(n: int)
    requires
        0 <= n < AMP_CEILING_SQ,
    ensures
        0 <= floor_sqrt_of(n) < AMP_CEILING,
{
    lemma_floor_sqrt_exists(n as nat);
    let r = floor_sqrt_of(n);
    if r >= AMP_CEILING {
        assert(AMP_CEILING_SQ <= r * r) by (nonlinear_arith)
            requires
                r >= AMP_CEILING,
                AMP_CEILING_SQ == AMP_CEILING * AMP_CEILING,
        ;
    }
}

/// Every display value is non-negative and fits in a `u64`; an amplitude
/// display value is at most the ceiling.
pub proof fn lemma_scaled_range(mode: ScaleMode, x: i64)
    ensures
        0 <= scaled(mode, x as int) <= u64::MAX,
        mode == ScaleMode::Amplitude ==> scaled(mode, x as int) <= AMP_CEILING,
{
    if mode == ScaleMode::Amplitude && 0 < x < AMP_KNEE {
        assert(x * RADICAND_SCALE < AMP_CEILING_SQ) by (nonlinear_arith)
            requires
                x < AMP_KNEE,
        ;
        assert(0 <= x * RADICAND_SCALE) by (nonlinear_arith)
            requires
                x > 0,
        ;
        lemma_below_knee(x * RADICAND_SCALE);
    }
}

/// Decibel scaling is non-decreasing: a larger reading never shows lower.
pub proof fn lemma_decibel_monotone(x1: int, x2: int)
    requires
        x1 <= x2,
    ensures
        decibel_of(x1) <= decibel_of(x2),
{
}

/// Amplitude scaling is non-decreasing and stays within `[0, 128]` units.
pub proof fn lemma_amplitude_monotone_bounded(x1: int, x2: int)
    requires
        x1 <= x2,
    ensures
        amplitude_of(x1) <= amplitude_of(x2),
        0 <= amplitude_of(x1) <= AMP_CEILING,
        0 <= amplitude_of(x2) <= AMP_CEILING,
{
    if 0 < x1 < AMP_KNEE {
        assert(0 <= x1 * RADICAND_SCALE < AMP_CEILING_SQ) by (nonlinear_arith)
            requires
                0 < x1 < AMP_KNEE,
        ;
        lemma_below_knee(x1 * RADICAND_SCALE);
    }
    if 0 < x2 < AMP_KNEE {
        assert(0 <= x2 * RADICAND_SCALE < AMP_CEILING_SQ) by (nonlinear_arith)
            requires
                0 < x2 < AMP_KNEE,
        ;
        lemma_below_knee(x2 * RADICAND_SCALE);
    }
    if 0 < x1 && x2 < AMP_KNEE {
        let n1 = x1 * RADICAND_SCALE;
        let n2 = x2 * RADICAND_SCALE;
        assert(n1 <= n2) by (nonlinear_arith)
            requires
                x1 <= x2,
                n1 == x1 * RADICAND_SCALE,
                n2 == x2 * RADICAND_SCALE,
        ;
        lemma_floor_sqrt_exists(n1 as nat);
        lemma_floor_sqrt_exists(n2 as nat);
        lemma_floor_sqrt_monotone_witness(floor_sqrt_of(n1), n1, floor_sqrt_of(n2), n2);
    }
}

/// Integer square root of `n`, rounded down, for radicands below the
/// square of the amplitude ceiling.
pub fn floor_sqrt(n: u64) -> (r: u64)
    requires
        n < AMP_CEILING_SQ,
    ensures
        is_floor_sqrt(r as int, n as int),
        r < AMP_CEILING,
{
    let mut lo: u64 = 0;
    let mut hi: u64 = AMP_CEILING;
    while hi - lo > 1
        invariant
            lo < hi <= AMP_CEILING,
            lo * lo <= n,
            n < hi * hi,
        decreases hi - lo,
    {
        let mid: u64 = lo + (hi - lo) / 2;
        assert(mid * mid <= AMP_CEILING_SQ) by (nonlinear_arith)
            requires
                mid <= AMP_CEILING,
                AMP_CEILING_SQ == AMP_CEILING * AMP_CEILING,
        ;
        if mid * mid <= n {
            lo = mid;
        } else {
            hi = mid;
        }
    }
    lo
}

/// Decibel scaling of one reading.
pub fn decibel_scale(x: i64) -> (y: u64)
    ensures
        y == decibel_of(x as int),
{
    if x < DB_FLOOR {
        0
    } else {
        (x as i128 - DB_FLOOR as i128) as u64
    }
}

/// Amplitude scaling of one reading.
pub fn amplitude_scale(x: i64) -> (y: u64)
    ensures
        y == amplitude_of(x as int),
        y <= AMP_CEILING,
{
    if x <= 0 {
        0
    } else if x >= AMP_KNEE {
        AMP_CEILING
    } else {
        assert(x * RADICAND_SCALE < AMP_CEILING_SQ) by (nonlinear_arith)
            requires
                0 < x < AMP_KNEE,
        ;
        let r = floor_sqrt(x as u64 * RADICAND_SCALE);
        proof {
            lemma_floor_sqrt_of(r as int, x * RADICAND_SCALE);
        }
        r
    }
}

/// Scaling of one reading in the given mode.
pub fn scale_value(mode: ScaleMode, x: i64) -> (y: u64)
    ensures
        y == scaled(mode, x as int),
{
    match mode {
        ScaleMode::Decibel => decibel_scale(x),
        ScaleMode::Amplitude => amplitude_scale(x),
    }
}

/// Scaling of a whole frame, index by index.
pub fn scale_frame(mode: ScaleMode, reading: &Vec<i64>) -> (out: Vec<u64>)
    ensures
        ints(out@) == scale_seq(mode, reading@),
{
    let mut out: Vec<u64> = Vec::with_capacity(reading.len());
    let mut i: usize = 0;
    while i < reading.len()
        invariant
            i <= reading@.len(),
            out@.len() == i,
            forall|j: int| 0 <= j < i ==> out@[j] == scaled(mode, reading@[j] as int),
        decreases reading@.len() - i,
    {
        out.push(scale_value(mode, reading[i]));
        i += 1;
    }
    assert(ints(out@) =~= scale_seq(mode, reading@));
    out
}

} // verus!
