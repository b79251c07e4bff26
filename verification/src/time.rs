//! Rational time bases and timestamps.
//!
//! A time base is a positive rational giving the duration of one timestamp
//! tick. A timestamp is an integer tick count paired with its time base,
//! with a distinguished null sentinel. Conversion between time bases
//! rounds half away from zero, so that repeated conversions do not drift.

use vstd::prelude::*;
use vstd::arithmetic::div_mod::{lemma_fundamental_div_mod, lemma_fundamental_div_mod_converse};

verus! {

/// The duration of one timestamp tick, as a positive rational number of
/// seconds (`num / den`). Two time bases compare equal exactly when both
/// pairs match; there is no cross-reduction.
#[derive(Clone, Copy, Debug, PartialEq, Eq, Structural)]
pub struct TimeBase {
    pub num: u32,
    pub den: u32,
}

impl TimeBase {
    /// A well-formed time base is a positive rational.
    pub open spec fn wf(self) -> bool {
        self.num >= 1 && self.den >= 1
    }

    /// Create a new time base `num / den`.
    pub fn new(num: u32, den: u32) -> (r: TimeBase)
        requires
            num >= 1,
            den >= 1,
        ensures
            r == (TimeBase { num, den }),
            r.wf(),
    {
        TimeBase { num, den }
    }

    /// Get the numerator.
    pub fn num(&self) -> (r: u32)
        ensures
            r == self.num,
    {
        self.num
    }

    /// Get the denominator.
    pub fn den(&self) -> (r: u32)
        ensures
            r == self.den,
    {
        self.den
    }

    /// The microsecond time base, `1 / 1_000_000`.
    pub fn microseconds() -> (r: TimeBase)
        ensures
            r == spec_microseconds(),
    {
        TimeBase { num: 1, den: 1000000 }
    }
}

/// The microsecond time base as a spec value.
pub open spec fn spec_microseconds() -> TimeBase {
    TimeBase { num: 1u32, den: 1000000u32 }
}

/// `num / den` rounded to the nearest integer, with halves rounded away
/// from zero. Meaningful for `den >= 1`.
pub open spec fn round_half_away(num: int, den: int) -> int {
    if num >= 0 {
        (2 * num + den) / (2 * den)
    } else {
        -((2 * (-num) + den) / (2 * den))
    }
}

/// The tick count `ticks`, read in time base `from`, converted to time
/// base `to` and rounded half away from zero. This is the unclamped
/// mathematical value.
pub open spec fn spec_rescale(ticks: int, from: TimeBase, to: TimeBase) -> int {
    round_half_away(ticks * from.num * to.den, from.den * to.num)
}

/// Clamp a tick value to the representable non-null range
/// `[i64::MIN + 1, i64::MAX]`; the sentinel `i64::MIN` is never produced
/// by clamping.
pub open spec fn spec_clamp_ticks(v: int) -> int {
    if v > i64::MAX {
        i64::MAX as int
    } else if v < i64::MIN + 1 {
        i64::MIN + 1
    } else {
        v
    }
}

/// For non-negative numerators the one-sided rounding form used by the
/// executable code agrees with `round_half_away`.
proof fn lemma_round_exec_form(n: int, d: int)
    requires
        0 <= n,
        1 <= d,
    ensures
        (n + d / 2) / d == round_half_away(n, d),
{
    let q = n / d;
    let r = n % d;
    lemma_fundamental_div_mod(n, d);
    let h = d / 2;
    let e = d % 2;
    lemma_fundamental_div_mod(d, 2);
    if r >= h + e {
        // both forms round up
        assert(n + h == (q + 1) * d + (r + h - d)) by (nonlinear_arith)
            requires
                n == d * q + r,
                d == 2 * h + e,
        ;
        lemma_fundamental_div_mod_converse(n + h, d, q + 1, r + h - d);
        assert(2 * n + d == (q + 1) * (2 * d) + (2 * r + d - 2 * d)) by (nonlinear_arith)
            requires
                n == d * q + r,
        ;
        lemma_fundamental_div_mod_converse(2 * n + d, 2 * d, q + 1, 2 * r + d - 2 * d);
    } else {
        // both forms round down
        assert(n + h == q * d + (r + h)) by (nonlinear_arith)
            requires
                n == d * q + r,
        ;
        lemma_fundamental_div_mod_converse(n + h, d, q, r + h);
        assert(2 * n + d == q * (2 * d) + (2 * r + d)) by (nonlinear_arith)
            requires
                n == d * q + r,
        ;
        lemma_fundamental_div_mod_converse(2 * n + d, 2 * d, q, 2 * r + d);
    }
}

/// When the denominator divides the numerator exactly, rounding returns
/// the exact quotient.
proof fn lemma_round_exact(n: int, d: int)
    requires
        1 <= d,
        n % d == 0,
    ensures
        round_half_away(n, d) == n / d,
{
    let q = n / d;
    lemma_fundamental_div_mod(n, d);
    if n >= 0 {
        assert(2 * n + d == q * (2 * d) + d) by (nonlinear_arith)
            requires
                n == d * q,
        ;
        lemma_fundamental_div_mod_converse(2 * n + d, 2 * d, q, d);
    } else {
        assert(2 * (-n) + d == (-q) * (2 * d) + d) by (nonlinear_arith)
            requires
                n == d * q,
        ;
        lemma_fundamental_div_mod_converse(2 * (-n) + d, 2 * d, -q, d);
    }
}

/// Rounding a negated numerator negates the rounded value.
proof fn lemma_round_negate(n: int, d: int)
    requires
        1 <= d,
    ensures
        round_half_away(-n, d) == -round_half_away(n, d),
{
    if n == 0 {
        lemma_fundamental_div_mod_converse(d, 2 * d, 0, d);
    }
}

/// Convert a tick count between two time bases, rounding half away from
/// zero and clamping to the non-null tick range. The null sentinel is not
/// a valid input here; callers convert null timestamps without touching
/// the tick value.
pub fn rescale_ticks(ticks: i64, from: TimeBase, to: TimeBase) -> (r: i64)
    requires
        from.wf(),
        to.wf(),
        ticks != i64::MIN,
    ensures
        r == spec_clamp_ticks(spec_rescale(ticks as int, from, to)),
        r != i64::MIN,
{
    let neg: bool = ticks < 0;
    let t_abs: u64 = if ticks < 0 {
        (-ticks) as u64
    } else {
        ticks as u64
    };
    assert(t_abs == if ticks >= 0 { ticks as int } else { -(ticks as int) });
    assert(t_abs <= i64::MAX);

    proof {
        assert((t_abs as int) * (from.num as int) <= 0x7fff_ffff_ffff_ffffint
            * 0xffff_ffffint) by (nonlinear_arith)
            requires
                t_abs <= 0x7fff_ffff_ffff_ffffu64,
                from.num <= 0xffff_ffffu32,
        ;
    }
    let n1: u128 = (t_abs as u128) * (from.num as u128);
    proof {
        assert((n1 as int) * (to.den as int) < 0x8000_0000_0000_0000_0000_0000_0000_0000int)
            by (nonlinear_arith)
            requires
                n1 <= 0x7fff_ffff_ffff_ffffu128 * 0xffff_ffffu128,
                to.den <= 0xffff_ffffu32,
        ;
    }
    let n: u128 = n1 * (to.den as u128);
    proof {
        assert((from.den as int) * (to.num as int) >= 1 && (from.den as int) * (to.num as int)
            <= 0xffff_ffffint * 0xffff_ffffint) by (nonlinear_arith)
            requires
                1 <= from.den <= 0xffff_ffffu32,
                1 <= to.num <= 0xffff_ffffu32,
        ;
    }
    let m: u128 = (from.den as u128) * (to.num as u128);
    let half: u128 = m / 2;
    let q: u128 = (n + half) / m;

    proof {
        lemma_round_exec_form(n as int, m as int);
        assert(n == t_abs * from.num * to.den) by (nonlinear_arith)
            requires
                n1 == (t_abs as u128) * (from.num as u128),
                n == n1 * (to.den as u128),
        ;
        if ticks >= 0 {
            assert(ticks * from.num * to.den == t_abs * from.num * to.den) by (nonlinear_arith)
                requires
                    t_abs == ticks as int,
            ;
        } else {
            assert(ticks * from.num * to.den == -(t_abs * from.num * to.den)) by (nonlinear_arith)
                requires
                    t_abs == -(ticks as int),
            ;
            lemma_round_negate(n as int, m as int);
        }
    }

    if neg {
        if q > i64::MAX as u128 {
            i64::MIN + 1
        } else {
            -(q as i64)
        }
    } else {
        if q > i64::MAX as u128 {
            i64::MAX
        } else {
            q as i64
        }
    }
}

/// An integer tick count paired with the time base that gives its ticks
/// meaning. The tick value `i64::MIN` is the distinguished null sentinel:
/// a null timestamp has no defined value and is distinct from 0.
#[derive(Clone, Copy, Debug, PartialEq, Eq, Structural)]
pub struct Timestamp {
    pub ticks: i64,
    pub base: TimeBase,
}

impl Timestamp {
    /// Whether this timestamp is the null sentinel.
    pub open spec fn spec_is_null(self) -> bool {
        self.ticks == i64::MIN
    }

    /// A timestamp is well-formed when its time base is.
    pub open spec fn wf(self) -> bool {
        self.base.wf()
    }

    /// The timestamp after conversion to `tb`: null stays null, any other
    /// value is rescaled (rounding half away from zero) and clamped to the
    /// non-null tick range; tick count and time base change together.
    pub open spec fn spec_with_time_base(self, tb: TimeBase) -> Timestamp {
        if self.spec_is_null() {
            Timestamp { ticks: i64::MIN, base: tb }
        } else {
            Timestamp {
                ticks: spec_clamp_ticks(spec_rescale(self.ticks as int, self.base, tb)) as i64,
                base: tb,
            }
        }
    }

    /// Create a new timestamp of `ticks` in `base`. Passing the sentinel
    /// tick value constructs the null timestamp.
    pub fn new(ticks: i64, base: TimeBase) -> (r: Timestamp)
        requires
            base.wf(),
        ensures
            r == (Timestamp { ticks, base }),
            r.wf(),
    {
        Timestamp { ticks, base }
    }

    /// The null timestamp, in the microsecond time base.
    pub fn null() -> (r: Timestamp)
        ensures
            r.spec_is_null(),
            r.base == spec_microseconds(),
            r.wf(),
    {
        Timestamp { ticks: i64::MIN, base: TimeBase::microseconds() }
    }

    /// Whether this timestamp is null.
    pub fn is_null(&self) -> (r: bool)
        ensures
            r == self.spec_is_null(),
    {
        self.ticks == i64::MIN
    }

    /// The raw tick count, sentinel included.
    pub fn timestamp(&self) -> (r: i64)
        ensures
            r == self.ticks,
    {
        self.ticks
    }

    /// The time base.
    pub fn time_base(&self) -> (r: TimeBase)
        ensures
            r == self.base,
    {
        self.base
    }

    /// Convert this timestamp to another time base. The tick count and the
    /// time base change atomically; a null timestamp converts to null.
    pub fn with_time_base(self, time_base: TimeBase) -> (r: Timestamp)
        requires
            self.wf(),
            time_base.wf(),
        ensures
            r == self.spec_with_time_base(time_base),
            r.spec_is_null() == self.spec_is_null(),
            r.wf(),
    {
        if self.ticks == i64::MIN {
            Timestamp { ticks: i64::MIN, base: time_base }
        } else {
            Timestamp { ticks: rescale_ticks(self.ticks, self.base, time_base), base: time_base }
        }
    }

    /// The timestamp in whole microseconds, or `None` for null.
    pub fn as_micros(&self) -> (r: Option<i64>)
        requires
            self.wf(),
        ensures
            r matches Some(v) ==> !self.spec_is_null() && v
                == self.spec_with_time_base(spec_microseconds()).ticks,
            r is None <==> self.spec_is_null(),
    {
        if self.ticks == i64::MIN {
            None
        } else {
            Some(rescale_ticks(self.ticks, self.base, TimeBase::microseconds()))
        }
    }

    /// The timestamp in whole seconds (rounded half away from zero), or
    /// `None` for null.
    pub fn as_seconds(&self) -> (r: Option<i64>)
        requires
            self.wf(),
        ensures
            r matches Some(v) ==> !self.spec_is_null() && v
                == self.spec_with_time_base(TimeBase { num: 1u32, den: 1u32 }).ticks,
            r is None <==> self.spec_is_null(),
    {
        if self.ticks == i64::MIN {
            None
        } else {
            Some(rescale_ticks(self.ticks, self.base, TimeBase { num: 1, den: 1 }))
        }
    }
}

/// Null is preserved by conversion: a converted timestamp is null exactly
/// when the original was, whatever the time bases.
pub proof fn lemma_rescale_preserves_null(t: Timestamp, tb: TimeBase)
    ensures
        t.spec_with_time_base(tb).spec_is_null() <==> t.spec_is_null(),
{
}

/// Converting between two time bases and back reproduces the original
/// tick count exactly whenever the forward conversion loses nothing to
/// rounding and its result is representable.
pub proof fn lemma_rescale_round_trip(t: Timestamp, to: TimeBase)
    requires
        t.wf(),
        to.wf(),
        !t.spec_is_null(),
        (t.ticks * t.base.num * to.den) % (t.base.den * to.num) == 0,
        i64::MIN < spec_rescale(t.ticks as int, t.base, to) <= i64::MAX,
    ensures
        t.spec_with_time_base(to).spec_with_time_base(t.base) == t,
{
    let b1 = t.base;
    let n = t.ticks * b1.num * to.den;
    let d = b1.den * to.num;
    assert(d >= 1) by (nonlinear_arith)
        requires
            d == b1.den * to.num,
            b1.den >= 1,
            to.num >= 1,
    ;
    lemma_round_exact(n, d);
    let t2 = n / d;
    assert(spec_rescale(t.ticks as int, b1, to) == t2);
    assert(spec_clamp_ticks(t2) == t2);
    let fwd = t.spec_with_time_base(to);
    assert(fwd.ticks == t2 && fwd.base == to);
    assert(!fwd.spec_is_null());

    // the backward numerator is an exact multiple of the backward
    // denominator, with quotient exactly the original tick count
    let n_back = t2 * to.num * b1.den;
    let d_back = to.den * b1.num;
    assert(d_back >= 1) by (nonlinear_arith)
        requires
            d_back == to.den * b1.num,
            to.den >= 1,
            b1.num >= 1,
    ;
    lemma_fundamental_div_mod(n, d);
    assert(n == t2 * d);
    assert(n_back == (t.ticks as int) * d_back) by (nonlinear_arith)
        requires
            n == t2 * d,
            n == t.ticks * b1.num * to.den,
            d == b1.den * to.num,
            n_back == t2 * to.num * b1.den,
            d_back == to.den * b1.num,
    ;
    lemma_fundamental_div_mod_converse(n_back, d_back, t.ticks as int, 0);
    lemma_round_exact(n_back, d_back);
    assert(spec_rescale(t2, to, b1) == t.ticks);
    assert(spec_clamp_ticks(t.ticks as int) == t.ticks);
}

} // verus!

