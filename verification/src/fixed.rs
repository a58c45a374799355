//! Fixed-point scalars and vectors.
//!
//! A length is an `i64` number of steps, [`SCALE`] steps to the world unit; a
//! speed is steps per second, an acceleration steps per second squared. A
//! time span is a `u64` number of nanoseconds. Quotients round toward zero,
//! so that every operation treats a value and its negation alike.

use vstd::prelude::*;

verus! {

/// Steps in one world unit.
pub const SCALE: i64 = 1_000_000;

/// Nanoseconds in one second.
pub const NANOS_PER_SECOND: u64 = 1_000_000_000;

/// Half the side of the box that holds every velocity and every translation
/// request: 1000 world units.
pub const LIMIT: i64 = 1_000_000_000;

/// The quotient of `n` by a positive `d`, rounded toward zero.
pub open spec fn toward_zero(n: int, d: int) -> int {
    if n >= 0 {
        n / d
    } else {
        -((-n) / d)
    }
}

/// `v` brought into `lo..=hi`.
pub open spec fn clamp(v: int, lo: int, hi: int) -> int {
    if v < lo {
        lo
    } else if v > hi {
        hi
    } else {
        v
    }
}

/// `v` brought into the box of half side [`LIMIT`].
pub open spec fn boxed(v: int) -> int {
    clamp(v, -LIMIT, LIMIT as int)
}

/// `percent` hundredths of `v`.
pub open spec fn percent_of(v: int, percent: int) -> int {
    toward_zero(v * percent, 100)
}

/// What a rate of `rate` per second comes to over `dt` nanoseconds.
pub open spec fn over_time(rate: int, dt: int) -> int {
    toward_zero(rate * dt, NANOS_PER_SECOND as int)
}

/// A point or a displacement of the plane.
#[derive(Clone, Copy, Debug, PartialEq, Eq, Structural)]
pub struct Vec2 {
    pub x: i64,
    pub y: i64,
}

impl Vec2 {
    pub fn new(x: i64, y: i64) -> (v: Vec2)
        ensures
            v == (Vec2 { x, y }),
    {
        Vec2 { x, y }
    }

    pub fn zero() -> (v: Vec2)
        ensures
            v == (Vec2 { x: 0, y: 0 }),
    {
        Vec2 { x: 0, y: 0 }
    }

    /// Whether both components lie in the box of half side [`LIMIT`].
    pub open spec fn in_box(self) -> bool {
        &&& -LIMIT <= self.x <= LIMIT
        &&& -LIMIT <= self.y <= LIMIT
    }
}

/// The widest magnitude that [`scale_percent`] and [`scale_time`] take.
pub const WIDE: i128 = 0x1_0000_0000_0000_0000_0000;

pub fn clamp_to_box(v: i128) -> (r: i64)
    ensures
        r == boxed(v as int),
        -LIMIT <= r <= LIMIT,
{
    if v < -(LIMIT as i128) {
        -LIMIT
    } else if v > LIMIT as i128 {
        LIMIT
    } else {
        v as i64
    }
}

pub fn scale_percent(v: i128, percent: u8) -> (r: i128)
    requires
        -WIDE <= v <= WIDE,
    ensures
        r == percent_of(v as int, percent as int),
{
    let p: i128 = percent as i128;
    assert(-WIDE * 255 <= v * p <= WIDE * 255) by (nonlinear_arith)
        requires
            -WIDE <= v <= WIDE,
            0 <= p <= 255,
    ;
    (v * p) / 100
}

/// A product by a time span splits into whole seconds and the rest.
pub proof fn lemma_over_time_split(rate: int, secs: int, nanos: int)
    requires
        0 <= secs,
        0 <= nanos < NANOS_PER_SECOND,
    ensures
        over_time(rate, secs * NANOS_PER_SECOND + nanos) == rate * secs + over_time(rate, nanos),
{
    let n = NANOS_PER_SECOND as int;
    let dt = secs * n + nanos;
    if rate >= 0 {
        assert(rate * dt == (rate * secs) * n + rate * nanos) by (nonlinear_arith)
            requires
                dt == secs * n + nanos,
        ;
        assert(rate * nanos >= 0 && rate * dt >= 0) by (nonlinear_arith)
            requires
                rate >= 0,
                nanos >= 0,
                dt >= 0,
        ;
        vstd::arithmetic::div_mod::lemma_hoist_over_denominator(rate * nanos, rate * secs, n as nat);
    } else {
        let m = -rate;
        assert(m * dt == (m * secs) * n + m * nanos) by (nonlinear_arith)
            requires
                dt == secs * n + nanos,
        ;
        assert(m * nanos >= 0 && m * dt >= 0) by (nonlinear_arith)
            requires
                m >= 0,
                nanos >= 0,
                dt >= 0,
        ;
        assert(rate * dt == -(m * dt) && rate * nanos == -(m * nanos) && rate * secs == -(m * secs))
            by (nonlinear_arith)
            requires
                m == -rate,
        ;
        vstd::arithmetic::div_mod::lemma_hoist_over_denominator(m * nanos, m * secs, n as nat);
    }
}

pub fn scale_time(rate: i128, dt: u64) -> (r: i128)
    requires
        -WIDE <= rate <= WIDE,
    ensures
        r == over_time(rate as int, dt as int),
{
    let secs: i128 = (dt / NANOS_PER_SECOND) as i128;
    let nanos: i128 = (dt % NANOS_PER_SECOND) as i128;
    proof {
        lemma_over_time_split(rate as int, secs as int, nanos as int);
    }
    assert(-WIDE * 0x8_0000_0000 <= rate * secs <= WIDE * 0x8_0000_0000) by (nonlinear_arith)
        requires
            -WIDE <= rate <= WIDE,
            0 <= secs <= 0x8_0000_0000,
    ;
    assert(-WIDE * 0x1_0000_0000 <= rate * nanos <= WIDE * 0x1_0000_0000) by (nonlinear_arith)
        requires
            -WIDE <= rate <= WIDE,
            0 <= nanos <= 0x1_0000_0000,
    ;
    let whole: i128 = rate * secs;
    let part: i128 = (rate * nanos) / (NANOS_PER_SECOND as i128);
    whole + part
}

} // verus!
