//! Conversions between stream-native timestamps and milliseconds.
//!
//! A stream expresses time in ticks of its time base, a rational number of
//! seconds per tick. The public control surface speaks milliseconds; these
//! functions convert at the boundary, rounding toward negative infinity.
use vstd::prelude::*;
use vstd::arithmetic::div_mod::lemma_fundamental_div_mod;
use vstd::arithmetic::div_mod::lemma_fundamental_div_mod_converse;

verus! {

/// Microseconds per millisecond; container durations and seek targets use a
/// universal time base of one microsecond.
pub const MICROS_PER_MILLI: i64 = 1000;

/// Seconds per tick, as `num / den`.
#[derive(Clone, Copy, Debug, PartialEq, Eq, Structural)]
pub struct TimeBase {
    pub num: i32,
    pub den: i32,
}

impl TimeBase {
    /// A time base that can convert in both directions: both parts positive.
    pub open spec fn valid(self) -> bool {
        self.num > 0 && self.den > 0
    }

    /// One tick lasts at least a millisecond.
    pub open spec fn coarse(self) -> bool {
        self.den <= self.num * 1000
    }
}

/// `ts` ticks in milliseconds: `ts * num * 1000 / den`, floored.
pub open spec fn millis_of(ts: int, tb: TimeBase) -> int {
    (ts * tb.num * 1000) / (tb.den as int)
}

/// `ms` milliseconds in ticks: `ms * den / (num * 1000)`, floored.
pub open spec fn ticks_of(ms: int, tb: TimeBase) -> int {
    (ms * tb.den) / (tb.num * 1000)
}

/// Floored division of a signed value by a positive divisor.
fn floor_div(a: i128, d: i128) -> (q: i128)
    requires
        d > 0,
        -0x1000_0000_0000_0000_0000_0000_0000 < a < 0x1000_0000_0000_0000_0000_0000_0000,
        d < 0x1000_0000_0000_0000,
    ensures
        q == a / d,
{
    if a >= 0 {
        let q = (a as u128 / d as u128) as i128;
        q
    } else {
        let m: u128 = (0 - a) as u128;
        let up: u128 = (m + (d as u128 - 1)) / d as u128;
        proof {
            let x: int = a as int;
            let qf: int = x / (d as int);
            let rf: int = x % (d as int);
            lemma_fundamental_div_mod(x, d as int);
            assert(x == d * qf + rf);
            assert(0 <= rf < d);
            let y: int = m as int + d as int - 1;
            assert(y == (-qf) * (d as int) + (d as int - 1 - rf)) by (nonlinear_arith)
                requires
                    y == m as int + d as int - 1,
                    m as int == -x,
                    x == d * qf + rf,
            ;
            lemma_fundamental_div_mod_converse(y, d as int, -qf, d as int - 1 - rf);
            assert(up as int == -qf);
            assert(qf <= 0) by (nonlinear_arith)
                requires
                    x == d * qf + rf,
                    x < 0,
                    0 <= rf < d,
                    d > 0,
            ;
        }
        0 - (up as i128)
    }
}

/// `millis_of(ts, tb)` computed exactly in 128 bits.
fn millis_wide(ts: i64, tb: TimeBase) -> (ms: i128)
    requires
        tb.den > 0,
    ensures
        ms == millis_of(ts as int, tb),
{
    let t: i128 = ts as i128;
    let n: i128 = tb.num as i128;
    proof {
        assert(-0x4000_0000_0000_0000_0000_0000 <= t * n <= 0x4000_0000_0000_0000_0000_0000)
            by (nonlinear_arith)
            requires
                -0x8000_0000_0000_0000 <= t < 0x8000_0000_0000_0000,
                -0x8000_0000 <= n < 0x8000_0000,
        ;
    }
    let tn: i128 = t * n;
    let p: i128 = tn * 1000;
    assert(p == ts as int * tb.num * 1000);
    floor_div(p, tb.den as i128)
}

/// Converts a timestamp in ticks of `tb` to milliseconds.
pub fn timestamp_to_millisec(ts: i64, tb: TimeBase) -> (ms: i64)
    requires
        tb.den > 0,
        i64::MIN <= millis_of(ts as int, tb) <= i64::MAX,
    ensures
        ms == millis_of(ts as int, tb),
{
    millis_wide(ts, tb) as i64
}

/// Converts a timestamp in ticks of `tb` to milliseconds, or gives `None`
/// when the result does not fit in an `i64`.
pub fn checked_timestamp_to_millisec(ts: i64, tb: TimeBase) -> (ms: Option<i64>)
    requires
        tb.den > 0,
    ensures
        ms == if i64::MIN <= millis_of(ts as int, tb) <= i64::MAX {
            Some(millis_of(ts as int, tb) as i64)
        } else {
            None::<i64>
        },
{
    let q = millis_wide(ts, tb);
    if q < i64::MIN as i128 || q > i64::MAX as i128 {
        None
    } else {
        Some(q as i64)
    }
}

/// Converts milliseconds to a timestamp in ticks of `tb`.
pub fn millisec_to_timestamp(ms: i64, tb: TimeBase) -> (ts: i64)
    requires
        tb.valid(),
        i64::MIN <= ticks_of(ms as int, tb) <= i64::MAX,
    ensures
        ts == ticks_of(ms as int, tb),
{
    let t: i128 = ms as i128;
    let n: i128 = tb.den as i128;
    proof {
        assert(-0x4000_0000_0000_0000_0000_0000 <= t * n <= 0x4000_0000_0000_0000_0000_0000)
            by (nonlinear_arith)
            requires
                -0x8000_0000_0000_0000 <= t < 0x8000_0000_0000_0000,
                0 < n < 0x8000_0000,
        ;
    }
    let p: i128 = t * n;
    let q = floor_div(p, tb.num as i128 * 1000);
    q as i64
}

/// Converting ticks to milliseconds and back loses at most one tick, for a
/// time base whose tick lasts at least a millisecond.
pub proof fn lemma_round_trip(ts: int, tb: TimeBase)
    requires
        tb.valid(),
        tb.coarse(),
    ensures
        ts - 1 <= ticks_of(millis_of(ts, tb), tb) <= ts,
{
    let den: int = tb.den as int;
    let k: int = tb.num * 1000;
    let p: int = ts * tb.num * 1000;
    let ms: int = p / den;
    lemma_fundamental_div_mod(p, den);
    let r: int = p % den;
    assert(p == den * ms + r);
    assert(0 <= r < den);
    let x: int = ms * den;
    let back: int = x / k;
    lemma_fundamental_div_mod(x, k);
    let r2: int = x % k;
    assert(x == k * back + r2);
    assert(0 <= r2 < k);
    assert(p == ts * k) by (nonlinear_arith)
        requires
            p == ts * tb.num * 1000,
            k == tb.num * 1000,
    ;
    assert(back <= ts) by (nonlinear_arith)
        requires
            x == k * back + r2,
            0 <= r2,
            x == p - r,
            0 <= r,
            p == ts * k,
            k > 0,
    ;
    assert(back >= ts - 1) by (nonlinear_arith)
        requires
            x == k * back + r2,
            r2 < k,
            x == p - r,
            r < den,
            den <= k,
            p == ts * k,
            k > 0,
    ;
}

} // verus!
