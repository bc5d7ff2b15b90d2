//! Conversion between codec-native timestamps and integer milliseconds.
//!
//! A codec reports time as a count of ticks of its time base, or as whole
//! seconds plus a fractional remainder in `[0, 1)`. Everything the player
//! shows or sends is in whole milliseconds. The fractional remainder is kept
//! here as an exact ratio of two integers, so every conversion is exact and
//! can be stated over the integers.

use vstd::prelude::*;
use vstd::arithmetic::div_mod::{lemma_div_is_ordered, lemma_hoist_over_denominator};
use vstd::arithmetic::mul::lemma_mul_inequality;

verus! {

/// Nearest integer to the ratio `a / b`, a half rounded up.
pub open spec fn round_div(a: int, b: int) -> int {
    (2 * a + b) / (2 * b)
}

/// `round_div(a, b)` is the integer nearest to `a / b`: it lies within half a
/// unit of the ratio, and of two integers equally near it is the larger.
pub proof fn lemma_round_div_is_nearest(a: int, b: int)
    requires
        b > 0,
    ensures
        2 * a - b < 2 * b * round_div(a, b) <= 2 * a + b,
{
    let n: int = 2 * a + b;
    let d: int = 2 * b;
    assert(d * (n / d) <= n < d * (n / d) + d) by (nonlinear_arith)
        requires
            d > 0,
    ;
}

/// A native timestamp: whole seconds and a fractional remainder
/// `frac_numer / frac_denom` of a second.
#[derive(Clone, Copy, Debug, PartialEq, Eq, Structural)]
pub struct NativeTime {
    pub seconds: u64,
    pub frac_numer: u32,
    pub frac_denom: u32,
}

impl NativeTime {
    /// The fractional remainder is a ratio in `[0, 1)`.
    pub open spec fn wf(self) -> bool {
        self.frac_numer < self.frac_denom
    }

    /// The fractional remainder in milliseconds, rounded to the nearest one.
    pub open spec fn frac_ms(self) -> int {
        round_div(self.frac_numer * 1000, self.frac_denom as int)
    }

    /// The timestamp in milliseconds: `seconds * 1000 + round(frac * 1000)`.
    pub open spec fn to_ms(self) -> int {
        self.seconds * 1000 + self.frac_ms()
    }

    /// A timestamp from its parts; `None` unless `frac_numer / frac_denom` lies in `[0, 1)`.
    pub fn new(seconds: u64, frac_numer: u32, frac_denom: u32) -> (time: Option<NativeTime>)
        ensures
            time == if frac_numer < frac_denom {
                Some(NativeTime { seconds, frac_numer, frac_denom })
            } else {
                None
            },
    {
        if frac_numer < frac_denom {
            Some(NativeTime { seconds, frac_numer, frac_denom })
        } else {
            None
        }
    }
}

/// The native timestamp of a millisecond count:
/// `ms / 1000` whole seconds and `(ms % 1000) / 1000` of a second.
pub open spec fn ms_to_time_spec(ms: u64) -> NativeTime {
    NativeTime { seconds: ms / 1000, frac_numer: (ms % 1000) as u32, frac_denom: 1000 }
}

/// Rounds `numer / denom` of a second to whole milliseconds.
fn frac_to_ms(numer: u32, denom: u32) -> (ms: u64)
    requires
        denom > 0,
    ensures
        ms == round_div(numer * 1000, denom as int),
        numer < denom ==> ms <= 1000,
{
    let scaled: u64 = numer as u64 * 2000 + denom as u64;
    let ms: u64 = scaled / (2 * denom as u64);
    proof {
        if numer < denom {
            let divisor: int = 2 * denom;
            assert(scaled / (divisor as u64) <= 1000) by (nonlinear_arith)
                requires
                    0 <= scaled < 1001 * divisor,
                    0 < divisor <= u64::MAX,
            ;
        }
    }
    ms
}

/// Converts a native timestamp to milliseconds.
pub fn time_to_ms(time: NativeTime) -> (ms: u64)
    requires
        time.wf(),
        time.to_ms() <= u64::MAX,
    ensures
        ms == time.to_ms(),
{
    let frac: u64 = frac_to_ms(time.frac_numer, time.frac_denom);
    time.seconds * 1000 + frac
}

/// Converts a native timestamp to milliseconds where the result fits in 64 bits.
pub fn checked_time_to_ms(time: NativeTime) -> (ms: Option<u64>)
    requires
        time.wf(),
    ensures
        ms == if time.to_ms() <= u64::MAX {
            Some(time.to_ms() as u64)
        } else {
            None
        },
{
    let frac: u64 = frac_to_ms(time.frac_numer, time.frac_denom);
    let total: u128 = time.seconds as u128 * 1000 + frac as u128;
    if total <= u64::MAX as u128 {
        Some(total as u64)
    } else {
        None
    }
}

/// Converts milliseconds to a native timestamp.
pub fn ms_to_time(ms: u64) -> (time: NativeTime)
    ensures
        time == ms_to_time_spec(ms),
        time.wf(),
        time.to_ms() == ms,
{
    proof {
        lemma_round_trip(ms);
    }
    NativeTime { seconds: ms / 1000, frac_numer: (ms % 1000) as u32, frac_denom: 1000 }
}

/// Milliseconds survive the trip to a native timestamp and back unchanged.
pub proof fn lemma_round_trip(ms: u64)
    ensures
        ms_to_time_spec(ms).wf(),
        ms_to_time_spec(ms).to_ms() == ms,
{
    let r: int = ms as int % 1000;
    assert((2 * (r * 1000) + 1000) / 2000 == r);
}

/// A time base: one tick of a track lasts `numer / denom` seconds.
#[derive(Clone, Copy, Debug, PartialEq, Eq, Structural)]
pub struct TimeBase {
    pub numer: u32,
    pub denom: u32,
}

impl TimeBase {
    /// Neither part of the ratio is zero.
    pub open spec fn wf(self) -> bool {
        self.numer > 0 && self.denom > 0
    }

    /// The whole seconds that have passed at tick `ts`.
    pub open spec fn whole_seconds(self, ts: u64) -> int {
        (ts * self.numer) / (self.denom as int)
    }

    /// What is left of tick `ts` beyond the whole seconds, in units of `1 / denom` seconds.
    pub open spec fn remainder(self, ts: u64) -> int {
        (ts * self.numer) % (self.denom as int)
    }

    /// The position of tick `ts` in milliseconds.
    pub open spec fn position(self, ts: u64) -> int {
        self.whole_seconds(ts) * 1000 + round_div(self.remainder(ts) * 1000, self.denom as int)
    }

    /// A time base from its ratio; `None` where a part is zero.
    pub fn new(numer: u32, denom: u32) -> (base: Option<TimeBase>)
        ensures
            base == if numer > 0 && denom > 0 {
                Some(TimeBase { numer, denom })
            } else {
                None
            },
    {
        if numer > 0 && denom > 0 {
            Some(TimeBase { numer, denom })
        } else {
            None
        }
    }

    /// The native timestamp of tick `ts`: the ratio `ts * numer / denom` split
    /// into whole seconds and remainder. `None` where the whole seconds exceed 64 bits.
    pub fn calc_time(&self, ts: u64) -> (time: Option<NativeTime>)
        requires
            self.wf(),
        ensures
            time is Some <==> self.whole_seconds(ts) <= u64::MAX,
            time matches Some(t) ==> {
                &&& t.wf()
                &&& t.seconds == self.whole_seconds(ts)
                &&& t.frac_numer == self.remainder(ts)
                &&& t.frac_denom == self.denom
                &&& t.to_ms() == self.position(ts)
            },
    {
        assert(ts * self.numer <= 0xffff_ffff_ffff_ffff * 0xffff_ffff) by (nonlinear_arith)
            requires
                ts <= 0xffff_ffff_ffff_ffff,
                self.numer <= 0xffff_ffff,
        ;
        let dividend: u128 = ts as u128 * self.numer as u128;
        let quotient: u128 = dividend / self.denom as u128;
        let rest: u128 = dividend % self.denom as u128;
        if quotient <= u64::MAX as u128 {
            Some(NativeTime {
                seconds: quotient as u64,
                frac_numer: rest as u32,
                frac_denom: self.denom,
            })
        } else {
            None
        }
    }

    /// The position of tick `ts` in milliseconds; `None` where it exceeds 64 bits.
    pub fn position_ms(&self, ts: u64) -> (ms: Option<u64>)
        requires
            self.wf(),
        ensures
            ms == if self.position(ts) <= u64::MAX {
                Some(self.position(ts) as u64)
            } else {
                None
            },
    {
        match self.calc_time(ts) {
            Some(time) => checked_time_to_ms(time),
            None => {
                proof {
                    lemma_position_bounds(*self, ts);
                }
                None
            },
        }
    }
}

/// A position is never before the start of its second.
pub proof fn lemma_position_bounds(base: TimeBase, ts: u64)
    requires
        base.wf(),
    ensures
        base.whole_seconds(ts) * 1000 <= base.position(ts) <= base.whole_seconds(ts) * 1000 + 1000,
{
    let d: int = base.denom as int;
    let r: int = base.remainder(ts);
    assert(0 <= r < d) by (nonlinear_arith)
        requires
            r == (ts * base.numer) % d,
            d > 0,
    ;
    assert(0 <= (2 * (r * 1000) + d) / (2 * d) <= 1000) by (nonlinear_arith)
        requires
            0 <= r < d,
    ;
}

/// The position of a tick is the ratio `ts * numer * 1000 / denom`, rounded to
/// the nearest millisecond.
pub proof fn lemma_position_rounds_ratio(base: TimeBase, ts: u64)
    requires
        base.wf(),
    ensures
        base.position(ts) == round_div(ts * base.numer * 1000, base.denom as int),
{
    let d: int = base.denom as int;
    let a: int = ts * base.numer;
    let q: int = a / d;
    let r: int = a % d;
    assert(a == d * q + r) by (nonlinear_arith)
        requires
            q == a / d,
            r == a % d,
            d > 0,
    ;
    lemma_hoist_over_denominator(2 * (r * 1000) + d, q * 1000, (2 * d) as nat);
    assert(2 * (r * 1000) + d + (q * 1000) * (2 * d) == 2 * (a * 1000) + d) by (nonlinear_arith)
        requires
            a == d * q + r,
    ;
}

/// Positions do not run backwards: a later tick is at a later or equal millisecond.
pub proof fn lemma_position_monotonic(base: TimeBase, earlier: u64, later: u64)
    requires
        base.wf(),
        earlier <= later,
    ensures
        base.position(earlier) <= base.position(later),
{
    lemma_position_rounds_ratio(base, earlier);
    lemma_position_rounds_ratio(base, later);
    let d: int = base.denom as int;
    lemma_mul_inequality(earlier as int, later as int, base.numer as int);
    lemma_div_is_ordered(
        2 * (earlier * base.numer * 1000) + d,
        2 * (later * base.numer * 1000) + d,
        2 * d,
    );
}

/// The length of a track in milliseconds, from its first tick and its number
/// of frames: the position of tick `start_ts + n_frames`. `None` where that
/// tick or its position exceeds 64 bits.
pub fn get_duration(base: TimeBase, start_ts: u64, n_frames: u64) -> (ms: Option<u64>)
    requires
        base.wf(),
    ensures
        ms == if start_ts + n_frames <= u64::MAX && base.position((start_ts + n_frames) as u64)
            <= u64::MAX {
            Some(base.position((start_ts + n_frames) as u64) as u64)
        } else {
            None
        },
{
    if n_frames > u64::MAX - start_ts {
        return None;
    }
    base.position_ms(start_ts + n_frames)
}

} // verus!
