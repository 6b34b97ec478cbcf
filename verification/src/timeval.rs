//! The seconds+microseconds timestamp type: lexicographic comparison on the
//! two raw fields, signed microsecond differences, checked arithmetic
//! through the microsecond representation, and the reconciliation of
//! monotonic-clock readings into wallclock terms.

use vstd::prelude::*;
use core::cmp::Ordering;
use core::time::Duration;
use crate::microseconds::{
    MicroSeconds, MICROS_PER_SEC, div_trunc, duration_micros, rem_trunc, lemma_div_rem_trunc,
};
use vstd::arithmetic::div_mod::lemma_div_of0;

verus! {

/// Bit set in the `tv_usec` field to mark that the timestamp is in
/// monotonic ("rtclock") time rather than wallclock time.
pub const PA_TIMEVAL_RTCLOCK: i64 = 0x4000_0000;

/// A raw timestamp: whole seconds and fractional microseconds, mirroring the
/// platform's two-field timestamp struct (two signed 64-bit fields in this
/// order). The fields are unconstrained; a high bit of `tv_usec` doubles as
/// the monotonic-origin flag and contributes numerically to comparison.
#[derive(Clone, Copy, PartialEq, Eq, Structural, Debug)]
pub struct Timeval {
    pub tv_sec: i64,
    pub tv_usec: i64,
}

/// Whether a mathematical integer fits the signed 64-bit range.
pub open spec fn in_i64(v: int) -> bool {
    i64::MIN <= v <= i64::MAX
}

impl Timeval {
    /// The instant this timestamp denotes, as a total count of microseconds.
    pub open spec fn us_total(self) -> int {
        self.tv_sec * MICROS_PER_SEC + self.tv_usec
    }

    /// The canonical decomposition of a microsecond count into seconds and
    /// fractional microseconds: truncating division, so the fractional field
    /// carries the sign of the count.
    pub open spec fn from_us_spec(v: int) -> Timeval {
        Timeval {
            tv_sec: div_trunc(v, MICROS_PER_SEC as int) as i64,
            tv_usec: rem_trunc(v, MICROS_PER_SEC as int) as i64,
        }
    }

    /// The signed microsecond difference `a - b`.
    pub open spec fn diff_spec(a: Timeval, b: Timeval) -> int {
        a.us_total() - b.us_total()
    }

    /// Lexicographic three-way comparison of the two raw fields, the flag
    /// bit contributing numerically to the fractional field.
    pub open spec fn cmp_spec(a: Timeval, b: Timeval) -> Ordering {
        if a.tv_sec != b.tv_sec {
            if a.tv_sec < b.tv_sec {
                Ordering::Less
            } else {
                Ordering::Greater
            }
        } else if a.tv_usec != b.tv_usec {
            if a.tv_usec < b.tv_usec {
                Ordering::Less
            } else {
                Ordering::Greater
            }
        } else {
            Ordering::Equal
        }
    }

    /// Creates a timestamp with the values provided.
    pub fn new(sec: i64, usec: i64) -> (r: Timeval)
        ensures
            r.tv_sec == sec,
            r.tv_usec == usec,
    {
        Timeval { tv_sec: sec, tv_usec: usec }
    }

    /// Creates the zero timestamp.
    pub fn new_zero() -> (r: Timeval)
        ensures
            r.tv_sec == 0,
            r.tv_usec == 0,
            r.us_total() == 0,
    {
        Timeval { tv_sec: 0, tv_usec: 0 }
    }

    /// Three-way comparison: lexicographic on the raw `(tv_sec, tv_usec)`
    /// pair, so an rtclock flag bit left in `tv_usec` takes part as a plain
    /// numeric contribution.
    pub fn cmp(&self, other: &Timeval) -> (r: Ordering)
        ensures
            r == Timeval::cmp_spec(*self, *other),
    {
        if self.tv_sec != other.tv_sec {
            if self.tv_sec < other.tv_sec {
                Ordering::Less
            } else {
                Ordering::Greater
            }
        } else if self.tv_usec != other.tv_usec {
            if self.tv_usec < other.tv_usec {
                Ordering::Less
            } else {
                Ordering::Greater
            }
        } else {
            Ordering::Equal
        }
    }

    /// Builds the timestamp denoting the given microsecond count, in the
    /// canonical truncating decomposition.
    pub fn from_us(v: MicroSeconds) -> (r: Timeval)
        ensures
            r == Timeval::from_us_spec(v.0 as int),
            r.us_total() == v.0,
    {
        proof {
            lemma_div_rem_trunc(v.0 as int, MICROS_PER_SEC as int);
            if v.0 == 0 {
                lemma_div_of0(MICROS_PER_SEC as int);
            }
        }
        let sec = v.0.checked_div(MICROS_PER_SEC);
        let usec = v.0.checked_rem(MICROS_PER_SEC);
        Timeval { tv_sec: sec.unwrap(), tv_usec: usec.unwrap() }
    }

    /// The microsecond count of this timestamp, which the caller must know
    /// to be representable.
    pub fn as_us(&self) -> (r: MicroSeconds)
        requires
            in_i64(self.us_total()),
        ensures
            r.0 == self.us_total(),
    {
        let t: i128 = (self.tv_sec as i128) * (MICROS_PER_SEC as i128) + (self.tv_usec as i128);
        MicroSeconds(t as i64)
    }

    /// The signed difference `a - b` in microseconds: straightforward
    /// subtraction of the two total-microsecond representations, with no
    /// special treatment of the rtclock flag bit.
    pub fn diff(a: &Timeval, b: &Timeval) -> (r: MicroSeconds)
        requires
            -(i64::MAX as int) <= Timeval::diff_spec(*a, *b) <= i64::MAX as int,
        ensures
            r.0 == Timeval::diff_spec(*a, *b),
            r.valid(),
    {
        let ta: i128 = (a.tv_sec as i128) * (MICROS_PER_SEC as i128) + (a.tv_usec as i128);
        let tb: i128 = (b.tv_sec as i128) * (MICROS_PER_SEC as i128) + (b.tv_usec as i128);
        MicroSeconds((ta - tb) as i64)
    }

    /// The age of this timestamp relative to the given wallclock reading:
    /// `now - self` in microseconds.
    pub fn age(&self, now: &Timeval) -> (r: MicroSeconds)
        requires
            -(i64::MAX as int) <= Timeval::diff_spec(*now, *self) <= i64::MAX as int,
        ensures
            r.0 == Timeval::diff_spec(*now, *self),
            r.valid(),
    {
        Timeval::diff(now, self)
    }

    /// What `checked_add` returns: the timestamp of the summed microsecond
    /// counts, in canonical decomposition, unless either count equals the
    /// invalid sentinel or the sum leaves the signed 64-bit range.
    pub open spec fn checked_add_spec(self, other: Timeval) -> Option<Timeval> {
        let s = self.us_total();
        let o = other.us_total();
        if s != i64::MIN && o != i64::MIN && in_i64(s + o) {
            Some(Timeval::from_us_spec(s + o))
        } else {
            None
        }
    }

    /// Adds two timestamps through their microsecond representations,
    /// reporting failure on overflow or a sentinel-valued operand.
    pub fn checked_add(self, other: Timeval) -> (r: Option<Timeval>)
        requires
            in_i64(self.us_total()),
            in_i64(other.us_total()),
        ensures
            r == self.checked_add_spec(other),
    {
        let a = self.as_us();
        let b = other.as_us();
        match a.checked_add(b) {
            Some(v) => Some(Timeval::from_us(v)),
            None => None,
        }
    }

    /// What `checked_add_us` returns, by the same rule as `checked_add`.
    pub open spec fn checked_add_us_spec(self, rhs: MicroSeconds) -> Option<Timeval> {
        let s = self.us_total();
        if s != i64::MIN && rhs.valid() && in_i64(s + rhs.0) {
            Some(Timeval::from_us_spec(s + rhs.0))
        } else {
            None
        }
    }

    /// Adds a microsecond duration, reporting failure on overflow or a
    /// sentinel-valued operand.
    pub fn checked_add_us(self, rhs: MicroSeconds) -> (r: Option<Timeval>)
        requires
            in_i64(self.us_total()),
        ensures
            r == self.checked_add_us_spec(rhs),
    {
        let a = self.as_us();
        match a.checked_add(rhs) {
            Some(v) => Some(Timeval::from_us(v)),
            None => None,
        }
    }

    /// Adds a wallclock duration: the timestamp of the summed microsecond
    /// counts, unless the duration's count does not fit the representable
    /// range, `self`'s count equals the invalid sentinel, or the sum
    /// overflows.
    pub fn checked_add_duration(self, rhs: Duration) -> (r: Option<Timeval>)
        requires
            in_i64(self.us_total()),
        ensures
            r == (if 0 <= duration_micros(rhs) <= i64::MAX {
                self.checked_add_us_spec(MicroSeconds(duration_micros(rhs) as i64))
            } else {
                None
            }),
    {
        match MicroSeconds::from_duration(&rhs) {
            Some(m) => self.checked_add_us(m),
            None => None,
        }
    }

    /// What `checked_sub` returns: the timestamp of the difference of the
    /// microsecond counts, unless either count equals the invalid sentinel
    /// or the difference leaves the signed 64-bit range.
    pub open spec fn checked_sub_spec(self, other: Timeval) -> Option<Timeval> {
        let s = self.us_total();
        let o = other.us_total();
        if s != i64::MIN && o != i64::MIN && in_i64(s - o) {
            Some(Timeval::from_us_spec(s - o))
        } else {
            None
        }
    }

    /// Subtracts a timestamp through the microsecond representations,
    /// reporting failure on overflow or a sentinel-valued operand.
    pub fn checked_sub(self, other: Timeval) -> (r: Option<Timeval>)
        requires
            in_i64(self.us_total()),
            in_i64(other.us_total()),
        ensures
            r == self.checked_sub_spec(other),
    {
        let a = self.as_us();
        let b = other.as_us();
        match a.checked_sub(b) {
            Some(v) => Some(Timeval::from_us(v)),
            None => None,
        }
    }

    /// What `checked_sub_us` returns, by the same rule as `checked_sub`.
    pub open spec fn checked_sub_us_spec(self, rhs: MicroSeconds) -> Option<Timeval> {
        let s = self.us_total();
        if s != i64::MIN && rhs.valid() && in_i64(s - rhs.0) {
            Some(Timeval::from_us_spec(s - rhs.0))
        } else {
            None
        }
    }

    /// Subtracts a microsecond duration, reporting failure on overflow or a
    /// sentinel-valued operand.
    pub fn checked_sub_us(self, rhs: MicroSeconds) -> (r: Option<Timeval>)
        requires
            in_i64(self.us_total()),
        ensures
            r == self.checked_sub_us_spec(rhs),
    {
        let a = self.as_us();
        match a.checked_sub(rhs) {
            Some(v) => Some(Timeval::from_us(v)),
            None => None,
        }
    }

    /// Subtracts a wallclock duration: the timestamp of the difference of
    /// the microsecond counts, unless the duration's count does not fit the
    /// representable range, `self`'s count equals the invalid sentinel, or
    /// the difference overflows.
    pub fn checked_sub_duration(self, rhs: Duration) -> (r: Option<Timeval>)
        requires
            in_i64(self.us_total()),
        ensures
            r == (if 0 <= duration_micros(rhs) <= i64::MAX {
                self.checked_sub_us_spec(MicroSeconds(duration_micros(rhs) as i64))
            } else {
                None
            }),
    {
        match MicroSeconds::from_duration(&rhs) {
            Some(m) => self.checked_sub_us(m),
            None => None,
        }
    }

    /// What `checked_mul` returns: the timestamp of the scaled microsecond
    /// count, unless the count equals the invalid sentinel or the product
    /// leaves the signed 64-bit range.
    pub open spec fn checked_mul_spec(self, rhs: u32) -> Option<Timeval> {
        let s = self.us_total();
        if s != i64::MIN && in_i64(s * rhs) {
            Some(Timeval::from_us_spec(s * rhs))
        } else {
            None
        }
    }

    /// Multiplies the microsecond count by an unsigned scalar, reporting
    /// failure on overflow or a sentinel-valued operand.
    pub fn checked_mul(self, rhs: u32) -> (r: Option<Timeval>)
        requires
            in_i64(self.us_total()),
        ensures
            r == self.checked_mul_spec(rhs),
    {
        let a = self.as_us();
        match a.checked_mul(rhs) {
            Some(v) => Some(Timeval::from_us(v)),
            None => None,
        }
    }

    /// What `checked_div` returns: the timestamp of the microsecond count
    /// divided (truncating toward zero) by the scalar, unless the count
    /// equals the invalid sentinel or the divisor is zero.
    pub open spec fn checked_div_spec(self, rhs: u32) -> Option<Timeval> {
        let s = self.us_total();
        if s != i64::MIN && rhs != 0 {
            Some(Timeval::from_us_spec(div_trunc(s, rhs as int)))
        } else {
            None
        }
    }

    /// Divides the microsecond count by an unsigned scalar, truncating
    /// toward zero. A zero divisor or a sentinel-valued operand is a
    /// reported failure.
    pub fn checked_div(self, rhs: u32) -> (r: Option<Timeval>)
        requires
            in_i64(self.us_total()),
        ensures
            r == self.checked_div_spec(rhs),
    {
        let a = self.as_us();
        match a.checked_div(rhs) {
            Some(v) => Some(Timeval::from_us(v)),
            None => None,
        }
    }

    /// What `checked_rem` returns: the timestamp of the remainder of the
    /// microsecond count by the scalar (carrying the dividend's sign),
    /// unless the count equals the invalid sentinel or the divisor is zero.
    pub open spec fn checked_rem_spec(self, rhs: u32) -> Option<Timeval> {
        let s = self.us_total();
        if s != i64::MIN && rhs != 0 {
            Some(Timeval::from_us_spec(rem_trunc(s, rhs as int)))
        } else {
            None
        }
    }

    /// Takes the remainder of the microsecond count by an unsigned scalar,
    /// with the dividend's sign. A zero divisor or a sentinel-valued
    /// operand is a reported failure.
    pub fn checked_rem(self, rhs: u32) -> (r: Option<Timeval>)
        requires
            in_i64(self.us_total()),
        ensures
            r == self.checked_rem_spec(rhs),
    {
        let a = self.as_us();
        match a.checked_rem(rhs) {
            Some(v) => Some(Timeval::from_us(v)),
            None => None,
        }
    }

    /// This timestamp with the rtclock flag bit set in its fractional field.
    pub open spec fn with_rt_flag(self) -> Timeval {
        Timeval { tv_sec: self.tv_sec, tv_usec: self.tv_usec | PA_TIMEVAL_RTCLOCK }
    }

    /// The wallclock timestamp of the instant that a monotonic reading of
    /// `mono_total` microseconds denotes, given one snapshot of each clock:
    /// the offset between the two "now" readings, applied to the reading.
    pub open spec fn reconcile_spec(mono_total: int, wc_now: Timeval, rt_now: Timeval) -> Timeval {
        Timeval::from_us_spec(wc_now.us_total() + mono_total - rt_now.us_total())
    }

    /// What reconciliation needs of the two clock snapshots relative to a
    /// monotonic reading of `mono_total` microseconds: the clock difference
    /// and the reconciled instant must stay representable, and the wallclock
    /// snapshot's own count must be a valid microsecond value.
    pub open spec fn reconcile_pre(mono_total: int, wc_now: Timeval, rt_now: Timeval) -> bool {
        &&& -(i64::MAX as int) <= mono_total - rt_now.us_total() <= i64::MAX as int
        &&& i64::MIN < wc_now.us_total() <= i64::MAX
        &&& in_i64(wc_now.us_total() + mono_total - rt_now.us_total())
    }

    /// Rewrites this monotonic-origin timestamp into wallclock terms, given
    /// a wallclock snapshot and a monotonic snapshot taken at the same
    /// moment: the instant keeps its distance to the monotonic "now", now
    /// measured from the wallclock "now".
    pub fn wallclock_from_rtclock(&mut self, wc_now: &Timeval, rt_now: &Timeval)
        requires
            Timeval::reconcile_pre(old(self).us_total(), *wc_now, *rt_now),
        ensures
            *final(self) == Timeval::reconcile_spec(old(self).us_total(), *wc_now, *rt_now),
    {
        let cur = *self;
        let r = match rt_now.cmp(&cur) {
            Ordering::Less => wc_now.checked_add_us(Timeval::diff(&cur, rt_now)).unwrap(),
            _ => wc_now.checked_sub_us(Timeval::diff(rt_now, &cur)).unwrap(),
        };
        *self = r;
    }

    /// Stores the monotonic reading `v` into this timestamp. With `rtclock`
    /// true the decomposed value is marked with the rtclock flag bit; with
    /// `rtclock` false it is instead reconciled into wallclock terms using
    /// the two given clock snapshots. The invalid sentinel is not a
    /// reading, and is excluded by precondition.
    pub fn set_rt(&mut self, v: MicroSeconds, rtclock: bool, wc_now: &Timeval, rt_now: &Timeval)
        requires
            v.valid(),
            !rtclock ==> Timeval::reconcile_pre(v.0 as int, *wc_now, *rt_now),
        ensures
            rtclock ==> *final(self) == Timeval::from_us_spec(v.0 as int).with_rt_flag(),
            !rtclock ==> *final(self) == Timeval::reconcile_spec(v.0 as int, *wc_now, *rt_now),
    {
        let mut tv = Timeval::from_us(v);
        if rtclock {
            tv.tv_usec = tv.tv_usec | PA_TIMEVAL_RTCLOCK;
            *self = tv;
        } else {
            tv.wallclock_from_rtclock(wc_now, rt_now);
            *self = tv;
        }
    }
}

impl PartialOrd for Timeval {
    fn partial_cmp(&self, other: &Timeval) -> (r: Option<Ordering>) {
        Some(Timeval::cmp(self, other))
    }
}

impl vstd::std_specs::cmp::PartialOrdSpecImpl for Timeval {
    open spec fn obeys_partial_cmp_spec() -> bool {
        true
    }

    open spec fn partial_cmp_spec(&self, other: &Timeval) -> Option<Ordering> {
        Some(Timeval::cmp_spec(*self, *other))
    }
}

/// Comparison is trichotomous: it returns one of the three orderings, and it
/// returns `Equal` exactly when the two timestamps are equal.
pub proof fn lemma_cmp_trichotomy(a: Timeval, b: Timeval)
    ensures
        Timeval::cmp_spec(a, b) == Ordering::Less || Timeval::cmp_spec(a, b) == Ordering::Equal
            || Timeval::cmp_spec(a, b) == Ordering::Greater,
        Timeval::cmp_spec(a, b) == Ordering::Equal <==> a == b,
{
}

/// Comparison is antisymmetric: swapping the arguments reverses the
/// ordering.
pub proof fn lemma_cmp_flip(a: Timeval, b: Timeval)
    ensures
        Timeval::cmp_spec(a, b) == Ordering::Less <==> Timeval::cmp_spec(b, a)
            == Ordering::Greater,
        Timeval::cmp_spec(a, b) == Ordering::Equal <==> Timeval::cmp_spec(b, a)
            == Ordering::Equal,
{
}

/// Comparison is transitive: if `a` is below `b` and `b` below `c`, then
/// `a` is below `c`.
pub proof fn lemma_cmp_transitive(a: Timeval, b: Timeval, c: Timeval)
    requires
        Timeval::cmp_spec(a, b) == Ordering::Less,
        Timeval::cmp_spec(b, c) == Ordering::Less,
    ensures
        Timeval::cmp_spec(a, c) == Ordering::Less,
{
}

/// Round trip: decomposing a valid microsecond count into a timestamp loses
/// nothing; the timestamp denotes exactly that count again.
pub proof fn lemma_us_timeval_round_trip(v: MicroSeconds)
    requires
        v.valid(),
    ensures
        Timeval::from_us_spec(v.0 as int).us_total() == v.0,
{
    lemma_div_rem_trunc(v.0 as int, MICROS_PER_SEC as int);
    if v.0 == 0 {
        lemma_div_of0(MICROS_PER_SEC as int);
    }
}

/// The signed difference is antisymmetric: `diff(a, b) == -diff(b, a)`.
pub proof fn lemma_diff_antisym(a: Timeval, b: Timeval)
    ensures
        Timeval::diff_spec(a, b) == -Timeval::diff_spec(b, a),
{
}

/// Subtracting `diff(a, b)` from `a` recovers `b`: whenever the difference
/// and the counts are representable and `b` is in canonical decomposition,
/// the checked subtraction succeeds and returns `b` exactly.
pub proof fn lemma_diff_sub_recovers(a: Timeval, b: Timeval)
    requires
        -(i64::MAX as int) <= Timeval::diff_spec(a, b) <= i64::MAX as int,
        in_i64(a.us_total()),
        a.us_total() != i64::MIN,
        in_i64(b.us_total()),
        Timeval::from_us_spec(b.us_total()) == b,
    ensures
        a.checked_sub_us_spec(MicroSeconds(Timeval::diff_spec(a, b) as i64)) == Some(b),
{
    let d = Timeval::diff_spec(a, b);
    assert((d as i64) as int == d);
    assert(a.us_total() - d == b.us_total());
}

/// Storing a monotonic reading with the rtclock flag leaves the flag bit
/// set in the fractional field.
pub proof fn lemma_rt_flag_set(t: Timeval)
    ensures
        t.with_rt_flag().tv_usec & PA_TIMEVAL_RTCLOCK != 0,
        t.with_rt_flag().tv_sec == t.tv_sec,
{
    let u = t.tv_usec;
    assert((u | 0x4000_0000i64) & 0x4000_0000i64 != 0) by (bit_vector);
}

/// Reconciling a monotonic reading into wallclock terms leaves the rtclock
/// flag bit clear, provided the reconciled instant is non-negative (a
/// negative instant stores a negative fractional field, whose sign bits
/// overlap the flag).
pub proof fn lemma_reconcile_clears_flag(mono_total: int, wc_now: Timeval, rt_now: Timeval)
    requires
        0 <= wc_now.us_total() + mono_total - rt_now.us_total(),
    ensures
        Timeval::reconcile_spec(mono_total, wc_now, rt_now).tv_usec & PA_TIMEVAL_RTCLOCK == 0,
{
    let t = wc_now.us_total() + mono_total - rt_now.us_total();
    lemma_div_rem_trunc(t, MICROS_PER_SEC as int);
    let u = Timeval::reconcile_spec(mono_total, wc_now, rt_now).tv_usec;
    assert(0 <= u < 1_000_000i64 ==> u & 0x4000_0000i64 == 0) by (bit_vector);
}

} // verus!
