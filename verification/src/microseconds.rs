//! A signed 64-bit count of microseconds with a reserved "invalid" bit
//! pattern, checked arithmetic that never wraps, and conversions to and from
//! `core::time::Duration`.

use vstd::prelude::*;
use vstd::arithmetic::div_mod::{
    lemma_div_of0, lemma_div_pos_is_pos, lemma_div_nonincreasing, lemma_fundamental_div_mod,
    lemma_mod_bound,
};
use core::time::Duration;

verus! {

/// Number of microseconds in one second.
pub const MICROS_PER_SEC: i64 = 1_000_000;

/// Truncating (round-toward-zero) division, the semantics of `/` on the
/// machine's signed integers, for a positive divisor `d`.
pub open spec fn div_trunc(x: int, d: int) -> int
    recommends
        d > 0,
{
    if x >= 0 {
        x / d
    } else {
        -((-x) / d)
    }
}

/// The remainder matching `div_trunc`: it carries the sign of the dividend,
/// the semantics of `%` on the machine's signed integers, for a positive
/// divisor `d`.
pub open spec fn rem_trunc(x: int, d: int) -> int
    recommends
        d > 0,
{
    if x >= 0 {
        x % d
    } else {
        -((-x) % d)
    }
}

/// Truncating division and remainder reassemble the dividend exactly, the
/// quotient's magnitude never exceeds the dividend's, and the remainder's
/// magnitude is below the divisor, with the dividend's sign.
pub proof fn lemma_div_rem_trunc(x: int, d: int)
    requires
        d > 0,
    ensures
        d * div_trunc(x, d) + rem_trunc(x, d) == x,
        x >= 0 ==> 0 <= div_trunc(x, d) <= x && 0 <= rem_trunc(x, d) < d,
        x < 0 ==> x <= div_trunc(x, d) <= 0 && -d < rem_trunc(x, d) <= 0,
{
    if x >= 0 {
        lemma_fundamental_div_mod(x, d);
        lemma_div_pos_is_pos(x, d);
        lemma_div_nonincreasing(x, d);
        lemma_mod_bound(x, d);
    } else {
        lemma_fundamental_div_mod(-x, d);
        lemma_div_pos_is_pos(-x, d);
        lemma_div_nonincreasing(-x, d);
        lemma_mod_bound(-x, d);
        assert(d * (-((-x) / d)) == -(d * ((-x) / d))) by (nonlinear_arith);
    }
}

/// The total number of whole microseconds a `core::time::Duration` holds:
/// the value that `core::time::Duration::as_micros` returns, which depends
/// on the duration alone.
pub uninterp spec fn duration_micros(d: Duration) -> int;

/// A duration (or signed time offset) counted in microseconds.
///
/// The bit pattern `i64::MIN` is reserved as the "invalid/unknown" sentinel:
/// it is not a duration, and every arithmetic operation that receives it as
/// an operand reports failure instead of computing with it.
#[derive(Clone, Copy, PartialEq, Eq, Structural, Debug)]
pub struct MicroSeconds(pub i64);

impl MicroSeconds {
    /// A value is valid when it is not the reserved invalid sentinel.
    pub open spec fn valid(self) -> bool {
        self.0 != i64::MIN
    }

    /// The reserved invalid sentinel.
    pub fn invalid() -> (r: MicroSeconds)
        ensures
            r.0 == i64::MIN,
            !r.valid(),
    {
        MicroSeconds(i64::MIN)
    }

    /// Whether `self` is a valid duration (not the invalid sentinel).
    pub fn is_valid(&self) -> (b: bool)
        ensures
            b == self.valid(),
    {
        self.0 != i64::MIN
    }

    /// What `checked_add` returns: the exact sum when both operands are valid
    /// and the sum is representable, and nothing otherwise.
    pub open spec fn checked_add_spec(self, other: MicroSeconds) -> Option<MicroSeconds> {
        if self.valid() && other.valid() && i64::MIN <= self.0 + other.0 <= i64::MAX {
            Some(MicroSeconds((self.0 + other.0) as i64))
        } else {
            None
        }
    }

    /// Adds two durations, reporting failure on overflow or an invalid
    /// operand instead of wrapping.
    pub fn checked_add(self, other: MicroSeconds) -> (r: Option<MicroSeconds>)
        ensures
            r == self.checked_add_spec(other),
    {
        if !self.is_valid() || !other.is_valid() {
            return None;
        }
        match self.0.checked_add(other.0) {
            Some(v) => Some(MicroSeconds(v)),
            None => None,
        }
    }

    /// What `checked_sub` returns: the exact difference when both operands
    /// are valid and the difference is representable, and nothing otherwise.
    pub open spec fn checked_sub_spec(self, other: MicroSeconds) -> Option<MicroSeconds> {
        if self.valid() && other.valid() && i64::MIN <= self.0 - other.0 <= i64::MAX {
            Some(MicroSeconds((self.0 - other.0) as i64))
        } else {
            None
        }
    }

    /// Subtracts a duration, reporting failure on overflow or an invalid
    /// operand instead of wrapping.
    pub fn checked_sub(self, other: MicroSeconds) -> (r: Option<MicroSeconds>)
        ensures
            r == self.checked_sub_spec(other),
    {
        if !self.is_valid() || !other.is_valid() {
            return None;
        }
        match self.0.checked_sub(other.0) {
            Some(v) => Some(MicroSeconds(v)),
            None => None,
        }
    }

    /// What `checked_mul` returns: the exact product when the operand is
    /// valid and the product is representable, and nothing otherwise.
    pub open spec fn checked_mul_spec(self, rhs: u32) -> Option<MicroSeconds> {
        if self.valid() && i64::MIN <= self.0 * rhs <= i64::MAX {
            Some(MicroSeconds((self.0 * rhs) as i64))
        } else {
            None
        }
    }

    /// Multiplies a duration by an unsigned scalar, reporting failure on
    /// overflow or an invalid operand instead of wrapping.
    pub fn checked_mul(self, rhs: u32) -> (r: Option<MicroSeconds>)
        ensures
            r == self.checked_mul_spec(rhs),
    {
        if !self.is_valid() {
            return None;
        }
        match self.0.checked_mul(rhs as i64) {
            Some(v) => Some(MicroSeconds(v)),
            None => None,
        }
    }

    /// What `checked_div` returns: the quotient, truncated toward zero, when
    /// the operand is valid and the divisor nonzero, and nothing otherwise.
    pub open spec fn checked_div_spec(self, rhs: u32) -> Option<MicroSeconds> {
        if self.valid() && rhs != 0 {
            Some(MicroSeconds(div_trunc(self.0 as int, rhs as int) as i64))
        } else {
            None
        }
    }

    /// Divides a duration by an unsigned scalar, truncating toward zero.
    /// A zero divisor or an invalid operand is a reported failure, not an
    /// abort.
    pub fn checked_div(self, rhs: u32) -> (r: Option<MicroSeconds>)
        ensures
            r == self.checked_div_spec(rhs),
    {
        if !self.is_valid() || rhs == 0 {
            return None;
        }
        let q = self.0.checked_div(rhs as i64);
        proof {
            lemma_div_rem_trunc(self.0 as int, rhs as int);
            if self.0 == 0 {
                lemma_div_of0(rhs as int);
            }
        }
        Some(MicroSeconds(q.unwrap()))
    }

    /// What `checked_rem` returns: the remainder matching truncating
    /// division (it carries the dividend's sign) when the operand is valid
    /// and the divisor nonzero, and nothing otherwise.
    pub open spec fn checked_rem_spec(self, rhs: u32) -> Option<MicroSeconds> {
        if self.valid() && rhs != 0 {
            Some(MicroSeconds(rem_trunc(self.0 as int, rhs as int) as i64))
        } else {
            None
        }
    }

    /// Takes the remainder of a duration by an unsigned scalar, with the
    /// dividend's sign. A zero divisor or an invalid operand is a reported
    /// failure, not an abort.
    pub fn checked_rem(self, rhs: u32) -> (r: Option<MicroSeconds>)
        ensures
            r == self.checked_rem_spec(rhs),
    {
        if !self.is_valid() || rhs == 0 {
            return None;
        }
        let q = self.0.checked_rem(rhs as i64);
        proof {
            lemma_div_rem_trunc(self.0 as int, rhs as int);
        }
        Some(MicroSeconds(q.unwrap()))
    }

    /// Relies on `core::time::Duration::as_micros`: the total number of
    /// whole microseconds contained by the duration (`duration_micros`),
    /// which is non-negative; the conversion through `i64::try_from`
    /// preserves the count and reports failure exactly when it does not fit.
    #[verifier::external_body]
    fn micros_of_duration(d: &Duration) -> (r: Option<i64>)
        ensures
            r matches Some(m) ==> m == duration_micros(*d),
            r is Some <==> 0 <= duration_micros(*d) <= i64::MAX,
    {
        i64::try_from(d.as_micros()).ok()
    }

    /// Converts a wallclock duration to microseconds. Succeeds if and only
    /// if the duration's microsecond count fits the representable range; the
    /// result is then exactly that count, a valid non-negative value.
    pub fn from_duration(d: &Duration) -> (r: Option<MicroSeconds>)
        ensures
            r matches Some(m) ==> m.0 == duration_micros(*d) && 0 <= m.0 && m.valid(),
            r is Some <==> 0 <= duration_micros(*d) <= i64::MAX,
    {
        match Self::micros_of_duration(d) {
            Some(m) => Some(MicroSeconds(m)),
            None => None,
        }
    }

    /// Relies on `core::time::Duration::from_micros`: builds the duration of
    /// exactly the given number of microseconds.
    #[verifier::external_body]
    fn duration_of_micros(us: u64) -> (r: Duration)
        ensures
            duration_micros(r) == us as int,
    {
        Duration::from_micros(us)
    }

    /// Converts to a wallclock duration. Durations are non-negative, so this
    /// succeeds if and only if `self` is valid and non-negative, and the
    /// duration then holds exactly `self`'s count of microseconds.
    pub fn to_duration(self) -> (r: Option<Duration>)
        ensures
            r is Some <==> self.valid() && self.0 >= 0,
            r matches Some(d) ==> duration_micros(d) == self.0,
    {
        if self.is_valid() && self.0 >= 0 {
            Some(Self::duration_of_micros(self.0 as u64))
        } else {
            None
        }
    }
}

/// Commutativity of checked addition: for all valid operands the checked sum
/// does not depend on the order of its arguments, and whenever the exact sum
/// is representable in the signed 64-bit range the result is exactly that sum.
pub proof fn lemma_checked_add_comm(a: MicroSeconds, b: MicroSeconds)
    ensures
        a.checked_add_spec(b) == b.checked_add_spec(a),
        a.valid() && b.valid() && i64::MIN <= a.0 + b.0 <= i64::MAX ==> a.checked_add_spec(b)
            == Some(MicroSeconds((a.0 + b.0) as i64)),
{
}

} // verus!
