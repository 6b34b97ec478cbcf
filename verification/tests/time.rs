use core::cmp::Ordering;
use core::time::Duration;
use pulse::MicroSeconds;
use pulse::Timeval;
use pulse::PA_TIMEVAL_RTCLOCK;

#[test]
fn checked_add_exact_and_commutative() {
    let a = MicroSeconds(5);
    let b = MicroSeconds(7);
    assert_eq!(a.checked_add(b), Some(MicroSeconds(12)));
    assert_eq!(b.checked_add(a), Some(MicroSeconds(12)));
    let c = MicroSeconds(-3);
    assert_eq!(a.checked_add(c), Some(MicroSeconds(2)));
    assert_eq!(c.checked_add(a), Some(MicroSeconds(2)));
}

#[test]
fn checked_add_overflow_is_reported() {
    assert_eq!(MicroSeconds(i64::MAX).checked_add(MicroSeconds(1)), None);
    assert_eq!(MicroSeconds(i64::MAX).checked_add(MicroSeconds(i64::MAX)), None);
}

#[test]
fn checked_ops_reject_the_invalid_sentinel() {
    let inv = MicroSeconds::invalid();
    assert!(!inv.is_valid());
    assert_eq!(inv.checked_add(MicroSeconds(1)), None);
    assert_eq!(MicroSeconds(1).checked_add(inv), None);
    assert_eq!(inv.checked_sub(MicroSeconds(1)), None);
    assert_eq!(MicroSeconds(1).checked_sub(inv), None);
    assert_eq!(inv.checked_mul(2), None);
    assert_eq!(inv.checked_div(2), None);
    assert_eq!(inv.checked_rem(2), None);
}

#[test]
fn checked_sub_exact() {
    assert_eq!(MicroSeconds(5).checked_sub(MicroSeconds(7)), Some(MicroSeconds(-2)));
    assert_eq!(MicroSeconds(i64::MIN + 1).checked_sub(MicroSeconds(2)), None);
}

#[test]
fn checked_mul_exact_and_overflow() {
    assert_eq!(MicroSeconds(3).checked_mul(4), Some(MicroSeconds(12)));
    assert_eq!(MicroSeconds(-3).checked_mul(4), Some(MicroSeconds(-12)));
    assert_eq!(MicroSeconds(i64::MAX).checked_mul(2), None);
}

#[test]
fn checked_div_truncates_toward_zero() {
    assert_eq!(MicroSeconds(7).checked_div(2), Some(MicroSeconds(3)));
    assert_eq!(MicroSeconds(-7).checked_div(2), Some(MicroSeconds(-3)));
    assert_eq!(MicroSeconds(7).checked_div(0), None);
}

#[test]
fn checked_rem_carries_dividend_sign() {
    assert_eq!(MicroSeconds(7).checked_rem(2), Some(MicroSeconds(1)));
    assert_eq!(MicroSeconds(-7).checked_rem(2), Some(MicroSeconds(-1)));
    assert_eq!(MicroSeconds(7).checked_rem(0), None);
}

#[test]
fn duration_round_trip() {
    let d = Duration::new(1, 500_000_000);
    assert_eq!(MicroSeconds::from_duration(&d), Some(MicroSeconds(1_500_000)));
    assert_eq!(MicroSeconds(1_500_000).to_duration(), Some(Duration::from_micros(1_500_000)));
    assert_eq!(MicroSeconds(-1).to_duration(), None);
    assert_eq!(MicroSeconds::invalid().to_duration(), None);
    assert_eq!(MicroSeconds::from_duration(&Duration::new(u64::MAX, 0)), None);
}

#[test]
fn timeval_us_round_trip() {
    let v = MicroSeconds(2_500_000);
    let tv = Timeval::from_us(v);
    assert_eq!(tv, Timeval::new(2, 500_000));
    assert_eq!(tv.as_us(), v);

    let neg = MicroSeconds(-1_500_000);
    let tvn = Timeval::from_us(neg);
    assert_eq!(tvn, Timeval::new(-1, -500_000));
    assert_eq!(tvn.as_us(), neg);
}

#[test]
fn diff_is_signed_and_antisymmetric() {
    let a = Timeval::new(3, 250_000);
    let b = Timeval::new(1, 750_000);
    assert_eq!(Timeval::diff(&a, &b), MicroSeconds(1_500_000));
    assert_eq!(Timeval::diff(&b, &a), MicroSeconds(-1_500_000));
}

#[test]
fn diff_then_sub_recovers_the_subtrahend() {
    let a = Timeval::new(3, 250_000);
    let b = Timeval::new(1, 750_000);
    let d = Timeval::diff(&a, &b);
    assert_eq!(a.checked_sub_us(d), Some(b));
}

#[test]
fn age_is_now_minus_self() {
    let t = Timeval::new(10, 0);
    let now = Timeval::new(12, 500_000);
    assert_eq!(t.age(&now), MicroSeconds(2_500_000));
}

#[test]
fn cmp_is_lexicographic_on_raw_fields() {
    assert_eq!(Timeval::new(1, 0).cmp(&Timeval::new(2, 0)), Ordering::Less);
    assert_eq!(Timeval::new(1, 5).cmp(&Timeval::new(1, 6)), Ordering::Less);
    assert_eq!(Timeval::new(1, 6).cmp(&Timeval::new(1, 5)), Ordering::Greater);
    assert_eq!(Timeval::new(1, 5).cmp(&Timeval::new(1, 5)), Ordering::Equal);
    // The rtclock flag bit takes part numerically.
    assert_eq!(
        Timeval::new(0, PA_TIMEVAL_RTCLOCK).cmp(&Timeval::new(0, 999_999)),
        Ordering::Greater
    );
    // The comparison operators follow the same order.
    assert!(Timeval::new(1, 0) < Timeval::new(2, 0));
    assert!(Timeval::new(1, 6) > Timeval::new(1, 5));
    assert_eq!(
        Timeval::new(1, 5).partial_cmp(&Timeval::new(1, 5)),
        Some(Ordering::Equal)
    );
    // Transitivity across three samples.
    let a = Timeval::new(0, 999_999);
    let b = Timeval::new(1, 0);
    let c = Timeval::new(1, 1);
    assert_eq!(a.cmp(&b), Ordering::Less);
    assert_eq!(b.cmp(&c), Ordering::Less);
    assert_eq!(a.cmp(&c), Ordering::Less);
}

#[test]
fn checked_add_carries_across_the_microsecond_boundary() {
    let r = Timeval::new(100, 500_000).checked_add(Timeval::new(0, 600_000));
    assert_eq!(r, Some(Timeval::new(101, 100_000)));
}

#[test]
fn checked_add_us_and_duration() {
    let t = Timeval::new(100, 500_000);
    assert_eq!(t.checked_add_us(MicroSeconds(600_000)), Some(Timeval::new(101, 100_000)));
    assert_eq!(
        t.checked_add_duration(Duration::from_micros(600_000)),
        Some(Timeval::new(101, 100_000))
    );
    assert_eq!(t.checked_add_us(MicroSeconds::invalid()), None);
}

#[test]
fn checked_sub_variants() {
    let t = Timeval::new(101, 100_000);
    assert_eq!(t.checked_sub(Timeval::new(0, 600_000)), Some(Timeval::new(100, 500_000)));
    assert_eq!(t.checked_sub_us(MicroSeconds(600_000)), Some(Timeval::new(100, 500_000)));
    assert_eq!(
        t.checked_sub_duration(Duration::from_micros(600_000)),
        Some(Timeval::new(100, 500_000))
    );
}

#[test]
fn checked_scalar_ops_on_timeval() {
    assert_eq!(Timeval::new(2, 500_000).checked_mul(3), Some(Timeval::new(7, 500_000)));
    assert_eq!(Timeval::new(7, 500_000).checked_div(3), Some(Timeval::new(2, 500_000)));
    assert_eq!(Timeval::new(0, 7).checked_rem(3), Some(Timeval::new(0, 1)));
    assert_eq!(Timeval::new(1, 0).checked_div(0), None);
    assert_eq!(Timeval::new(1, 0).checked_rem(0), None);
}

#[test]
fn set_rt_true_sets_the_flag_bit() {
    let wc = Timeval::new(1_000, 0);
    let rt = Timeval::new(100, 0);
    let mut tv = Timeval::new_zero();
    tv.set_rt(MicroSeconds(1_500_000), true, &wc, &rt);
    assert_ne!(tv.tv_usec & PA_TIMEVAL_RTCLOCK, 0);
    assert_eq!(tv.tv_sec, 1);
    assert_eq!(tv.tv_usec, 500_000 | PA_TIMEVAL_RTCLOCK);
}

#[test]
fn set_rt_false_reconciles_and_clears_the_flag_bit() {
    let wc = Timeval::new(1_000, 0);
    let rt = Timeval::new(100, 0);
    let mut tv = Timeval::new_zero();
    // 150 s on the monotonic clock, 50 s after the monotonic "now", lands
    // 50 s after the wallclock "now".
    tv.set_rt(MicroSeconds(150_000_000), false, &wc, &rt);
    assert_eq!(tv, Timeval::new(1_050, 0));
    assert_eq!(tv.tv_usec & PA_TIMEVAL_RTCLOCK, 0);
}

#[test]
fn wallclock_from_rtclock_future_and_past() {
    let wc = Timeval::new(1_000, 0);
    let rt = Timeval::new(100, 0);

    let mut future = Timeval::new(150, 250_000);
    future.wallclock_from_rtclock(&wc, &rt);
    assert_eq!(future, Timeval::new(1_050, 250_000));

    let mut past = Timeval::new(50, 0);
    past.wallclock_from_rtclock(&wc, &rt);
    assert_eq!(past, Timeval::new(950, 0));
}
