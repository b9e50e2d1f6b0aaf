use spotify_player::span::TimeSpan;

const MAX_SECS: u64 = 9_223_372_036_854_775;
const MAX_NANOS: u32 = 807_000_000;

#[test]
fn new_accepts_nanos_below_a_second() {
    assert_eq!(TimeSpan::new(3, 999_999_999), Some(TimeSpan { secs: 3, nanos: 999_999_999 }));
    assert_eq!(TimeSpan::new(3, 1_000_000_000), None);
    assert_eq!(TimeSpan::zero(), TimeSpan { secs: 0, nanos: 0 });
}

#[test]
fn from_millis_splits_seconds_and_nanos() {
    assert_eq!(TimeSpan::from_millis(10_000), TimeSpan { secs: 10, nanos: 0 });
    assert_eq!(TimeSpan::from_millis(1_234), TimeSpan { secs: 1, nanos: 234_000_000 });
    assert_eq!(TimeSpan::from_millis(0), TimeSpan { secs: 0, nanos: 0 });
    assert_eq!(
        TimeSpan::from_millis(u64::MAX),
        TimeSpan { secs: 18_446_744_073_709_551, nanos: 615_000_000 }
    );
}

#[test]
fn is_before_orders_by_length() {
    let a = TimeSpan { secs: 1, nanos: 5 };
    let b = TimeSpan { secs: 1, nanos: 6 };
    let c = TimeSpan { secs: 2, nanos: 0 };
    assert!(a.is_before(&b));
    assert!(b.is_before(&c));
    assert!(!b.is_before(&a));
    assert!(!a.is_before(&a));
}

#[test]
fn saturating_sub_borrows_and_saturates() {
    let later = TimeSpan { secs: 10, nanos: 100 };
    let earlier = TimeSpan { secs: 4, nanos: 200 };
    assert_eq!(later.saturating_sub(&earlier), TimeSpan { secs: 5, nanos: 999_999_900 });
    assert_eq!(earlier.saturating_sub(&later), TimeSpan { secs: 0, nanos: 0 });
    assert_eq!(later.saturating_sub(&later), TimeSpan { secs: 0, nanos: 0 });
    assert_eq!(
        TimeSpan { secs: 10, nanos: 300 }.saturating_sub(&earlier),
        TimeSpan { secs: 6, nanos: 100 }
    );
}

#[test]
fn to_delta_keeps_what_fits() {
    let d = TimeSpan { secs: 5, nanos: 250 };
    assert_eq!(d.to_delta(), Some(d));
    let max = TimeSpan { secs: MAX_SECS, nanos: MAX_NANOS };
    assert_eq!(max.to_delta(), Some(max));
}

#[test]
fn to_delta_refuses_what_is_too_long() {
    assert_eq!(TimeSpan { secs: MAX_SECS, nanos: MAX_NANOS + 1 }.to_delta(), None);
    assert_eq!(TimeSpan { secs: MAX_SECS + 1, nanos: 0 }.to_delta(), None);
    assert_eq!(TimeSpan { secs: u64::MAX, nanos: 999_999_999 }.to_delta(), None);
}

#[test]
fn checked_add_carries_nanos() {
    let a = TimeSpan { secs: 1, nanos: 600_000_000 };
    let b = TimeSpan { secs: 2, nanos: 500_000_000 };
    assert_eq!(a.checked_add(&b), Some(TimeSpan { secs: 4, nanos: 100_000_000 }));
    assert_eq!(a.checked_add(&TimeSpan::zero()), Some(a));
    assert_eq!(
        TimeSpan::from_millis(10_000).checked_add(&TimeSpan::from_millis(5_000)),
        Some(TimeSpan { secs: 15, nanos: 0 })
    );
}

#[test]
fn checked_add_refuses_a_sum_that_is_too_long() {
    let max = TimeSpan { secs: MAX_SECS, nanos: MAX_NANOS };
    assert_eq!(max.checked_add(&TimeSpan { secs: 0, nanos: 1 }), None);
    assert_eq!(max.checked_add(&max), None);
    assert_eq!(max.checked_add(&TimeSpan::zero()), Some(max));
    let almost = TimeSpan { secs: MAX_SECS, nanos: MAX_NANOS - 1 };
    assert_eq!(almost.checked_add(&TimeSpan { secs: 0, nanos: 1 }), Some(max));
}
