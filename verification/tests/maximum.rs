use chrono::{TimeZone, Utc};
use ta::indicators::Maximum;
use ta::scalar::Scalar;

#[derive(Debug, Clone, Copy, PartialEq)]
struct Px(f64);

impl Scalar for Px {
    fn from_u64(n: u64) -> Self {
        Px(n as f64)
    }
    fn add(self, other: Self) -> Self {
        Px(self.0 + other.0)
    }
    fn sub(self, other: Self) -> Self {
        Px(self.0 - other.0)
    }
    fn mul(self, other: Self) -> Self {
        Px(self.0 * other.0)
    }
    fn div(self, other: Self) -> Self {
        Px(self.0 / other.0)
    }
    fn sqrt(self) -> Self {
        Px(self.0.sqrt())
    }
    fn powf(self, exponent: Self) -> Self {
        Px(self.0.powf(exponent.0))
    }
    fn less_than(self, other: Self) -> bool {
        self.0 < other.0
    }
    fn less_eq(self, other: Self) -> bool {
        self.0 <= other.0
    }
    fn is_zero(self) -> bool {
        self.0 == 0.0
    }
    fn to_text(&self) -> String {
        format!("{}", self.0)
    }
}

#[test]
fn maximum_test_new() {
    assert!(Maximum::<Px>::new(0).is_err());
    assert!(Maximum::<Px>::new(1).is_ok());
}

#[test]
fn maximum_test_next() {
    let mut max = Maximum::<Px>::new(2).unwrap();
    let start_time = Utc.with_ymd_and_hms(2020, 1, 1, 0, 0, 0).unwrap().timestamp();

    assert_eq!(max.next(start_time, Px(4.0)), Px(4.0));
    assert_eq!(max.next(start_time + 1, Px(1.2)), Px(4.0));
    assert_eq!(max.next(start_time + 2, Px(5.0)), Px(5.0));
    assert_eq!(max.next(start_time + 3, Px(3.0)), Px(5.0));
    assert_eq!(max.next(start_time + 4, Px(4.0)), Px(4.0));
    assert_eq!(max.next(start_time + 5, Px(0.0)), Px(4.0));
    assert_eq!(max.next(start_time + 6, Px(-1.0)), Px(0.0));
    assert_eq!(max.next(start_time + 7, Px(-2.0)), Px(-1.0));
    assert_eq!(max.next(start_time + 8, Px(-1.5)), Px(-1.5));
}

#[test]
fn maximum_test_reset() {
    let mut max = Maximum::<Px>::new(100).unwrap();
    let start_time = Utc.with_ymd_and_hms(2020, 1, 1, 0, 0, 0).unwrap().timestamp();

    assert_eq!(max.next(start_time, Px(4.0)), Px(4.0));
    assert_eq!(max.next(start_time + 50, Px(10.0)), Px(10.0));
    assert_eq!(max.next(start_time + 100, Px(4.0)), Px(10.0));

    max.reset();
    assert_eq!(max.next(start_time + 150, Px(4.0)), Px(4.0));
}

#[test]
fn maximum_test_default() {
    let _ = Maximum::<Px>::default();
}

#[test]
fn maximum_test_display() {
    let indicator = Maximum::<Px>::new(7).unwrap();
    assert_eq!(indicator.descriptor(), "MAX(7s)");
}
