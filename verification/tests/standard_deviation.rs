use chrono::Utc;
use ta::indicators::StandardDeviation;
use ta::scalar::Scalar;

#[derive(Debug, Clone, Copy, PartialEq)]
struct Px(f64);

impl Scalar for Px {
    fn from_u64(n: u64) -> Self {
        Px(n as f64)
    }
    fn add(self, other: Self) -> Self {
        Px(self.0 + other.0)
    }
    fn sub(self, other: Self) -> Self {
        Px(self.0 - other.0)
    }
    fn mul(self, other: Self) -> Self {
        Px(self.0 * other.0)
    }
    fn div(self, other: Self) -> Self {
        Px(self.0 / other.0)
    }
    fn sqrt(self) -> Self {
        Px(self.0.sqrt())
    }
    fn powf(self, exponent: Self) -> Self {
        Px(self.0.powf(exponent.0))
    }
    fn less_than(self, other: Self) -> bool {
        self.0 < other.0
    }
    fn less_eq(self, other: Self) -> bool {
        self.0 <= other.0
    }
    fn is_zero(self) -> bool {
        self.0 == 0.0
    }
    fn to_text(&self) -> String {
        format!("{}", self.0)
    }
}

fn round(x: Px) -> f64 {
    (x.0 * 1000.0).round() / 1000.0
}

#[test]
fn standard_deviation_test_new() {
    assert!(StandardDeviation::<Px>::new(0).is_err());
    assert!(StandardDeviation::<Px>::new(1).is_ok());
}

#[test]
fn standard_deviation_test_next() {
    let mut sd = StandardDeviation::<Px>::new(4).unwrap();
    let now = Utc::now().timestamp();
    assert_eq!(sd.next(now + 1, Px(10.0)), Px(0.0));
    assert_eq!(sd.next(now + 2, Px(20.0)), Px(5.0));
    assert_eq!(round(sd.next(now + 3, Px(30.0))), 8.165);
    assert_eq!(round(sd.next(now + 4, Px(20.0))), 7.071);
    assert_eq!(round(sd.next(now + 5, Px(10.0))), 7.071);
    assert_eq!(round(sd.next(now + 6, Px(100.0))), 35.355);
}

#[test]
fn standard_deviation_test_reset() {
    let mut sd = StandardDeviation::<Px>::new(4).unwrap();
    let now = Utc::now().timestamp();
    assert_eq!(sd.next(now, Px(10.0)), Px(0.0));
    assert_eq!(sd.next(now + 1, Px(20.0)), Px(5.0));
    assert_eq!(round(sd.next(now + 2, Px(30.0))), 8.165);

    sd.reset();
    assert_eq!(sd.next(now + 3, Px(20.0)), Px(0.0));
}

#[test]
fn standard_deviation_test_default() {
    let _sd = StandardDeviation::<Px>::default();
}

#[test]
fn standard_deviation_test_display() {
    let indicator = StandardDeviation::<Px>::new(7).unwrap();
    assert_eq!(indicator.descriptor(), "SD(7s)");
}
