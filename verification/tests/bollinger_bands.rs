use chrono::Utc;
use ta::indicators::BollingerBands;
use ta::scalar::Scalar;

#[derive(Debug, Clone, Copy, PartialEq)]
struct Px(f64);

impl Scalar for Px {
    fn from_u64(n: u64) -> Self {
        Px(n as f64)
    }
    fn add(self, other: Self) -> Self {
        Px(self.0 + other.0)
    }
    fn sub(self, other: Self) -> Self {
        Px(self.0 - other.0)
    }
    fn mul(self, other: Self) -> Self {
        Px(self.0 * other.0)
    }
    fn div(self, other: Self) -> Self {
        Px(self.0 / other.0)
    }
    fn sqrt(self) -> Self {
        Px(self.0.sqrt())
    }
    fn powf(self, exponent: Self) -> Self {
        Px(self.0.powf(exponent.0))
    }
    fn less_than(self, other: Self) -> bool {
        self.0 < other.0
    }
    fn less_eq(self, other: Self) -> bool {
        self.0 <= other.0
    }
    fn is_zero(self) -> bool {
        self.0 == 0.0
    }
    fn to_text(&self) -> String {
        format!("{}", self.0)
    }
}

fn round(x: Px) -> f64 {
    (x.0 * 1000.0).round() / 1000.0
}

const DAY: i64 = 86400;

#[test]
fn bollinger_bands_test_new() {
    assert!(BollingerBands::<Px>::new(0, Px(2.0)).is_err());
    assert!(BollingerBands::<Px>::new(86400, Px(2.0)).is_ok()); // 1 day
    assert!(BollingerBands::<Px>::new(172800, Px(2.0)).is_ok()); // 2 days
}

#[test]
fn bollinger_bands_test_next() {
    let mut bb = BollingerBands::<Px>::new(3 * 86400, Px(2.0)).unwrap(); // 3 days
    let now = Utc::now().timestamp();

    let a = bb.next(now, Px(2.0));
    let b = bb.next(now + DAY, Px(5.0));
    let c = bb.next(now + 2 * DAY, Px(1.0));
    let d = bb.next(now + 3 * DAY, Px(6.25));

    assert_eq!(round(a), 2.0);
    assert_eq!(round(b), 6.5);
    assert_eq!(round(c), 6.066);
    assert_eq!(round(d), 8.562);
}

#[test]
fn bollinger_bands_test_reset() {
    let mut bb = BollingerBands::<Px>::new(5 * 86400, Px(2.0)).unwrap(); // 5 days
    let now = Utc::now().timestamp();

    let out = bb.next(now, Px(3.0));

    assert_eq!(out, Px(3.0));

    bb.next(now + DAY, Px(2.5));
    bb.next(now + 2 * DAY, Px(3.5));
    bb.next(now + 3 * DAY, Px(4.0));

    let out = bb.next(now + 4 * DAY, Px(2.0));

    assert_eq!(round(out), 4.414);

    bb.reset();
    let out = bb.next(now, Px(3.0));
    assert_eq!(out, Px(3.0));
}

#[test]
fn bollinger_bands_multiplier_getter() {
    let bb = BollingerBands::<Px>::new(86400, Px(2.5)).unwrap();
    assert_eq!(bb.multiplier(), Px(2.5));
}

#[test]
fn bollinger_bands_output_fields() {
    let out = ta::indicators::BollingerBandsOutput { average: Px(3.0), upper: Px(4.0), lower: Px(2.0) };
    assert_eq!(out, out.clone());
    assert!(out.lower.0 < out.average.0 && out.average.0 < out.upper.0);
}

#[test]
fn bollinger_bands_test_default() {
    BollingerBands::<Px>::default();
}

#[test]
fn bollinger_bands_test_display() {
    let bb = BollingerBands::<Px>::new(10 * 86400, Px(3.0)).unwrap();
    assert_eq!(bb.descriptor(), format!("BB({}s, 3)", 10 * 86400));
}
