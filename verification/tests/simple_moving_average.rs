use chrono::Utc;
use ta::indicators::SimpleMovingAverage;
use ta::scalar::Scalar;

#[derive(Debug, Clone, Copy, PartialEq)]
struct Px(f64);

impl Scalar for Px {
    fn from_u64(n: u64) -> Self {
        Px(n as f64)
    }
    fn add(self, other: Self) -> Self {
        Px(self.0 + other.0)
    }
    fn sub(self, other: Self) -> Self {
        Px(self.0 - other.0)
    }
    fn mul(self, other: Self) -> Self {
        Px(self.0 * other.0)
    }
    fn div(self, other: Self) -> Self {
        Px(self.0 / other.0)
    }
    fn sqrt(self) -> Self {
        Px(self.0.sqrt())
    }
    fn powf(self, exponent: Self) -> Self {
        Px(self.0.powf(exponent.0))
    }
    fn less_than(self, other: Self) -> bool {
        self.0 < other.0
    }
    fn less_eq(self, other: Self) -> bool {
        self.0 <= other.0
    }
    fn is_zero(self) -> bool {
        self.0 == 0.0
    }
    fn to_text(&self) -> String {
        format!("{}", self.0)
    }
}

#[test]
fn simple_moving_average_test_new() {
    assert!(SimpleMovingAverage::<Px>::new(0).is_err());
    assert!(SimpleMovingAverage::<Px>::new(1).is_ok());
}

#[test]
fn simple_moving_average_test_next() {
    let duration: i64 = 4;
    let mut sma = SimpleMovingAverage::<Px>::new(4).unwrap();
    let start_time = Utc::now().timestamp();
    let elapsed_time: i64 = 1;
    assert_eq!(sma.next(start_time, Px(4.0)), Px(4.0));
    assert_eq!(sma.next(start_time + elapsed_time, Px(5.0)), Px(4.5));
    assert_eq!(sma.next(start_time + elapsed_time * 2, Px(6.0)), Px(5.0));
    assert_eq!(sma.next(start_time + elapsed_time * 3, Px(6.0)), Px(5.25));
    assert_eq!(sma.next(start_time + elapsed_time * 4, Px(6.0)), Px(5.75));
    assert_eq!(sma.next(start_time + elapsed_time * 5, Px(6.0)), Px(6.0));
    assert_eq!(sma.next(start_time + elapsed_time * 6, Px(2.0)), Px(5.0));
    // test explicit out of bounds
    assert_eq!(sma.next(start_time + elapsed_time * 6 + duration, Px(2.0)), Px(2.0));
}

#[test]
fn simple_moving_average_test_reset() {
    let mut sma = SimpleMovingAverage::<Px>::new(4).unwrap();
    let start_time = Utc::now().timestamp();
    let elapsed_time: i64 = 1;
    assert_eq!(sma.next(start_time, Px(4.0)), Px(4.0));
    assert_eq!(sma.next(start_time + elapsed_time, Px(5.0)), Px(4.5));
    assert_eq!(sma.next(start_time + elapsed_time * 2, Px(6.0)), Px(5.0));

    sma.reset();
    assert_eq!(sma.next(start_time + elapsed_time * 3, Px(99.0)), Px(99.0));
}

#[test]
fn simple_moving_average_test_default() {
    let _sma = SimpleMovingAverage::<Px>::default();
}

#[test]
fn simple_moving_average_test_display() {
    let indicator = SimpleMovingAverage::<Px>::new(7).unwrap();
    assert_eq!(indicator.descriptor(), "SMA(7s)");
}

#[test]
fn simple_moving_average_get_window_contents() {
    let mut sma = SimpleMovingAverage::<Px>::new(60).unwrap();
    let t0 = 1_700_000_000i64;
    sma.next(t0, Px(1.0));
    sma.next(t0 + 1, Px(2.0));
    let window = sma.get_window();
    assert_eq!(window.len(), 2);
    assert_eq!(window[0].timestamp, t0);
    assert_eq!(window[0].value, Px(1.0));
    assert_eq!(window[1].timestamp, t0 + 1);
    assert_eq!(window[1].value, Px(2.0));
}

#[test]
fn simple_moving_average_state_round_trip() {
    // A second instance rebuilt from the extracted state behaves exactly
    // like the live original on identical further input.
    let mut sma = SimpleMovingAverage::<Px>::new(20).unwrap();
    let start_time = Utc::now().timestamp();
    sma.next(start_time, Px(2.0));
    sma.next(start_time + 5, Px(3.0));

    let (duration_secs, entries, sum) = sma.get_internal_state();
    let mut rebuilt = SimpleMovingAverage {
        window: ta::window::SlidingWindow {
            duration_secs,
            boundary: ta::window::EvictionBoundary::Inclusive,
            entries,
        },
        sum,
        detector: sma.detector.clone(),
    };
    assert_eq!(rebuilt.next(start_time + 7, Px(4.0)), sma.next(start_time + 7, Px(4.0)));
    assert_eq!(rebuilt.next(start_time + 30, Px(1.0)), sma.next(start_time + 30, Px(1.0)));
}
