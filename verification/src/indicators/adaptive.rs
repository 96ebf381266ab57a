//! Time-based de-duplication for indicators.
//!
//! An [`AdaptiveTimeDetector`] classifies every incoming timestamp as
//! "replace the current observation slot" or "start a new slot".  The
//! strategy is fixed at construction from the indicator's characteristic
//! duration:
//!
//! - duration under 5 minutes: second-level bucketing,
//! - duration under 1 day: minute-level bucketing,
//! - duration of a day or more: daily slots with a minimum gap of 3 hours
//!   24 minutes between retained points, so that half-day sessions
//!   (about 3.5 hours) and full-day sessions (about 6.5 hours) each retain
//!   an opening and a closing point while minutely updates keep replacing
//!   the current slot.
//!
//! Timestamps are whole seconds since the epoch.

use vstd::arithmetic::div_mod::{lemma_fundamental_div_mod, lemma_fundamental_div_mod_converse_div};
use vstd::prelude::*;

verus! {

/// Minimum gap, in seconds, between retained points in daily mode:
/// 3 hours 24 minutes.
pub const DAILY_MIN_GAP_SECS: u64 = 3 * 3600 + 24 * 60;

/// The frequency mode used for de-duplication.
#[derive(Debug, Clone, Copy, PartialEq, Eq, Structural)]
pub enum DetectedFrequency {
    /// No mode selected.  Kept for call-site compatibility with an earlier
    /// revision that learned the mode from sample history; construction now
    /// always selects a mode immediately, so this variant is never produced.
    Unknown,
    /// Daily mode: a retained point opens a slot, and later timestamps
    /// within [`DAILY_MIN_GAP_SECS`] of the slot start replace it.
    DailyOHLC,
    /// Bucketed intraday mode, with the bucket width in whole seconds.
    Intraday(u64),
}

/// The mode selection rule, from the characteristic duration in seconds.
pub open spec fn mode_for_duration(duration_secs: u64) -> DetectedFrequency {
    if duration_secs < 300 {
        DetectedFrequency::Intraday(1)
    } else if duration_secs < 86400 {
        DetectedFrequency::Intraday(60)
    } else {
        DetectedFrequency::DailyOHLC
    }
}

/// The bucket id of `ts` for the given bucket width: the floor of
/// `ts / width` (spec division is Euclidean, which rounds toward negative
/// infinity for a positive divisor).
pub open spec fn bucket_key(ts: i64, width: u64) -> int {
    (ts as int) / (width as int)
}

/// The bucket id as the `i64` the detector stores.  For any positive width
/// the mathematical key is within `i64` range, so the conversion is exact
/// (see `lemma_bucket_key_fits`).
pub open spec fn bucket_key_i64(ts: i64, width: u64) -> i64 {
    bucket_key(ts, width) as i64
}

/// Whether a daily-mode detector whose current slot starts at `last`
/// replaces at `ts`: only when `ts` lies strictly between the slot start
/// and the slot start plus the minimum gap.  A timestamp at or before the
/// slot start, like one at or beyond the gap, opens a new slot.
pub open spec fn daily_replaces(last: Option<i64>, ts: i64) -> bool {
    match last {
        Some(t0) => t0 < ts < t0 + DAILY_MIN_GAP_SECS,
        None => false,
    }
}

/// Handles time-based de-duplication logic for indicators.
#[derive(Debug, Clone)]
pub struct AdaptiveTimeDetector {
    /// The mode, fixed at construction.
    pub frequency: DetectedFrequency,
    /// Bucketed modes: the bucket id of the most recent timestamp.
    pub last_minute_bucket: Option<i64>,
    /// Daily mode: the start of the current slot.
    pub last_timestamp: Option<i64>,
}

impl AdaptiveTimeDetector {
    /// A bucketed mode always carries a positive bucket width.
    pub open spec fn wf(self) -> bool {
        match self.frequency {
            DetectedFrequency::Intraday(w) => w > 0,
            _ => true,
        }
    }

    /// The decision [`Self::should_replace`] returns for timestamp `ts`.
    pub open spec fn replaces(self, ts: i64) -> bool {
        match self.frequency {
            DetectedFrequency::Intraday(w) => self.last_minute_bucket == Some(
                bucket_key_i64(ts, w),
            ),
            DetectedFrequency::DailyOHLC => daily_replaces(self.last_timestamp, ts),
            DetectedFrequency::Unknown => false,
        }
    }

    /// The detector state after [`Self::should_replace`] processes `ts`:
    /// bucketed modes store the new key unconditionally; daily mode anchors
    /// a new slot at `ts` exactly when the decision was "new slot".
    pub open spec fn stepped(self, ts: i64) -> AdaptiveTimeDetector {
        match self.frequency {
            DetectedFrequency::Intraday(w) => AdaptiveTimeDetector {
                frequency: self.frequency,
                last_minute_bucket: Some(bucket_key_i64(ts, w)),
                last_timestamp: self.last_timestamp,
            },
            DetectedFrequency::DailyOHLC => if daily_replaces(self.last_timestamp, ts) {
                self
            } else {
                AdaptiveTimeDetector {
                    frequency: self.frequency,
                    last_minute_bucket: self.last_minute_bucket,
                    last_timestamp: Some(ts),
                }
            },
            DetectedFrequency::Unknown => AdaptiveTimeDetector {
                frequency: self.frequency,
                last_minute_bucket: self.last_minute_bucket,
                last_timestamp: Some(ts),
            },
        }
    }

    /// Create a new detector for a specific indicator duration, given in
    /// whole seconds.
    pub fn new(duration_secs: u64) -> (d: Self)
        ensures
            d.frequency == mode_for_duration(duration_secs),
            d.last_minute_bucket is None,
            d.last_timestamp is None,
            d.wf(),
    {
        let frequency = if duration_secs < 300 {
            // Second buckets for very short-term indicators (< 5 minutes).
            DetectedFrequency::Intraday(1)
        } else if duration_secs < 86400 {
            // Minute buckets for short-term indicators (< 1 day).
            DetectedFrequency::Intraday(60)
        } else {
            // Daily bucketing with gap enforcement for long-term indicators.
            DetectedFrequency::DailyOHLC
        };
        Self { frequency, last_minute_bucket: None, last_timestamp: None }
    }

    /// Create a new detector with custom detection samples.
    ///
    /// Deprecated alias for [`Self::new`]: the sample count is ignored,
    /// since the mode is now fixed from the duration alone.
    pub fn with_samples(_detection_samples: usize, duration_secs: u64) -> (d: Self)
        ensures
            d.frequency == mode_for_duration(duration_secs),
            d.last_minute_bucket is None,
            d.last_timestamp is None,
            d.wf(),
    {
        Self::new(duration_secs)
    }

    /// Get the current frequency mode.
    pub fn frequency(&self) -> (f: &DetectedFrequency)
        ensures
            *f == self.frequency,
    {
        &self.frequency
    }

    /// Process a new timestamp and determine whether it should replace the
    /// previous value (`true`) or start a new time period (`false`).
    pub fn should_replace(&mut self, timestamp: i64) -> (r: bool)
        requires
            old(self).wf(),
        ensures
            r == old(self).replaces(timestamp),
            *final(self) == old(self).stepped(timestamp),
            final(self).wf(),
    {
        match self.frequency {
            DetectedFrequency::Intraday(bucket_secs) => {
                let current_bucket = floor_div(timestamp, bucket_secs);
                proof {
                    lemma_bucket_key_fits(timestamp, bucket_secs);
                }
                let r = match self.last_minute_bucket {
                    Some(k) => k == current_bucket,
                    None => false,
                };
                self.last_minute_bucket = Some(current_bucket);
                r
            },
            DetectedFrequency::DailyOHLC => {
                if let Some(last_ts) = self.last_timestamp {
                    let diff = timestamp as i128 - last_ts as i128;
                    // Strictly within the minimum gap: replace, and keep the
                    // slot anchored where it is.  A non-positive difference
                    // opens a new slot instead.
                    if 0 < diff && diff < DAILY_MIN_GAP_SECS as i128 {
                        return true;
                    }
                }
                self.last_timestamp = Some(timestamp);
                false
            },
            DetectedFrequency::Unknown => {
                self.last_timestamp = Some(timestamp);
                false
            },
        }
    }

    /// Reset the detector to its initial state; the mode is retained.
    pub fn reset(&mut self)
        ensures
            final(self).frequency == old(self).frequency,
            final(self).last_minute_bucket is None,
            final(self).last_timestamp is None,
            old(self).wf() ==> final(self).wf(),
    {
        self.last_minute_bucket = None;
        self.last_timestamp = None;
    }

    /// Whether a frequency mode has been selected.  Always true, since the
    /// mode is determined immediately from the duration.
    pub fn is_detected(&self) -> (b: bool)
        ensures
            b == (self.frequency != DetectedFrequency::Unknown),
    {
        self.frequency != DetectedFrequency::Unknown
    }
}

/// Floor division of a signed timestamp by a positive width.
fn floor_div(a: i64, w: u64) -> (q: i64)
    requires
        w > 0,
    ensures
        q == (a as int) / (w as int),
{
    if a >= 0 {
        let q = a as u64 / w;
        proof {
            lemma_bucket_key_fits(a, w);
        }
        q as i64
    } else {
        // floor(a / w) == -1 - ((-a - 1) / w) for a < 0, since writing
        // -a - 1 = q*w + r with 0 <= r < w gives a = (-q - 1)*w + (w - 1 - r).
        let na = -(a + 1);
        let nq = (na as u64) / w;
        proof {
            lemma_floor_div_negative(a, w);
        }
        -1 - (nq as i64)
    }
}

/// For a positive width, the mathematical bucket key of an `i64` timestamp
/// is itself within `i64` range, so storing it as an `i64` is exact.
pub proof fn lemma_bucket_key_fits(ts: i64, width: u64)
    requires
        width > 0,
    ensures
        i64::MIN <= bucket_key(ts, width) <= i64::MAX,
        bucket_key_i64(ts, width) == bucket_key(ts, width),
{
    let t = ts as int;
    let w = width as int;
    let q = t / w;
    let r = t % w;
    lemma_fundamental_div_mod(t, w);
    if q > i64::MAX {
        assert(w * q >= q) by (nonlinear_arith)
            requires
                w >= 1 && q > 0,
        ;
        assert(false);
    }
    if q < i64::MIN {
        assert(w * (q + 1) <= q + 1) by (nonlinear_arith)
            requires
                w >= 1 && q + 1 <= 0,
        ;
        assert(t == w * q + r);
        assert(w * (q + 1) == w * q + w) by (nonlinear_arith);
        assert(t < w * q + w);
        assert(false);
    }
}

/// The quotient identity behind the negative branch of `floor_div`.
proof fn lemma_floor_div_negative(a: i64, w: u64)
    requires
        a < 0,
        w > 0,
    ensures
        (a as int) / (w as int) == -1 - ((-(a as int) - 1) / (w as int)),
{
    let t = a as int;
    let w_ = w as int;
    let n = -t - 1;
    let q = n / w_;
    let r = n % w_;
    lemma_fundamental_div_mod(n, w_);
    assert(n == w_ * q + r);
    assert(t == -n - 1);
    assert((-q - 1) * w_ + (w_ - 1 - r) == -(w_ * q) - w_ + w_ - 1 - r) by (nonlinear_arith);
    assert(t == (-q - 1) * w_ + (w_ - 1 - r));
    lemma_fundamental_div_mod_converse_div(t, w_, -q - 1, w_ - 1 - r);
}

/// Daily-gap law: relative to an open slot start `t0`, a timestamp strictly
/// inside the gap window replaces and leaves the detector unchanged, while a
/// timestamp at or beyond the gap, or at or before the slot start, opens a
/// new slot anchored at that timestamp.
pub proof fn lemma_daily_gap_policy(d: AdaptiveTimeDetector, t0: i64, ts: i64)
    requires
        d.frequency == DetectedFrequency::DailyOHLC,
        d.last_timestamp == Some(t0),
    ensures
        t0 < ts < t0 + DAILY_MIN_GAP_SECS ==> d.replaces(ts) && d.stepped(ts) == d,
        ts >= t0 + DAILY_MIN_GAP_SECS ==> !d.replaces(ts) && d.stepped(ts).last_timestamp == Some(
            ts,
        ),
        ts <= t0 ==> !d.replaces(ts) && d.stepped(ts).last_timestamp == Some(ts),
{
}

/// Bucketed-mode law: the decision is a pure function of equality between
/// the floor of `ts / width` and the stored key, and the key is stored
/// unconditionally.  In particular, when a fresh key arrives the decision is
/// "new slot", and an immediately following timestamp with the same key is
/// then a replacement.
pub proof fn lemma_bucket_purity(d: AdaptiveTimeDetector, ts1: i64, ts2: i64, w: u64)
    requires
        d.wf(),
        d.frequency == DetectedFrequency::Intraday(w),
    ensures
        d.replaces(ts1) <==> (d.last_minute_bucket matches Some(k) && k == bucket_key(ts1, w)),
        bucket_key(ts1, w) == bucket_key(ts2, w) ==> d.stepped(ts1).replaces(ts2),
        d.last_minute_bucket != Some(bucket_key_i64(ts1, w)) ==> !d.replaces(ts1) && d.stepped(
            ts1,
        ).replaces(ts1),
{
    lemma_bucket_key_fits(ts1, w);
    lemma_bucket_key_fits(ts2, w);
}

} // verus!
