//! Time-weighted exponential smoothing.
//!
//! A fixed-constant exponential moving average assumes exactly one sample
//! per nominal period.  This smoother instead compounds the per-period
//! decay constant over the wall-clock time actually elapsed between
//! samples, so irregular sampling cadence does not distort the smoothing:
//! minute bars fed into a 14-day smoother move it by the corresponding
//! fraction, and the fixed-cadence result is recovered when the cadence
//! matches the period.

use vstd::prelude::*;
use vstd::string::StringExecFns;

use crate::errors::TaError;
use crate::scalar::Scalar;
use crate::text::{decimal_digits, u64_text};

verus! {

/// The descriptor text, with the period duration shown in the largest
/// whole unit (days, then hours, then minutes, else seconds) that divides
/// it evenly.
pub open spec fn ema_descriptor(period: usize, secs: u64) -> Seq<char> {
    if secs >= 86400 && secs % 86400 == 0 {
        "EMA("@ + decimal_digits(period as nat) + " x "@ + decimal_digits((secs / 86400) as nat)
            + " days)"@
    } else if secs >= 3600 && secs % 3600 == 0 {
        "EMA("@ + decimal_digits(period as nat) + " x "@ + decimal_digits((secs / 3600) as nat)
            + " hours)"@
    } else if secs >= 60 && secs % 60 == 0 {
        "EMA("@ + decimal_digits(period as nat) + " x "@ + decimal_digits((secs / 60) as nat)
            + " min)"@
    } else {
        "EMA("@ + decimal_digits(period as nat) + " x "@ + decimal_digits(secs as nat) + " sec)"@
    }
}

/// How one update at `ts` advances a smoother's stored timestamp: the
/// first sample stores it, a strictly later sample advances it, and a
/// replacement or out-of-order sample leaves it unchanged.
pub open spec fn smoother_clock(is_new: bool, last: Option<i64>, ts: i64) -> Option<i64> {
    if is_new {
        Some(ts)
    } else {
        match last {
            Some(lt) => if ts > lt {
                Some(ts)
            } else {
                last
            },
            None => None,
        }
    }
}

/// Time-weighted exponential moving average over `period` nominal periods
/// of `period_duration_secs` seconds each.  The base decay constant is
/// `2 / (period + 1)`.
#[derive(Debug, Clone)]
pub struct ExponentialMovingAverage<V> {
    /// Number of nominal periods; fixes the base decay constant.
    pub period: usize,
    /// Length of one nominal period, in whole seconds.
    pub period_duration_secs: u64,
    /// Base decay constant `2 / (period + 1)`.
    pub k: V,
    /// The current estimate.
    pub current: V,
    /// Whether no sample has been ingested yet.
    pub is_new: bool,
    /// The most recently ingested value.
    pub last_value: V,
    /// The timestamp of the most recent non-replacement update.
    pub last_timestamp: Option<i64>,
    /// The decay fraction applied on the most recent non-replacement
    /// update; used to undo and redo that blend when the same instant is
    /// replaced.
    pub last_adjusted_k: V,
}

impl<V: Scalar> ExponentialMovingAverage<V> {
    /// Positive parameters, and the initialisation flag mirrors whether a
    /// timestamp has been stored.
    pub open spec fn wf(self) -> bool {
        &&& self.period > 0
        &&& self.period_duration_secs > 0
        &&& (self.is_new <==> self.last_timestamp is None)
    }

    /// A new smoother.  Fails exactly when the period count or the period
    /// duration is zero.
    pub fn new(period: usize, period_duration_secs: u64) -> (r: Result<Self, TaError>)
        ensures
            r is Ok <==> (period > 0 && period_duration_secs > 0),
            r matches Ok(e) ==> e.wf() && e.period == period && e.period_duration_secs
                == period_duration_secs && e.is_new && e.last_timestamp is None,
            r matches Err(err) ==> err == TaError::InvalidParameter,
    {
        if period == 0 || period_duration_secs == 0 {
            Err(TaError::InvalidParameter)
        } else {
            Ok(
                Self {
                    period,
                    period_duration_secs,
                    k: V::from_u64(2).div(V::from_u64(period as u64).add(V::from_u64(1))),
                    current: V::from_u64(0),
                    is_new: true,
                    last_value: V::from_u64(0),
                    last_timestamp: None,
                    last_adjusted_k: V::from_u64(0),
                },
            )
        }
    }

    /// A period-based smoother: each period is one day.  Kept for
    /// call-site compatibility.
    pub fn new_period_based(period: usize) -> (r: Result<Self, TaError>)
        ensures
            r is Ok <==> period > 0,
            r matches Ok(e) ==> e.wf() && e.period == period && e.period_duration_secs == 86400
                && e.is_new && e.last_timestamp is None,
            r matches Err(err) ==> err == TaError::InvalidParameter,
    {
        Self::new(period, 86400)
    }

    /// The decay fraction for an update at `timestamp`: for the first
    /// sample the full weight; for a later timestamp the per-period
    /// constant compounded over the elapsed fraction of a period,
    /// `1 - (1 - k) ^ (elapsed / period_duration)`; for a non-advancing
    /// timestamp zero.
    fn calculate_adjusted_k(&self, timestamp: i64) -> V
        requires
            self.period_duration_secs > 0,
    {
        match self.last_timestamp {
            Some(last_ts) => {
                let elapsed = timestamp as i128 - last_ts as i128;
                if elapsed <= 0 {
                    // Time has not moved forward: no update.
                    V::from_u64(0)
                } else {
                    let periods_elapsed = V::from_u64(elapsed as u64).div(
                        V::from_u64(self.period_duration_secs),
                    );
                    V::from_u64(1).sub(V::from_u64(1).sub(self.k).powf(periods_elapsed))
                }
            },
            None => V::from_u64(1),
        }
    }

    /// Ingest one sample and return the updated estimate.
    ///
    /// - The first sample ever becomes the estimate.
    /// - A sample at exactly the stored timestamp replaces the value of
    ///   that instant: the previous blend is undone algebraically through
    ///   the stored decay fraction and reapplied with the new value; the
    ///   stored timestamp and decay fraction do not advance.
    /// - A strictly later sample is blended in with the time-adjusted
    ///   decay fraction, which is stored together with the timestamp.
    /// - An earlier sample is ignored: the state does not change.
    pub fn next(&mut self, timestamp: i64, value: V) -> (r: V)
        requires
            old(self).wf(),
        ensures
            final(self).wf(),
            final(self).period == old(self).period,
            final(self).period_duration_secs == old(self).period_duration_secs,
            final(self).k == old(self).k,
            r == final(self).current,
            !final(self).is_new,
            final(self).last_timestamp == smoother_clock(
                old(self).is_new,
                old(self).last_timestamp,
                timestamp,
            ),
            old(self).is_new ==> {
                &&& !final(self).is_new
                &&& final(self).last_timestamp == Some(timestamp)
                &&& final(self).last_value == value
                &&& final(self).current == value
            },
            (!old(self).is_new && old(self).last_timestamp == Some(timestamp)) ==> {
                &&& !final(self).is_new
                &&& final(self).last_timestamp == old(self).last_timestamp
                &&& final(self).last_adjusted_k == old(self).last_adjusted_k
                &&& final(self).last_value == value
            },
            (old(self).last_timestamp matches Some(lt) && timestamp > lt) ==> {
                &&& !final(self).is_new
                &&& final(self).last_timestamp == Some(timestamp)
                &&& final(self).last_value == value
            },
            (old(self).last_timestamp matches Some(lt) && timestamp < lt) ==> {
                &&& *final(self) == *old(self)
                &&& r == old(self).current
            },
    {
        if self.is_new {
            self.is_new = false;
            self.current = value;
            self.last_value = value;
            self.last_timestamp = Some(timestamp);
            // The first value enters with full weight.
            self.last_adjusted_k = V::from_u64(1);
            self.current
        } else if let Some(last_ts) = self.last_timestamp {
            if timestamp == last_ts {
                // Same instant: undo the previous blend and reapply it
                // with the new value at the same decay fraction.
                let zero = V::from_u64(0);
                let one = V::from_u64(1);
                if zero.less_than(self.last_adjusted_k) && self.last_adjusted_k.less_than(one) {
                    let old_current = self.current.sub(
                        self.last_adjusted_k.mul(self.last_value),
                    ).div(one.sub(self.last_adjusted_k));
                    self.current = self.last_adjusted_k.mul(value).add(
                        one.sub(self.last_adjusted_k).mul(old_current),
                    );
                } else if one.less_eq(self.last_adjusted_k) {
                    // Full weight: the replacement value stands alone.
                    self.current = value;
                }
                // A zero decay fraction leaves the estimate unchanged.
                self.last_value = value;
            } else if timestamp > last_ts {
                let adjusted_k = self.calculate_adjusted_k(timestamp);
                let one = V::from_u64(1);
                self.current = adjusted_k.mul(value).add(one.sub(adjusted_k).mul(self.current));
                self.last_adjusted_k = adjusted_k;
                self.last_timestamp = Some(timestamp);
                self.last_value = value;
            }
            // An earlier timestamp is a no-op.
            self.current
        } else {
            // Inert: initialisation always stores a timestamp.
            self.current
        }
    }

    /// Return the smoother to its pre-data state; period and period
    /// duration are retained.
    pub fn reset(&mut self)
        ensures
            final(self).period == old(self).period,
            final(self).period_duration_secs == old(self).period_duration_secs,
            final(self).k == old(self).k,
            final(self).is_new,
            final(self).last_timestamp is None,
            old(self).wf() ==> final(self).wf(),
    {
        self.current = V::from_u64(0);
        self.is_new = true;
        self.last_value = V::from_u64(0);
        self.last_timestamp = None;
        self.last_adjusted_k = V::from_u64(0);
    }

    /// The smoothing constant (alpha) used in the calculation.
    pub fn smoothing_constant(&self) -> (k: V)
        ensures
            k == self.k,
    {
        self.k
    }

    /// The number of nominal periods.
    pub fn period(&self) -> (p: usize)
        ensures
            p == self.period,
    {
        self.period
    }

    /// The nominal period duration, in whole seconds.
    pub fn period_duration(&self) -> (d: u64)
        ensures
            d == self.period_duration_secs,
    {
        self.period_duration_secs
    }

    /// The human-readable descriptor, for example `EMA(14 x 1 days)`.
    pub fn descriptor(&self) -> (s: String)
        ensures
            s@ == ema_descriptor(self.period, self.period_duration_secs),
    {
        let secs = self.period_duration_secs;
        let mut s = String::from_str("EMA(");
        s.append(usize_text(self.period).as_str());
        s.append(" x ");
        if secs >= 86400 && secs % 86400 == 0 {
            s.append(u64_text(secs / 86400).as_str());
            s.append(" days)");
        } else if secs >= 3600 && secs % 3600 == 0 {
            s.append(u64_text(secs / 3600).as_str());
            s.append(" hours)");
        } else if secs >= 60 && secs % 60 == 0 {
            s.append(u64_text(secs / 60).as_str());
            s.append(" min)");
        } else {
            s.append(u64_text(secs).as_str());
            s.append(" sec)");
        }
        s
    }
}

/// Renders a `usize` in decimal.
fn usize_text(n: usize) -> (s: String)
    ensures
        s@ == decimal_digits(n as nat),
{
    u64_text(n as u64)
}

impl<V: Scalar> Default for ExponentialMovingAverage<V> {
    /// A 14-period smoother over 14 days.
    fn default() -> (d: Self)
        ensures
            d.wf(),
            d.period == 14,
            d.period_duration_secs == 14 * 86400,
    {
        match Self::new(14, 14 * 86400) {
            Ok(e) => e,
            // Construction with positive parameters cannot fail.
            Err(_) => vstd::pervasive::unreached(),
        }
    }
}

} // verus!
