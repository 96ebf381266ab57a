//! Relative strength index: a bounded oscillator derived from two
//! time-weighted smoothers.
//!
//! The oscillator feeds the positive part of each price change into an
//! "average gain" smoother and the negative part into an "average loss"
//! smoother, each change scaled by the elapsed fraction of the nominal
//! period, and combines the two smoothed averages into a reading in
//! `[0, 100]`.

use vstd::prelude::*;
use vstd::string::StringExecFns;

use crate::errors::TaError;
use crate::indicators::exponential_moving_average::{smoother_clock, ExponentialMovingAverage};
use crate::scalar::Scalar;
use crate::text::{decimal_digits, u64_text};

verus! {

/// Relative strength index over a whole number of days: a duration of `n`
/// days yields two `n`-period smoothers with a one-day nominal period.
#[derive(Debug, Clone)]
pub struct RelativeStrengthIndex<V> {
    /// The characteristic duration, in whole seconds.
    pub duration_secs: u64,
    /// Smoothed average gain.
    pub up_ema_indicator: ExponentialMovingAverage<V>,
    /// Smoothed average loss.
    pub down_ema_indicator: ExponentialMovingAverage<V>,
    /// The closing value of the previous period, against which the next
    /// price change is measured.
    pub prev_val: Option<V>,
    /// The timestamp of the previous non-replacement update.
    pub prev_timestamp: Option<i64>,
}

impl<V: Scalar> RelativeStrengthIndex<V> {
    /// Both smoothers are valid and run over one-day nominal periods.
    pub open spec fn wf(self) -> bool {
        &&& self.up_ema_indicator.wf()
        &&& self.down_ema_indicator.wf()
        &&& self.up_ema_indicator.period_duration_secs == 86400
        &&& self.down_ema_indicator.period_duration_secs == 86400
    }

    /// A new oscillator over the given duration in whole seconds.  The
    /// smoothers' period count is the duration in whole days, so
    /// construction fails exactly when that count is zero — in particular
    /// for a zero duration.
    pub fn new(duration_secs: u64) -> (r: Result<Self, TaError>)
        requires
            duration_secs / 86400 <= usize::MAX,
        ensures
            r is Ok <==> duration_secs >= 86400,
            r matches Ok(s) ==> {
                &&& s.wf()
                &&& s.duration_secs == duration_secs
                &&& s.up_ema_indicator.period == duration_secs / 86400
                &&& s.down_ema_indicator.period == duration_secs / 86400
                &&& s.up_ema_indicator.is_new
                &&& s.down_ema_indicator.is_new
                &&& s.prev_val is None
                &&& s.prev_timestamp is None
            },
            r matches Err(e) ==> e == TaError::InvalidParameter,
    {
        let days = (duration_secs / 86400) as usize;
        if days == 0 {
            return Err(TaError::InvalidParameter);
        }
        let up = match ExponentialMovingAverage::new(days, 86400) {
            Ok(e) => e,
            // Construction with a positive period cannot fail.
            Err(_) => vstd::pervasive::unreached(),
        };
        let down = match ExponentialMovingAverage::new(days, 86400) {
            Ok(e) => e,
            Err(_) => vstd::pervasive::unreached(),
        };
        Ok(
            Self {
                duration_secs,
                up_ema_indicator: up,
                down_ema_indicator: down,
                prev_val: None,
                prev_timestamp: None,
            },
        )
    }

    /// Ingest one sample and return the oscillator reading.
    ///
    /// A sample at exactly the previously stored timestamp is a
    /// replacement: both smoothers are fed zero at that instant, and their
    /// own replacement algebra withdraws the previously fed change; the
    /// stored previous value and timestamp do not advance.  Otherwise the
    /// price change against the previous value, scaled by the elapsed
    /// fraction of the nominal period, is fed to the gain smoother when
    /// positive and to the loss smoother when negative, and the previous
    /// value and timestamp advance.
    ///
    /// The reading is `50` when both averages are zero, `100` when only
    /// the loss average is zero, and otherwise
    /// `100 - 100 / (1 + gain / loss)`.
    pub fn next(&mut self, timestamp: i64, value: V) -> (r: V)
        requires
            old(self).wf(),
        ensures
            final(self).wf(),
            final(self).duration_secs == old(self).duration_secs,
            old(self).prev_timestamp == Some(timestamp) ==> {
                &&& final(self).prev_timestamp == old(self).prev_timestamp
                &&& final(self).prev_val == old(self).prev_val
            },
            old(self).prev_timestamp != Some(timestamp) ==> {
                &&& final(self).prev_timestamp == Some(timestamp)
                &&& final(self).prev_val == Some(value)
            },
            final(self).up_ema_indicator.period == old(self).up_ema_indicator.period,
            final(self).down_ema_indicator.period == old(self).down_ema_indicator.period,
            final(self).up_ema_indicator.last_timestamp == smoother_clock(
                old(self).up_ema_indicator.is_new,
                old(self).up_ema_indicator.last_timestamp,
                timestamp,
            ),
            final(self).down_ema_indicator.last_timestamp == smoother_clock(
                old(self).down_ema_indicator.is_new,
                old(self).down_ema_indicator.last_timestamp,
                timestamp,
            ),
    {
        let is_replacement = match self.prev_timestamp {
            Some(t) => t == timestamp,
            None => false,
        };
        let zero = V::from_u64(0);
        let (gain, loss): (V, V) = if is_replacement {
            // Replacement of the same instant: the smoothers' own
            // replacement algebra withdraws the previously fed change.
            (zero, zero)
        } else {
            match (self.prev_val, self.prev_timestamp) {
                (Some(prev), Some(prev_ts)) => {
                    let elapsed = timestamp as i128 - prev_ts as i128;
                    if elapsed > 0 {
                        let time_factor = V::from_u64(elapsed as u64).div(
                            V::from_u64(self.up_ema_indicator.period_duration_secs),
                        );
                        if prev.less_than(value) {
                            (value.sub(prev).mul(time_factor), zero)
                        } else {
                            (zero, prev.sub(value).mul(time_factor))
                        }
                    } else {
                        // Out of order: the smoothers ignore this instant.
                        (zero, zero)
                    }
                },
                _ => (zero, zero),
            }
        };
        if !is_replacement {
            self.prev_val = Some(value);
            self.prev_timestamp = Some(timestamp);
        }
        let avg_up = self.up_ema_indicator.next(timestamp, gain);
        let avg_down = self.down_ema_indicator.next(timestamp, loss);
        if avg_down.is_zero() {
            if avg_up.is_zero() {
                // No movement either way: neutral.
                V::from_u64(50)
            } else {
                // Only gains.
                V::from_u64(100)
            }
        } else {
            let hundred = V::from_u64(100);
            let rs = avg_up.div(avg_down);
            hundred.sub(hundred.div(V::from_u64(1).add(rs)))
        }
    }

    /// Return the oscillator to its post-construction state; the duration
    /// and the smoothers' parameters are retained.
    pub fn reset(&mut self)
        ensures
            final(self).duration_secs == old(self).duration_secs,
            final(self).up_ema_indicator.period == old(self).up_ema_indicator.period,
            final(self).down_ema_indicator.period == old(self).down_ema_indicator.period,
            final(self).up_ema_indicator.is_new,
            final(self).down_ema_indicator.is_new,
            final(self).prev_val is None,
            final(self).prev_timestamp is None,
            old(self).wf() ==> final(self).wf(),
    {
        self.up_ema_indicator.reset();
        self.down_ema_indicator.reset();
        self.prev_val = None;
        self.prev_timestamp = None;
    }

    /// The human-readable descriptor, for example `RSI(16 days)`.
    pub fn descriptor(&self) -> (s: String)
        ensures
            s@ == "RSI("@ + decimal_digits((self.duration_secs / 86400) as nat) + " days)"@,
    {
        let mut s = String::from_str("RSI(");
        s.append(u64_text(self.duration_secs / 86400).as_str());
        s.append(" days)");
        s
    }
}

impl<V: Scalar> Default for RelativeStrengthIndex<V> {
    /// A 14-day oscillator.
    fn default() -> (d: Self)
        ensures
            d.wf(),
            d.duration_secs == 14 * 24 * 60 * 60,
    {
        match Self::new(14 * 24 * 60 * 60) {
            Ok(r) => r,
            // Fourteen days yield a positive period count.
            Err(_) => vstd::pervasive::unreached(),
        }
    }
}

} // verus!
