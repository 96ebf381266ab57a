//! Population standard deviation over a sliding time window.

use vstd::prelude::*;
use vstd::string::StringExecFns;

use crate::errors::TaError;
use crate::indicators::adaptive::{mode_for_duration, AdaptiveTimeDetector};
use crate::scalar::Scalar;
use crate::text::{decimal_digits, u64_text};
use crate::window::{
    entries_within, in_order_replay, ingested, lemma_window_eviction_bound, sorted_by_time,
    EvictionBoundary, Sample, SlidingWindow,
};

verus! {

/// Population standard deviation of the retained samples, via the running
/// sum and sum of squares: `sqrt((sum_sq - sum * mean) / n)`.
#[derive(Debug, Clone)]
pub struct StandardDeviation<V> {
    /// The retained samples; entries exactly `duration` old are evicted.
    pub window: SlidingWindow<V>,
    /// Running sum of the retained values.
    pub sum: V,
    /// Running sum of the squares of the retained values.
    pub sum_sq: V,
    /// Decides replace-or-append per incoming timestamp.
    pub detector: AdaptiveTimeDetector,
}

impl<V: Scalar> StandardDeviation<V> {
    /// The window has a positive duration, evicts inclusively, and the
    /// detector mode matches the duration.
    pub open spec fn wf(self) -> bool {
        &&& self.window.duration_secs > 0
        &&& self.window.boundary == EvictionBoundary::Inclusive
        &&& self.detector.wf()
        &&& self.detector.frequency == mode_for_duration(self.window.duration_secs)
    }

    /// A new indicator over the given window duration in whole seconds.
    /// Fails exactly when the duration is zero.
    pub fn new(duration_secs: u64) -> (r: Result<Self, TaError>)
        ensures
            r is Ok <==> duration_secs > 0,
            r matches Ok(s) ==> s.wf() && s.window.duration_secs == duration_secs
                && s.window.entries@.len() == 0 && s.detector.last_minute_bucket is None
                && s.detector.last_timestamp is None,
            r matches Err(e) ==> e == TaError::InvalidParameter,
    {
        if duration_secs == 0 {
            Err(TaError::InvalidParameter)
        } else {
            Ok(Self::new_unchecked(duration_secs))
        }
    }

    fn new_unchecked(duration_secs: u64) -> (s: Self)
        requires
            duration_secs > 0,
        ensures
            s.wf(),
            s.window.duration_secs == duration_secs,
            s.window.entries@.len() == 0,
            s.detector.last_minute_bucket is None,
            s.detector.last_timestamp is None,
    {
        Self {
            window: SlidingWindow::new(duration_secs, EvictionBoundary::Inclusive),
            sum: V::from_u64(0),
            sum_sq: V::from_u64(0),
            detector: AdaptiveTimeDetector::new(duration_secs),
        }
    }

    /// A copy of the retained samples, oldest first.
    pub fn get_window(&self) -> (w: Vec<Sample<V>>)
        ensures
            w@ == self.window.entries@,
    {
        self.window.cloned_entries()
    }

    /// The mean of the retained values, zero for an empty window.
    pub fn mean(&self) -> V {
        if self.window.entries.len() > 0 {
            self.sum.div(V::from_u64(self.window.entries.len() as u64))
        } else {
            V::from_u64(0)
        }
    }

    /// Ingest one sample and return the population standard deviation of
    /// the retained values.
    ///
    /// The update follows the shared protocol: evict entries at or past the
    /// duration boundary, replace the newest entry when the detector says
    /// the timestamp falls in the current slot, append the sample, and keep
    /// the running sum and sum of squares in step with every removal and
    /// insertion.
    pub fn next(&mut self, timestamp: i64, value: V) -> (r: V)
        requires
            old(self).wf(),
        ensures
            final(self).wf(),
            final(self).window.duration_secs == old(self).window.duration_secs,
            final(self).window.boundary == old(self).window.boundary,
            final(self).detector == old(self).detector.stepped(timestamp),
            final(self).window.entries@ == ingested(
                old(self).window.entries@,
                timestamp - old(self).window.duration_secs,
                EvictionBoundary::Inclusive,
                old(self).detector.replaces(timestamp),
                timestamp,
                value,
            ),
            final(self).window.entries@.len() > 0,
            final(self).window.entries@.last() == (Sample { timestamp: timestamp, value: value }),
            in_order_replay(old(self).window.entries@, timestamp) ==> {
                &&& sorted_by_time(final(self).window.entries@)
                &&& entries_within(
                    final(self).window.entries@,
                    timestamp,
                    old(self).window.duration_secs,
                    EvictionBoundary::Inclusive,
                )
            },
    {
        let ghost s0 = self.window.entries@;
        let duration_secs = self.window.duration_secs;
        let replace = self.detector.should_replace(timestamp);
        let (evicted, replaced) = self.window.ingest(timestamp, value, replace);
        proof {
            if in_order_replay(s0, timestamp) {
                lemma_window_eviction_bound(
                    s0,
                    duration_secs,
                    EvictionBoundary::Inclusive,
                    replace,
                    timestamp,
                    value,
                );
            }
        }
        let ghost mid = *self;
        let mut i: usize = 0;
        while i < evicted.len()
            invariant
                i <= evicted.len(),
                self.window == mid.window,
                self.detector == mid.detector,
            decreases evicted.len() - i,
        {
            let old_value = evicted[i].value;
            self.sum = self.sum.sub(old_value);
            self.sum_sq = self.sum_sq.sub(old_value.mul(old_value));
            i = i + 1;
        }
        if let Some(e) = replaced {
            self.sum = self.sum.sub(e.value);
            self.sum_sq = self.sum_sq.sub(e.value.mul(e.value));
        }
        self.sum = self.sum.add(value);
        self.sum_sq = self.sum_sq.add(value.mul(value));
        if self.window.entries.len() == 0 {
            V::from_u64(0)
        } else {
            let n = V::from_u64(self.window.entries.len() as u64);
            let mean = self.sum.div(n);
            let variance = self.sum_sq.sub(self.sum.mul(mean)).div(n);
            variance.sqrt()
        }
    }

    /// Return the indicator to its post-construction state; the duration
    /// and detector mode are retained.
    pub fn reset(&mut self)
        ensures
            final(self).window.duration_secs == old(self).window.duration_secs,
            final(self).window.boundary == old(self).window.boundary,
            final(self).window.entries@.len() == 0,
            final(self).detector.frequency == old(self).detector.frequency,
            final(self).detector.last_minute_bucket is None,
            final(self).detector.last_timestamp is None,
            old(self).wf() ==> final(self).wf(),
    {
        self.window.entries.clear();
        self.sum = V::from_u64(0);
        self.sum_sq = V::from_u64(0);
        self.detector.reset();
    }

    /// The human-readable descriptor, for example `SD(7s)`.
    pub fn descriptor(&self) -> (s: String)
        ensures
            s@ == "SD("@ + decimal_digits(self.window.duration_secs as nat) + "s)"@,
    {
        let mut s = String::from_str("SD(");
        s.append(u64_text(self.window.duration_secs).as_str());
        s.append("s)");
        s
    }
}

impl<V: Scalar> Default for StandardDeviation<V> {
    /// A 14-day standard deviation.
    fn default() -> (d: Self)
        ensures
            d.wf(),
            d.window.duration_secs == 14 * 24 * 60 * 60,
    {
        Self::new_unchecked(14 * 24 * 60 * 60)
    }
}

} // verus!
