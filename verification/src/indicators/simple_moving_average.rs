//! Arithmetic mean over a sliding time window.

use vstd::prelude::*;
use vstd::string::StringExecFns;

use crate::errors::TaError;
use crate::indicators::adaptive::{mode_for_duration, AdaptiveTimeDetector};
use crate::scalar::Scalar;
use crate::text::{decimal_digits, u64_text};
use crate::window::{
    entries_within, in_order_replay, ingested, lemma_window_eviction_bound, sorted_by_time,
    EvictionBoundary, Sample, SlidingWindow,
};

verus! {

/// Simple moving average: the arithmetic mean of the samples retained in
/// the sliding window, maintained through a running sum.
#[derive(Debug, Clone)]
pub struct SimpleMovingAverage<V> {
    /// The retained samples; entries exactly `duration` old are evicted.
    pub window: SlidingWindow<V>,
    /// Running sum of the retained values.
    pub sum: V,
    /// Decides replace-or-append per incoming timestamp.
    pub detector: AdaptiveTimeDetector,
}

impl<V: Scalar> SimpleMovingAverage<V> {
    /// The window has a positive duration, evicts inclusively, and the
    /// detector mode matches the duration.
    pub open spec fn wf(self) -> bool {
        &&& self.window.duration_secs > 0
        &&& self.window.boundary == EvictionBoundary::Inclusive
        &&& self.detector.wf()
        &&& self.detector.frequency == mode_for_duration(self.window.duration_secs)
    }

    /// A new indicator over the given window duration in whole seconds.
    /// Fails exactly when the duration is zero.
    pub fn new(duration_secs: u64) -> (r: Result<Self, TaError>)
        ensures
            r is Ok <==> duration_secs > 0,
            r matches Ok(s) ==> s.wf() && s.window.duration_secs == duration_secs
                && s.window.entries@.len() == 0 && s.detector.last_minute_bucket is None
                && s.detector.last_timestamp is None,
            r matches Err(e) ==> e == TaError::InvalidParameter,
    {
        if duration_secs == 0 {
            Err(TaError::InvalidParameter)
        } else {
            Ok(Self::new_unchecked(duration_secs))
        }
    }

    fn new_unchecked(duration_secs: u64) -> (s: Self)
        requires
            duration_secs > 0,
        ensures
            s.wf(),
            s.window.duration_secs == duration_secs,
            s.window.entries@.len() == 0,
            s.detector.last_minute_bucket is None,
            s.detector.last_timestamp is None,
    {
        Self {
            window: SlidingWindow::new(duration_secs, EvictionBoundary::Inclusive),
            sum: V::from_u64(0),
            detector: AdaptiveTimeDetector::new(duration_secs),
        }
    }

    /// A copy of the retained samples, oldest first.
    pub fn get_window(&self) -> (w: Vec<Sample<V>>)
        ensures
            w@ == self.window.entries@,
    {
        self.window.cloned_entries()
    }

    /// The full internal state: duration, retained samples, running sum.
    pub fn get_internal_state(&self) -> (st: (u64, Vec<Sample<V>>, V))
        ensures
            st.0 == self.window.duration_secs,
            st.1@ == self.window.entries@,
            st.2 == self.sum,
    {
        (self.window.duration_secs, self.window.cloned_entries(), self.sum)
    }

    /// Ingest one sample and return the mean of the retained values.
    ///
    /// The update follows the shared protocol: evict entries at or past the
    /// duration boundary, replace the newest entry when the detector says
    /// the timestamp falls in the current slot, append the sample, and keep
    /// the running sum in step with every removal and insertion.
    pub fn next(&mut self, timestamp: i64, value: V) -> (r: V)
        requires
            old(self).wf(),
        ensures
            final(self).wf(),
            final(self).window.duration_secs == old(self).window.duration_secs,
            final(self).window.boundary == old(self).window.boundary,
            final(self).detector == old(self).detector.stepped(timestamp),
            final(self).window.entries@ == ingested(
                old(self).window.entries@,
                timestamp - old(self).window.duration_secs,
                EvictionBoundary::Inclusive,
                old(self).detector.replaces(timestamp),
                timestamp,
                value,
            ),
            final(self).window.entries@.len() > 0,
            final(self).window.entries@.last() == (Sample { timestamp: timestamp, value: value }),
            in_order_replay(old(self).window.entries@, timestamp) ==> {
                &&& sorted_by_time(final(self).window.entries@)
                &&& entries_within(
                    final(self).window.entries@,
                    timestamp,
                    old(self).window.duration_secs,
                    EvictionBoundary::Inclusive,
                )
            },
    {
        let ghost s0 = self.window.entries@;
        let duration_secs = self.window.duration_secs;
        let replace = self.detector.should_replace(timestamp);
        let (evicted, replaced) = self.window.ingest(timestamp, value, replace);
        proof {
            if in_order_replay(s0, timestamp) {
                lemma_window_eviction_bound(
                    s0,
                    duration_secs,
                    EvictionBoundary::Inclusive,
                    replace,
                    timestamp,
                    value,
                );
            }
        }
        let ghost mid = *self;
        let mut i: usize = 0;
        while i < evicted.len()
            invariant
                i <= evicted.len(),
                self.window == mid.window,
                self.detector == mid.detector,
            decreases evicted.len() - i,
        {
            self.sum = self.sum.sub(evicted[i].value);
            i = i + 1;
        }
        if let Some(e) = replaced {
            self.sum = self.sum.sub(e.value);
        }
        self.sum = self.sum.add(value);
        if self.window.entries.len() == 0 {
            V::from_u64(0)
        } else {
            self.sum.div(V::from_u64(self.window.entries.len() as u64))
        }
    }

    /// Return the indicator to its post-construction state; the duration
    /// and detector mode are retained.
    pub fn reset(&mut self)
        ensures
            final(self).window.duration_secs == old(self).window.duration_secs,
            final(self).window.boundary == old(self).window.boundary,
            final(self).window.entries@.len() == 0,
            final(self).detector.frequency == old(self).detector.frequency,
            final(self).detector.last_minute_bucket is None,
            final(self).detector.last_timestamp is None,
            old(self).wf() ==> final(self).wf(),
    {
        self.window.entries.clear();
        self.sum = V::from_u64(0);
        self.detector.reset();
    }

    /// The human-readable descriptor, for example `SMA(7s)`.
    pub fn descriptor(&self) -> (s: String)
        ensures
            s@ == "SMA("@ + decimal_digits(self.window.duration_secs as nat) + "s)"@,
    {
        let mut s = String::from_str("SMA(");
        s.append(u64_text(self.window.duration_secs).as_str());
        s.append("s)");
        s
    }
}

impl<V: Scalar> Default for SimpleMovingAverage<V> {
    /// A 14-day moving average.
    fn default() -> (d: Self)
        ensures
            d.wf(),
            d.window.duration_secs == 14 * 24 * 60 * 60,
    {
        Self::new_unchecked(14 * 24 * 60 * 60)
    }
}

} // verus!
