//! Running maximum over a sliding time window.

use vstd::prelude::*;
use vstd::string::StringExecFns;

use crate::errors::TaError;
use crate::indicators::adaptive::{mode_for_duration, AdaptiveTimeDetector};
use crate::scalar::Scalar;
use crate::text::{decimal_digits, u64_text};
use crate::window::{
    entries_within, in_order_replay, ingested, lemma_window_eviction_bound, sorted_by_time,
    EvictionBoundary, Sample, SlidingWindow,
};

verus! {

/// The largest value retained in the sliding window, recomputed by a full
/// rescan per update.
#[derive(Debug, Clone)]
pub struct Maximum<V> {
    /// The retained samples; entries exactly `duration` old are evicted.
    pub window: SlidingWindow<V>,
    /// Decides replace-or-append per incoming timestamp.
    pub detector: AdaptiveTimeDetector,
}

impl<V: Scalar> Maximum<V> {
    /// The window has a positive duration, evicts inclusively, and the
    /// detector mode matches the duration.
    pub open spec fn wf(self) -> bool {
        &&& self.window.duration_secs > 0
        &&& self.window.boundary == EvictionBoundary::Inclusive
        &&& self.detector.wf()
        &&& self.detector.frequency == mode_for_duration(self.window.duration_secs)
    }

    /// A new indicator over the given window duration in whole seconds.
    /// Fails exactly when the duration is zero.
    pub fn new(duration_secs: u64) -> (r: Result<Self, TaError>)
        ensures
            r is Ok <==> duration_secs > 0,
            r matches Ok(s) ==> s.wf() && s.window.duration_secs == duration_secs
                && s.window.entries@.len() == 0 && s.detector.last_minute_bucket is None
                && s.detector.last_timestamp is None,
            r matches Err(e) ==> e == TaError::InvalidParameter,
    {
        if duration_secs == 0 {
            Err(TaError::InvalidParameter)
        } else {
            Ok(Self::new_unchecked(duration_secs))
        }
    }

    fn new_unchecked(duration_secs: u64) -> (s: Self)
        requires
            duration_secs > 0,
        ensures
            s.wf(),
            s.window.duration_secs == duration_secs,
            s.window.entries@.len() == 0,
            s.detector.last_minute_bucket is None,
            s.detector.last_timestamp is None,
    {
        Self {
            window: SlidingWindow::new(duration_secs, EvictionBoundary::Inclusive),
            detector: AdaptiveTimeDetector::new(duration_secs),
        }
    }

    /// A copy of the retained samples, oldest first.
    pub fn get_window(&self) -> (w: Vec<Sample<V>>)
        ensures
            w@ == self.window.entries@,
    {
        self.window.cloned_entries()
    }

    /// The largest retained value, by a forward scan.
    fn find_max_value(&self) -> V
        requires
            self.window.entries@.len() > 0,
    {
        let mut m = self.window.entries[0].value;
        let mut i: usize = 1;
        while i < self.window.entries.len()
            invariant
                1 <= i <= self.window.entries@.len(),
            decreases self.window.entries@.len() - i,
        {
            if m.less_than(self.window.entries[i].value) {
                m = self.window.entries[i].value;
            }
            i = i + 1;
        }
        m
    }

    /// Ingest one sample and return the largest retained value.
    pub fn next(&mut self, timestamp: i64, value: V) -> (r: V)
        requires
            old(self).wf(),
        ensures
            final(self).wf(),
            final(self).window.duration_secs == old(self).window.duration_secs,
            final(self).window.boundary == old(self).window.boundary,
            final(self).detector == old(self).detector.stepped(timestamp),
            final(self).window.entries@ == ingested(
                old(self).window.entries@,
                timestamp - old(self).window.duration_secs,
                EvictionBoundary::Inclusive,
                old(self).detector.replaces(timestamp),
                timestamp,
                value,
            ),
            final(self).window.entries@.len() > 0,
            final(self).window.entries@.last() == (Sample { timestamp: timestamp, value: value }),
            in_order_replay(old(self).window.entries@, timestamp) ==> {
                &&& sorted_by_time(final(self).window.entries@)
                &&& entries_within(
                    final(self).window.entries@,
                    timestamp,
                    old(self).window.duration_secs,
                    EvictionBoundary::Inclusive,
                )
            },
    {
        let ghost s0 = self.window.entries@;
        let duration_secs = self.window.duration_secs;
        let replace = self.detector.should_replace(timestamp);
        let _ = self.window.ingest(timestamp, value, replace);
        proof {
            if in_order_replay(s0, timestamp) {
                lemma_window_eviction_bound(
                    s0,
                    duration_secs,
                    EvictionBoundary::Inclusive,
                    replace,
                    timestamp,
                    value,
                );
            }
        }
        self.find_max_value()
    }

    /// Return the indicator to its post-construction state; the duration
    /// and detector mode are retained.
    pub fn reset(&mut self)
        ensures
            final(self).window.duration_secs == old(self).window.duration_secs,
            final(self).window.boundary == old(self).window.boundary,
            final(self).window.entries@.len() == 0,
            final(self).detector.frequency == old(self).detector.frequency,
            final(self).detector.last_minute_bucket is None,
            final(self).detector.last_timestamp is None,
            old(self).wf() ==> final(self).wf(),
    {
        self.window.entries.clear();
        self.detector.reset();
    }

    /// The human-readable descriptor, for example `MAX(7s)`.
    pub fn descriptor(&self) -> (s: String)
        ensures
            s@ == "MAX("@ + decimal_digits(self.window.duration_secs as nat) + "s)"@,
    {
        let mut s = String::from_str("MAX(");
        s.append(u64_text(self.window.duration_secs).as_str());
        s.append("s)");
        s
    }
}

impl<V: Scalar> Default for Maximum<V> {
    /// A 14-day running maximum.
    fn default() -> (d: Self)
        ensures
            d.wf(),
            d.window.duration_secs == 14 * 24 * 60 * 60,
    {
        Self::new_unchecked(14 * 24 * 60 * 60)
    }
}

} // verus!
