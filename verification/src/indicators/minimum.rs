//! Running minimum over a sliding time window.

use vstd::prelude::*;
use vstd::string::StringExecFns;

use crate::errors::TaError;
use crate::indicators::adaptive::{mode_for_duration, AdaptiveTimeDetector};
use crate::scalar::Scalar;
use crate::text::{decimal_digits, u64_text};
use crate::window::{
    entries_within, in_order_replay, ingested, lemma_window_eviction_bound, sorted_by_time,
    EvictionBoundary, Sample, SlidingWindow,
};

verus! {

/// The smallest value retained in the sliding window, tracked through a
/// cached minimum that is rescanned when an update cannot only lower it.
#[derive(Debug, Clone)]
pub struct Minimum<V> {
    /// The retained samples; entries exactly `duration` old are retained
    /// (this indicator evicts strictly past the boundary).
    pub window: SlidingWindow<V>,
    /// The cached minimum; absent before any sample arrives.
    pub min_value: Option<V>,
    /// Decides replace-or-append per incoming timestamp.
    pub detector: AdaptiveTimeDetector,
}

impl<V: Scalar> Minimum<V> {
    /// The window has a positive duration, evicts exclusively, and the
    /// detector mode matches the duration.
    pub open spec fn wf(self) -> bool {
        &&& self.window.duration_secs > 0
        &&& self.window.boundary == EvictionBoundary::Exclusive
        &&& self.detector.wf()
        &&& self.detector.frequency == mode_for_duration(self.window.duration_secs)
    }

    /// A new indicator over the given window duration in whole seconds.
    /// Fails exactly when the duration is zero.
    pub fn new(duration_secs: u64) -> (r: Result<Self, TaError>)
        ensures
            r is Ok <==> duration_secs > 0,
            r matches Ok(s) ==> s.wf() && s.window.duration_secs == duration_secs
                && s.window.entries@.len() == 0 && s.min_value is None
                && s.detector.last_minute_bucket is None && s.detector.last_timestamp is None,
            r matches Err(e) ==> e == TaError::InvalidParameter,
    {
        if duration_secs == 0 {
            Err(TaError::InvalidParameter)
        } else {
            Ok(Self::new_unchecked(duration_secs))
        }
    }

    fn new_unchecked(duration_secs: u64) -> (s: Self)
        requires
            duration_secs > 0,
        ensures
            s.wf(),
            s.window.duration_secs == duration_secs,
            s.window.entries@.len() == 0,
            s.min_value is None,
            s.detector.last_minute_bucket is None,
            s.detector.last_timestamp is None,
    {
        Self {
            window: SlidingWindow::new(duration_secs, EvictionBoundary::Exclusive),
            min_value: None,
            detector: AdaptiveTimeDetector::new(duration_secs),
        }
    }

    /// A copy of the retained samples, oldest first.
    pub fn get_window(&self) -> (w: Vec<Sample<V>>)
        ensures
            w@ == self.window.entries@,
    {
        self.window.cloned_entries()
    }

    /// Rescan the window, cache and return its smallest value.
    fn update_min(&mut self) -> (m: V)
        requires
            old(self).window.entries@.len() > 0,
        ensures
            final(self).window == old(self).window,
            final(self).detector == old(self).detector,
            final(self).min_value == Some(m),
    {
        let mut m = self.window.entries[0].value;
        let mut i: usize = 1;
        while i < self.window.entries.len()
            invariant
                1 <= i <= self.window.entries@.len(),
                self.window == old(self).window,
                self.detector == old(self).detector,
                self.min_value == old(self).min_value,
            decreases self.window.entries@.len() - i,
        {
            if self.window.entries[i].value.less_than(m) {
                m = self.window.entries[i].value;
            }
            i = i + 1;
        }
        self.min_value = Some(m);
        m
    }

    /// Ingest one sample and return the smallest retained value.
    ///
    /// A sample below the cached minimum lowers it directly; any other
    /// update triggers a rescan, since an eviction or replacement may have
    /// removed the previous minimum.
    pub fn next(&mut self, timestamp: i64, value: V) -> (r: V)
        requires
            old(self).wf(),
        ensures
            final(self).wf(),
            final(self).window.duration_secs == old(self).window.duration_secs,
            final(self).window.boundary == old(self).window.boundary,
            final(self).detector == old(self).detector.stepped(timestamp),
            final(self).window.entries@ == ingested(
                old(self).window.entries@,
                timestamp - old(self).window.duration_secs,
                EvictionBoundary::Exclusive,
                old(self).detector.replaces(timestamp),
                timestamp,
                value,
            ),
            final(self).window.entries@.len() > 0,
            final(self).window.entries@.last() == (Sample { timestamp: timestamp, value: value }),
            in_order_replay(old(self).window.entries@, timestamp) ==> {
                &&& sorted_by_time(final(self).window.entries@)
                &&& entries_within(
                    final(self).window.entries@,
                    timestamp,
                    old(self).window.duration_secs,
                    EvictionBoundary::Exclusive,
                )
            },
            final(self).min_value == Some(r),
    {
        let ghost s0 = self.window.entries@;
        let duration_secs = self.window.duration_secs;
        let replace = self.detector.should_replace(timestamp);
        let _ = self.window.ingest(timestamp, value, replace);
        proof {
            if in_order_replay(s0, timestamp) {
                lemma_window_eviction_bound(
                    s0,
                    duration_secs,
                    EvictionBoundary::Exclusive,
                    replace,
                    timestamp,
                    value,
                );
            }
        }
        let take_new = match self.min_value {
            Some(m) => value.less_than(m),
            None => true,
        };
        if take_new {
            self.min_value = Some(value);
            value
        } else {
            self.update_min()
        }
    }

    /// Return the indicator to its post-construction state; the duration
    /// and detector mode are retained.
    pub fn reset(&mut self)
        ensures
            final(self).window.duration_secs == old(self).window.duration_secs,
            final(self).window.boundary == old(self).window.boundary,
            final(self).window.entries@.len() == 0,
            final(self).min_value is None,
            final(self).detector.frequency == old(self).detector.frequency,
            final(self).detector.last_minute_bucket is None,
            final(self).detector.last_timestamp is None,
            old(self).wf() ==> final(self).wf(),
    {
        self.window.entries.clear();
        self.min_value = None;
        self.detector.reset();
    }

    /// The human-readable descriptor, for example `MIN(10 days)`.
    pub fn descriptor(&self) -> (s: String)
        ensures
            s@ == "MIN("@ + decimal_digits((self.window.duration_secs / 86400) as nat) + " days)"@,
    {
        let mut s = String::from_str("MIN(");
        s.append(u64_text(self.window.duration_secs / 86400).as_str());
        s.append(" days)");
        s
    }
}

impl<V: Scalar> Default for Minimum<V> {
    /// A 14-day running minimum.
    fn default() -> (d: Self)
        ensures
            d.wf(),
            d.window.duration_secs == 14 * 24 * 60 * 60,
    {
        Self::new_unchecked(14 * 24 * 60 * 60)
    }
}

} // verus!
