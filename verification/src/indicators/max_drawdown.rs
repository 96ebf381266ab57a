//! Maximum drawdown over a sliding time window.

use vstd::prelude::*;
use vstd::string::StringExecFns;

use crate::errors::TaError;
use crate::indicators::adaptive::{mode_for_duration, AdaptiveTimeDetector};
use crate::scalar::Scalar;
use crate::text::{decimal_digits, u64_text};
use crate::window::{
    entries_within, in_order_replay, ingested, lemma_window_eviction_bound, sorted_by_time,
    EvictionBoundary, Sample, SlidingWindow,
};

verus! {

/// The largest percentage fall from a running peak across the retained
/// samples, recomputed by a single forward scan per update.
#[derive(Debug, Clone)]
pub struct MaxDrawdown<V> {
    /// The retained samples; entries exactly `duration` old are retained
    /// (this indicator evicts strictly past the boundary).
    pub window: SlidingWindow<V>,
    /// Decides replace-or-append per incoming timestamp.
    pub detector: AdaptiveTimeDetector,
}

impl<V: Scalar> MaxDrawdown<V> {
    /// The window has a positive duration, evicts exclusively, and the
    /// detector mode matches the duration.
    pub open spec fn wf(self) -> bool {
        &&& self.window.duration_secs > 0
        &&& self.window.boundary == EvictionBoundary::Exclusive
        &&& self.detector.wf()
        &&& self.detector.frequency == mode_for_duration(self.window.duration_secs)
    }

    /// A new indicator over the given window duration in whole seconds.
    /// Fails exactly when the duration is zero.
    pub fn new(duration_secs: u64) -> (r: Result<Self, TaError>)
        ensures
            r is Ok <==> duration_secs > 0,
            r matches Ok(s) ==> s.wf() && s.window.duration_secs == duration_secs
                && s.window.entries@.len() == 0 && s.detector.last_minute_bucket is None
                && s.detector.last_timestamp is None,
            r matches Err(e) ==> e == TaError::InvalidParameter,
    {
        if duration_secs == 0 {
            Err(TaError::InvalidParameter)
        } else {
            Ok(
                Self {
                    window: SlidingWindow::new(duration_secs, EvictionBoundary::Exclusive),
                    detector: AdaptiveTimeDetector::new(duration_secs),
                },
            )
        }
    }

    /// A copy of the retained samples, oldest first.
    pub fn get_window(&self) -> (w: Vec<Sample<V>>)
        ensures
            w@ == self.window.entries@,
    {
        self.window.cloned_entries()
    }

    /// One forward scan tracking the running peak; each step's fall from
    /// the peak, `(peak - value) / peak`, raises the running maximum.  A
    /// zero peak contributes nothing for that step.  Returned as a
    /// percentage.
    fn calculate_max_drawdown(&self) -> V {
        let mut peak: Option<V> = None;
        let mut max_drawdown = V::from_u64(0);
        let mut i: usize = 0;
        while i < self.window.entries.len()
            invariant
                i <= self.window.entries@.len(),
            decreases self.window.entries@.len() - i,
        {
            let value = self.window.entries[i].value;
            let p = match peak {
                Some(p0) => if p0.less_than(value) {
                    value
                } else {
                    p0
                },
                None => value,
            };
            peak = Some(p);
            if !p.is_zero() {
                let drawdown = p.sub(value).div(p);
                if max_drawdown.less_than(drawdown) {
                    max_drawdown = drawdown;
                }
            }
            i = i + 1;
        }
        V::from_u64(100).mul(max_drawdown)
    }

    /// Ingest one sample and return the maximum drawdown, in percent.
    pub fn next(&mut self, timestamp: i64, value: V) -> (r: V)
        requires
            old(self).wf(),
        ensures
            final(self).wf(),
            final(self).window.duration_secs == old(self).window.duration_secs,
            final(self).window.boundary == old(self).window.boundary,
            final(self).detector == old(self).detector.stepped(timestamp),
            final(self).window.entries@ == ingested(
                old(self).window.entries@,
                timestamp - old(self).window.duration_secs,
                EvictionBoundary::Exclusive,
                old(self).detector.replaces(timestamp),
                timestamp,
                value,
            ),
            final(self).window.entries@.len() > 0,
            final(self).window.entries@.last() == (Sample { timestamp: timestamp, value: value }),
            in_order_replay(old(self).window.entries@, timestamp) ==> {
                &&& sorted_by_time(final(self).window.entries@)
                &&& entries_within(
                    final(self).window.entries@,
                    timestamp,
                    old(self).window.duration_secs,
                    EvictionBoundary::Exclusive,
                )
            },
    {
        let ghost s0 = self.window.entries@;
        let duration_secs = self.window.duration_secs;
        let replace = self.detector.should_replace(timestamp);
        let _ = self.window.ingest(timestamp, value, replace);
        proof {
            if in_order_replay(s0, timestamp) {
                lemma_window_eviction_bound(
                    s0,
                    duration_secs,
                    EvictionBoundary::Exclusive,
                    replace,
                    timestamp,
                    value,
                );
            }
        }
        self.calculate_max_drawdown()
    }

    /// Return the indicator to its post-construction state; the duration
    /// and detector mode are retained.
    pub fn reset(&mut self)
        ensures
            final(self).window.duration_secs == old(self).window.duration_secs,
            final(self).window.boundary == old(self).window.boundary,
            final(self).window.entries@.len() == 0,
            final(self).detector.frequency == old(self).detector.frequency,
            final(self).detector.last_minute_bucket is None,
            final(self).detector.last_timestamp is None,
            old(self).wf() ==> final(self).wf(),
    {
        self.window.entries.clear();
        self.detector.reset();
    }

    /// The human-readable descriptor, for example `MaxDrawdown(7s)`.
    pub fn descriptor(&self) -> (s: String)
        ensures
            s@ == "MaxDrawdown("@ + decimal_digits(self.window.duration_secs as nat) + "s)"@,
    {
        let mut s = String::from_str("MaxDrawdown(");
        s.append(u64_text(self.window.duration_secs).as_str());
        s.append("s)");
        s
    }
}

impl<V: Scalar> Default for MaxDrawdown<V> {
    /// A 14-day maximum drawdown.
    fn default() -> (d: Self)
        ensures
            d.wf(),
            d.window.duration_secs == 14 * 24 * 60 * 60,
    {
        Self {
            window: SlidingWindow::new(14 * 24 * 60 * 60, EvictionBoundary::Exclusive),
            detector: AdaptiveTimeDetector::new(14 * 24 * 60 * 60),
        }
    }
}

} // verus!
