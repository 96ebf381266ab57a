//! Bollinger band over a sliding time window.

use vstd::prelude::*;
use vstd::string::StringExecFns;

use crate::errors::TaError;
use crate::indicators::adaptive::{mode_for_duration, AdaptiveTimeDetector};
use crate::indicators::standard_deviation::StandardDeviation;
use crate::scalar::Scalar;
use crate::text::{decimal_digits, u64_text};
use crate::window::{
    entries_within, in_order_replay, ingested, lemma_window_eviction_bound, sorted_by_time,
    EvictionBoundary, Sample, SlidingWindow,
};

verus! {

/// A band reading: the window mean and the offsets above and below it.
#[derive(Debug, Clone, PartialEq)]
pub struct BollingerBandsOutput<V> {
    pub average: V,
    pub upper: V,
    pub lower: V,
}

/// The window mean offset by a multiple of the population standard
/// deviation.  Maintains its own sample window alongside an inner
/// [`StandardDeviation`] fed the same samples.
#[derive(Debug, Clone)]
pub struct BollingerBands<V> {
    /// The band width, as a multiple of the standard deviation.
    pub multiplier: V,
    /// The inner standard-deviation indicator over the same duration.
    pub sd: StandardDeviation<V>,
    /// The retained samples; entries exactly `duration` old are evicted.
    pub window: SlidingWindow<V>,
    /// Decides replace-or-append per incoming timestamp.
    pub detector: AdaptiveTimeDetector,
}

impl<V: Scalar> BollingerBands<V> {
    /// The window has a positive duration, evicts inclusively, the
    /// detector mode matches the duration, and the inner indicator runs
    /// over the same duration.
    pub open spec fn wf(self) -> bool {
        &&& self.window.duration_secs > 0
        &&& self.window.boundary == EvictionBoundary::Inclusive
        &&& self.detector.wf()
        &&& self.detector.frequency == mode_for_duration(self.window.duration_secs)
        &&& self.sd.wf()
        &&& self.sd.window.duration_secs == self.window.duration_secs
    }

    /// A new indicator over the given window duration in whole seconds.
    /// Fails exactly when the duration is zero.
    pub fn new(duration_secs: u64, multiplier: V) -> (r: Result<Self, TaError>)
        ensures
            r is Ok <==> duration_secs > 0,
            r matches Ok(s) ==> s.wf() && s.window.duration_secs == duration_secs
                && s.window.entries@.len() == 0 && s.multiplier == multiplier
                && s.sd.window.entries@.len() == 0 && s.detector.last_minute_bucket is None
                && s.detector.last_timestamp is None,
            r matches Err(e) ==> e == TaError::InvalidParameter,
    {
        if duration_secs == 0 {
            return Err(TaError::InvalidParameter);
        }
        let sd = match StandardDeviation::new(duration_secs) {
            Ok(sd) => sd,
            // Construction with a positive duration cannot fail.
            Err(_) => vstd::pervasive::unreached(),
        };
        Ok(
            Self {
                multiplier,
                sd,
                window: SlidingWindow::new(duration_secs, EvictionBoundary::Inclusive),
                detector: AdaptiveTimeDetector::new(duration_secs),
            },
        )
    }

    /// A copy of the retained samples, oldest first.
    pub fn get_window(&self) -> (w: Vec<Sample<V>>)
        ensures
            w@ == self.window.entries@,
    {
        self.window.cloned_entries()
    }

    /// The band width, as a multiple of the standard deviation.
    pub fn multiplier(&self) -> (m: V)
        ensures
            m == self.multiplier,
    {
        self.multiplier
    }

    /// Ingest one sample and return the upper band: the window mean plus
    /// `multiplier` standard deviations.
    pub fn next(&mut self, timestamp: i64, value: V) -> (r: V)
        requires
            old(self).wf(),
        ensures
            final(self).wf(),
            final(self).multiplier == old(self).multiplier,
            final(self).window.duration_secs == old(self).window.duration_secs,
            final(self).window.boundary == old(self).window.boundary,
            final(self).detector == old(self).detector.stepped(timestamp),
            final(self).window.entries@ == ingested(
                old(self).window.entries@,
                timestamp - old(self).window.duration_secs,
                EvictionBoundary::Inclusive,
                old(self).detector.replaces(timestamp),
                timestamp,
                value,
            ),
            final(self).sd.detector == old(self).sd.detector.stepped(timestamp),
            final(self).sd.window.entries@ == ingested(
                old(self).sd.window.entries@,
                timestamp - old(self).sd.window.duration_secs,
                EvictionBoundary::Inclusive,
                old(self).sd.detector.replaces(timestamp),
                timestamp,
                value,
            ),
            final(self).window.entries@.len() > 0,
            final(self).window.entries@.last() == (Sample { timestamp: timestamp, value: value }),
            in_order_replay(old(self).window.entries@, timestamp) ==> {
                &&& sorted_by_time(final(self).window.entries@)
                &&& entries_within(
                    final(self).window.entries@,
                    timestamp,
                    old(self).window.duration_secs,
                    EvictionBoundary::Inclusive,
                )
            },
    {
        let ghost s0 = self.window.entries@;
        let duration_secs = self.window.duration_secs;
        let replace = self.detector.should_replace(timestamp);
        let _ = self.window.ingest(timestamp, value, replace);
        proof {
            if in_order_replay(s0, timestamp) {
                lemma_window_eviction_bound(
                    s0,
                    duration_secs,
                    EvictionBoundary::Inclusive,
                    replace,
                    timestamp,
                    value,
                );
            }
        }
        let ghost mid = *self;
        // The mean of the retained values, by a forward scan.
        let mut total = V::from_u64(0);
        let mut i: usize = 0;
        while i < self.window.entries.len()
            invariant
                i <= self.window.entries@.len(),
                *self == mid,
            decreases self.window.entries@.len() - i,
        {
            total = total.add(self.window.entries[i].value);
            i = i + 1;
        }
        let mean = total.div(V::from_u64(self.window.entries.len() as u64));
        let sd = self.sd.next(timestamp, value);
        mean.add(sd.mul(self.multiplier))
    }

    /// Return the indicator to its post-construction state; the duration,
    /// multiplier and detector mode are retained.
    pub fn reset(&mut self)
        ensures
            final(self).multiplier == old(self).multiplier,
            final(self).window.duration_secs == old(self).window.duration_secs,
            final(self).window.boundary == old(self).window.boundary,
            final(self).window.entries@.len() == 0,
            final(self).sd.window.entries@.len() == 0,
            final(self).sd.window.duration_secs == old(self).sd.window.duration_secs,
            final(self).detector.frequency == old(self).detector.frequency,
            final(self).detector.last_minute_bucket is None,
            final(self).detector.last_timestamp is None,
            old(self).wf() ==> final(self).wf(),
    {
        self.sd.reset();
        self.window.entries.clear();
        self.detector.reset();
    }

    /// The human-readable descriptor, for example `BB(864000s, 3)`; the
    /// multiplier is rendered by the scalar type.
    pub fn descriptor(&self) -> (s: String)
        ensures
            exists|m: Seq<char>|
                s@ == "BB("@ + decimal_digits(self.window.duration_secs as nat) + "s, "@ + m
                    + ")"@,
    {
        let mut s = String::from_str("BB(");
        s.append(u64_text(self.window.duration_secs).as_str());
        s.append("s, ");
        let mtext = self.multiplier.to_text();
        s.append(mtext.as_str());
        s.append(")");
        proof {
            assert(s@ == "BB("@ + decimal_digits(self.window.duration_secs as nat) + "s, "@
                + mtext@ + ")"@);
        }
        s
    }
}

impl<V: Scalar> Default for BollingerBands<V> {
    /// A 14-day band with a multiplier of two.
    fn default() -> (d: Self)
        ensures
            d.wf(),
            d.window.duration_secs == 14 * 24 * 60 * 60,
    {
        match Self::new(14 * 24 * 60 * 60, V::from_u64(2)) {
            Ok(b) => b,
            // Construction with a positive duration cannot fail.
            Err(_) => vstd::pervasive::unreached(),
        }
    }
}

} // verus!
