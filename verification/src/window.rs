//! The sliding-time-window ingestion protocol shared by every window-based
//! indicator.
//!
//! Each update first evicts entries that have fallen out of the window
//! relative to the incoming timestamp, then — if the incoming sample
//! replaces the current observation slot — removes the newest entry, and
//! finally appends the incoming sample.  Eviction always runs first, also
//! on a replacement.  The entries an indicator removed are handed back so
//! that it can update incremental accumulators symmetrically.

use vstd::arithmetic::div_mod::lemma_div_is_ordered;
use vstd::prelude::*;

use crate::indicators::adaptive::{
    bucket_key, bucket_key_i64, lemma_bucket_key_fits, AdaptiveTimeDetector, DetectedFrequency,
};

verus! {

/// One retained observation: a timestamp in whole seconds paired with a
/// scalar.
#[derive(Debug, Clone, Copy)]
pub struct Sample<V> {
    pub timestamp: i64,
    pub value: V,
}

/// Which entries an eviction pass removes, relative to the cutoff
/// `timestamp - duration`.  The boundary is part of each indicator's
/// observable behaviour and is deliberately not unified across indicators.
#[derive(Debug, Clone, Copy, PartialEq, Eq, Structural)]
pub enum EvictionBoundary {
    /// Entries with `timestamp <= cutoff` leave: an entry exactly
    /// `duration` old is evicted.
    Inclusive,
    /// Entries with `timestamp < cutoff` leave: an entry exactly
    /// `duration` old is retained.
    Exclusive,
}

/// Whether an entry timestamped `ts` is evicted at the given cutoff.
pub open spec fn is_stale(ts: i64, cutoff: int, boundary: EvictionBoundary) -> bool {
    match boundary {
        EvictionBoundary::Inclusive => ts <= cutoff,
        EvictionBoundary::Exclusive => ts < cutoff,
    }
}

/// The entries that survive an eviction pass: the longest suffix whose
/// first entry is not stale.
pub open spec fn surviving<V>(
    s: Seq<Sample<V>>,
    cutoff: int,
    boundary: EvictionBoundary,
) -> Seq<Sample<V>>
    decreases s.len(),
{
    if s.len() > 0 && is_stale(s[0].timestamp, cutoff, boundary) {
        surviving(s.drop_first(), cutoff, boundary)
    } else {
        s
    }
}

/// One whole ingestion step on the retained entries: evict, then drop the
/// newest entry if the incoming sample replaces it, then append the sample.
pub open spec fn ingested<V>(
    s: Seq<Sample<V>>,
    cutoff: int,
    boundary: EvictionBoundary,
    replace: bool,
    timestamp: i64,
    value: V,
) -> Seq<Sample<V>> {
    let kept = surviving(s, cutoff, boundary);
    let trimmed = if replace && kept.len() > 0 {
        kept.drop_last()
    } else {
        kept
    };
    trimmed.push(Sample { timestamp: timestamp, value: value })
}

/// Entries in non-decreasing timestamp order.
pub open spec fn sorted_by_time<V>(s: Seq<Sample<V>>) -> bool {
    forall|i: int, j: int|
        0 <= i < j < s.len() ==> s[i].timestamp <= s[j].timestamp
}

/// The shape of a replay step's input: the retained entries are in order
/// and none is later than the incoming timestamp.
pub open spec fn in_order_replay<V>(s: Seq<Sample<V>>, timestamp: i64) -> bool {
    &&& sorted_by_time(s)
    &&& forall|i: int| 0 <= i < s.len() ==> (#[trigger] s[i]).timestamp <= timestamp
}

/// Every entry lies within `duration_secs` of `timestamp` — strictly
/// within for the inclusive boundary, at most `duration_secs` away for the
/// exclusive one.
pub open spec fn entries_within<V>(
    s: Seq<Sample<V>>,
    timestamp: i64,
    duration_secs: u64,
    boundary: EvictionBoundary,
) -> bool {
    forall|i: int|
        0 <= i < s.len() ==> match boundary {
            EvictionBoundary::Inclusive => timestamp - (#[trigger] s[i]).timestamp < duration_secs,
            EvictionBoundary::Exclusive => timestamp - (#[trigger] s[i]).timestamp <= duration_secs,
        }
}

/// A time-bounded window of samples, owned by one indicator.
#[derive(Debug, Clone)]
pub struct SlidingWindow<V> {
    /// The characteristic duration, in whole seconds.
    pub duration_secs: u64,
    /// The indicator's eviction boundary.
    pub boundary: EvictionBoundary,
    /// The retained samples, oldest first.
    pub entries: Vec<Sample<V>>,
}

impl<V: Copy> SlidingWindow<V> {
    /// The eviction cutoff for an update at `now`.
    pub open spec fn cutoff(self, now: i64) -> int {
        now - self.duration_secs
    }

    /// An empty window with the given duration and boundary.
    pub fn new(duration_secs: u64, boundary: EvictionBoundary) -> (w: Self)
        ensures
            w.duration_secs == duration_secs,
            w.boundary == boundary,
            w.entries@.len() == 0,
    {
        Self { duration_secs, boundary, entries: Vec::new() }
    }

    /// One ingestion step: evict stale entries, then remove the newest
    /// entry when `replace` holds and one remains, then append
    /// `(timestamp, value)`.  Returns the evicted entries (oldest first)
    /// and the replaced entry, so that callers can update incremental
    /// accumulators symmetrically.
    pub fn ingest(&mut self, timestamp: i64, value: V, replace: bool) -> (removed: (
        Vec<Sample<V>>,
        Option<Sample<V>>,
    ))
        ensures
            final(self).duration_secs == old(self).duration_secs,
            final(self).boundary == old(self).boundary,
            old(self).entries@ == removed.0@ + surviving(
                old(self).entries@,
                old(self).cutoff(timestamp),
                old(self).boundary,
            ),
            removed.1 == ({
                let kept = surviving(
                    old(self).entries@,
                    old(self).cutoff(timestamp),
                    old(self).boundary,
                );
                if replace && kept.len() > 0 {
                    Some(kept.last())
                } else {
                    None
                }
            }),
            final(self).entries@ == ingested(
                old(self).entries@,
                old(self).cutoff(timestamp),
                old(self).boundary,
                replace,
                timestamp,
                value,
            ),
    {
        let ghost s0 = self.entries@;
        let ghost c = self.cutoff(timestamp);
        let duration_secs = self.duration_secs;
        let boundary = self.boundary;
        let mut evicted: Vec<Sample<V>> = Vec::new();
        while self.entries.len() > 0 && entry_is_stale(
            self.entries[0].timestamp,
            timestamp,
            duration_secs,
            boundary,
        )
            invariant
                self.duration_secs == duration_secs,
                self.boundary == boundary,
                c == timestamp - duration_secs,
                s0 == evicted@ + self.entries@,
                surviving(s0, c, boundary) == surviving(self.entries@, c, boundary),
            decreases self.entries.len(),
        {
            let ghost before = self.entries@;
            let e = self.entries.remove(0);
            evicted.push(e);
            proof {
                assert(self.entries@ =~= before.drop_first());
                assert(s0 =~= evicted@ + self.entries@);
            }
        }
        let kept_exec_len = self.entries.len();
        proof {
            // The loop exited with an empty window or a fresh first entry,
            // so the remaining entries are exactly the surviving ones.
            assert(surviving(self.entries@, c, boundary) == self.entries@);
        }
        let replaced: Option<Sample<V>> = if replace && kept_exec_len > 0 {
            self.entries.pop()
        } else {
            None
        };
        self.entries.push(Sample { timestamp, value });
        proof {
            assert(self.entries@ =~= ingested(s0, c, boundary, replace, timestamp, value));
        }
        (evicted, replaced)
    }

    /// A copy of the retained samples, oldest first.
    pub fn cloned_entries(&self) -> (w: Vec<Sample<V>>)
        ensures
            w@ == self.entries@,
    {
        let mut out: Vec<Sample<V>> = Vec::new();
        let mut i: usize = 0;
        while i < self.entries.len()
            invariant
                i <= self.entries@.len(),
                out@ == self.entries@.take(i as int),
            decreases self.entries@.len() - i,
        {
            out.push(self.entries[i]);
            proof {
                assert(out@ =~= self.entries@.take(i + 1));
            }
            i = i + 1;
        }
        proof {
            assert(out@ =~= self.entries@);
        }
        out
    }
}

/// Whether an entry timestamped `entry_ts` is stale for an update at `now`.
fn entry_is_stale(entry_ts: i64, now: i64, duration_secs: u64, boundary: EvictionBoundary) -> (r:
    bool)
    ensures
        r == is_stale(entry_ts, now - duration_secs, boundary),
{
    let cutoff = now as i128 - duration_secs as i128;
    match boundary {
        EvictionBoundary::Inclusive => entry_ts as i128 <= cutoff,
        EvictionBoundary::Exclusive => (entry_ts as i128) < cutoff,
    }
}

/// Every entry surviving an eviction pass over a sorted window is fresh,
/// and the surviving entries are still sorted.
pub proof fn lemma_surviving_fresh<V>(s: Seq<Sample<V>>, cutoff: int, boundary: EvictionBoundary)
    requires
        sorted_by_time(s),
    ensures
        sorted_by_time(surviving(s, cutoff, boundary)),
        forall|i: int|
            0 <= i < surviving(s, cutoff, boundary).len() ==> !is_stale(
                (#[trigger] surviving(s, cutoff, boundary)[i]).timestamp,
                cutoff,
                boundary,
            ),
    decreases s.len(),
{
    if s.len() > 0 && is_stale(s[0].timestamp, cutoff, boundary) {
        assert(sorted_by_time(s.drop_first())) by {
            assert forall|i: int, j: int|
                0 <= i < j < s.drop_first().len() implies (#[trigger] s.drop_first()[i]).timestamp
                <= (#[trigger] s.drop_first()[j]).timestamp by {
                assert(s.drop_first()[i] == s[i + 1]);
                assert(s.drop_first()[j] == s[j + 1]);
            }
        }
        lemma_surviving_fresh(s.drop_first(), cutoff, boundary);
    } else {
        if s.len() > 0 {
            assert forall|i: int|
                0 <= i < s.len() implies !is_stale(
                (#[trigger] s[i]).timestamp,
                cutoff,
                boundary,
            ) by {
                if i > 0 {
                    assert(s[0].timestamp <= s[i].timestamp);
                }
            }
        }
    }
}

/// Window-eviction law: after one ingestion step at timestamp `t` over a
/// sorted window none of whose entries is later than `t`, the newest entry
/// is the incoming sample, the window is again sorted, and no retained
/// entry's timestamp differs from the newest entry's timestamp by more than
/// the duration — strictly less for the inclusive boundary, at most equal
/// for the exclusive one.
pub proof fn lemma_window_eviction_bound<V>(
    s: Seq<Sample<V>>,
    duration_secs: u64,
    boundary: EvictionBoundary,
    replace: bool,
    timestamp: i64,
    value: V,
)
    requires
        duration_secs > 0,
        in_order_replay(s, timestamp),
    ensures
        ({
            let out = ingested(s, timestamp - duration_secs, boundary, replace, timestamp, value);
            &&& out.len() > 0
            &&& out.last().timestamp == timestamp
            &&& sorted_by_time(out)
            &&& entries_within(out, timestamp, duration_secs, boundary)
        }),
{
    let cutoff = timestamp - duration_secs;
    let kept = surviving(s, cutoff, boundary);
    lemma_surviving_fresh(s, cutoff, boundary);
    lemma_surviving_is_suffix(s, cutoff, boundary);
    let trimmed = if replace && kept.len() > 0 {
        kept.drop_last()
    } else {
        kept
    };
    let out = ingested(s, cutoff, boundary, replace, timestamp, value);
    assert forall|i: int|
        0 <= i < out.len() implies {
        &&& timestamp - (#[trigger] out[i]).timestamp <= duration_secs
        &&& (boundary == EvictionBoundary::Inclusive ==> timestamp - out[i].timestamp
            < duration_secs)
        &&& out[i].timestamp <= timestamp
    } by {
        if i < trimmed.len() {
            assert(out[i] == trimmed[i]);
            assert(trimmed[i] == kept[i]);
            assert(!is_stale(kept[i].timestamp, cutoff, boundary));
            assert(kept[i] == s[s.len() - kept.len() + i]);
        } else {
            assert(out[i] == Sample { timestamp: timestamp, value: value });
        }
    }
    assert forall|i: int, j: int|
        0 <= i < j < out.len() implies (#[trigger] out[i]).timestamp
        <= (#[trigger] out[j]).timestamp by {
        if j < trimmed.len() {
            assert(out[i] == trimmed[i] && out[j] == trimmed[j]);
            assert(trimmed[i] == kept[i] && trimmed[j] == kept[j]);
        } else {
            assert(out[j].timestamp == timestamp);
            assert(out[i].timestamp <= timestamp);
        }
    }
}

/// Entries carrying strictly increasing bucket keys: no two entries share
/// a slot.
pub open spec fn strictly_increasing_keys<V>(s: Seq<Sample<V>>, width: u64) -> bool {
    forall|i: int, j: int|
        0 <= i < j < s.len() ==> bucket_key((#[trigger] s[i]).timestamp, width) < bucket_key(
            (#[trigger] s[j]).timestamp,
            width,
        )
}

/// Slot-uniqueness law (bucketed modes): a window whose entries carry
/// strictly increasing bucket keys, and whose detector stores the newest
/// entry's key, keeps both properties across one detector step and one
/// ingestion step at a timestamp no earlier than the newest entry.  In
/// particular the window never retains two entries of the same slot: a
/// same-key sample replaces the newest entry, and a later-key sample is
/// appended after it.
pub proof fn lemma_slot_uniqueness<V>(
    d: AdaptiveTimeDetector,
    s: Seq<Sample<V>>,
    duration_secs: u64,
    boundary: EvictionBoundary,
    timestamp: i64,
    value: V,
    width: u64,
)
    requires
        d.wf(),
        d.frequency == DetectedFrequency::Intraday(width),
        in_order_replay(s, timestamp),
        strictly_increasing_keys(s, width),
        s.len() > 0 ==> d.last_minute_bucket == Some(bucket_key_i64(s.last().timestamp, width)),
    ensures
        ({
            let out = ingested(
                s,
                timestamp - duration_secs,
                boundary,
                d.replaces(timestamp),
                timestamp,
                value,
            );
            &&& strictly_increasing_keys(out, width)
            &&& d.stepped(timestamp).last_minute_bucket == Some(
                bucket_key_i64(out.last().timestamp, width),
            )
        }),
{
    let cutoff = timestamp - duration_secs;
    let kept = surviving(s, cutoff, boundary);
    let replace = d.replaces(timestamp);
    let trimmed = if replace && kept.len() > 0 {
        kept.drop_last()
    } else {
        kept
    };
    let out = ingested(s, cutoff, boundary, replace, timestamp, value);
    lemma_surviving_is_suffix(s, cutoff, boundary);
    lemma_bucket_key_fits(timestamp, width);
    let offset = s.len() - kept.len();
    // Every trimmed entry keeps its key strictly below the incoming key.
    assert forall|i: int|
        0 <= i < trimmed.len() implies bucket_key((#[trigger] trimmed[i]).timestamp, width)
        < bucket_key(timestamp, width) by {
        assert(trimmed[i] == kept[i]);
        assert(kept[i] == s[offset + i]);
        assert(s.len() > 0);
        lemma_bucket_key_fits(s.last().timestamp, width);
        lemma_div_is_ordered(s[offset + i].timestamp as int, timestamp as int, width as int);
        if replace {
            // The incoming key equals the newest entry's key, which every
            // earlier entry's key lies strictly below; the newest entry is
            // the one trimmed away (or already evicted).
            assert(bucket_key(s.last().timestamp, width) == bucket_key(timestamp, width));
            // A trimmed entry exists, so the eviction pass kept more than
            // the newest entry, and this one lies strictly before it.
            assert(kept.len() > 1);
            assert(kept.last() == s[s.len() - 1]);
            assert(offset + i < s.len() - 1);
        } else {
            // A fresh key is no smaller than the newest entry's key and
            // differs from it, so it is strictly larger.
            assert(bucket_key(s.last().timestamp, width) != bucket_key(timestamp, width));
            lemma_div_is_ordered(
                s.last().timestamp as int,
                timestamp as int,
                width as int,
            );
            if offset + i < s.len() - 1 {
                assert(bucket_key(s[offset + i].timestamp, width) < bucket_key(
                    s.last().timestamp,
                    width,
                ));
            }
        }
    }
    assert forall|i: int, j: int|
        0 <= i < j < out.len() implies bucket_key((#[trigger] out[i]).timestamp, width)
        < bucket_key((#[trigger] out[j]).timestamp, width) by {
        if j < trimmed.len() {
            assert(out[i] == trimmed[i] && out[j] == trimmed[j]);
            assert(trimmed[i] == kept[i] && trimmed[j] == kept[j]);
            assert(kept[i] == s[offset + i] && kept[j] == s[offset + j]);
        } else {
            assert(out[j].timestamp == timestamp);
            assert(out[i] == trimmed[i]);
        }
    }
}

/// The surviving entries form a suffix of the original window, so every
/// surviving entry occurs in it.
pub proof fn lemma_surviving_is_suffix<V>(s: Seq<Sample<V>>, cutoff: int, boundary: EvictionBoundary)
    ensures
        surviving(s, cutoff, boundary) == s.skip(s.len() - surviving(s, cutoff, boundary).len()),
        surviving(s, cutoff, boundary).len() <= s.len(),
        forall|i: int|
            0 <= i < surviving(s, cutoff, boundary).len() ==> #[trigger] surviving(
                s,
                cutoff,
                boundary,
            )[i] == s[s.len() - surviving(s, cutoff, boundary).len() + i],
    decreases s.len(),
{
    if s.len() > 0 && is_stale(s[0].timestamp, cutoff, boundary) {
        lemma_surviving_is_suffix(s.drop_first(), cutoff, boundary);
        let kept = surviving(s, cutoff, boundary);
        assert(s.drop_first() =~= s.skip(1));
        assert forall|i: int| 0 <= i < kept.len() implies #[trigger] kept[i] == s[s.len()
            - kept.len() + i] by {
            assert(kept[i] == s.drop_first()[s.drop_first().len() - kept.len() + i]);
        }
        assert(kept =~= s.skip(s.len() - kept.len()));
    } else {
        assert(surviving(s, cutoff, boundary) =~= s.skip(0));
    }
}

} // verus!
