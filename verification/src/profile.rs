//! Profiling utilities for performance measurement.
//!
//! Timings of named operations are collected, and for each operation the
//! number of its timings, their sum, the shortest and the longest are kept.

use vstd::prelude::*;
use std::time::{Duration, Instant};
use vstd::string::StringExecFns;
use crate::text::str_eq;
use crate::trusted::{duration_micros, duration_millis, elapsed_since, instant_now};

verus! {

/// A timing measurement for a single operation.
#[derive(Debug)]
pub struct Timing {
    /// Name of the operation being measured.
    pub name: String,
    /// Duration of the operation.
    pub duration: Duration,
    /// Timestamp of the measurement.
    pub timestamp: Instant,
}

impl Timing {
    /// Create a new timing measurement, taken now.
    pub fn new(name: String, duration: Duration) -> (r: Self)
        ensures
            r.name == name,
            r.duration == duration,
    {
        Timing { name, duration, timestamp: instant_now() }
    }

    /// Get duration in milliseconds.
    pub fn as_millis(&self) -> u128 {
        duration_millis(&self.duration)
    }

    /// Get duration in microseconds.
    pub fn as_micros(&self) -> u128 {
        duration_micros(&self.duration)
    }
}

/// Statistics for a single operation type. The average is the total over
/// the count.
#[derive(Debug, Clone)]
pub struct TimingStats {
    /// Name of the operation.
    pub operation: String,
    /// Number of timings.
    pub count: usize,
    /// Sum of the timings in milliseconds.
    pub total_ms: u128,
    /// The shortest timing in milliseconds.
    pub min_ms: u128,
    /// The longest timing in milliseconds.
    pub max_ms: u128,
}

/// The statistics of one operation, as numbers.
pub struct Totals {
    pub count: nat,
    pub total_ms: nat,
    pub min_ms: nat,
    pub max_ms: nat,
}

/// The statistics of an operation of which no timing was taken.
pub open spec fn no_timings() -> Totals {
    Totals { count: 0, total_ms: 0, min_ms: u128::MAX as nat, max_ms: 0 }
}

/// The sum of `a` and `b`, or `largest` where the sum is beyond it.
pub open spec fn capped_sum(a: nat, b: nat, largest: nat) -> nat {
    if a + b <= largest {
        a + b
    } else {
        largest
    }
}

/// The statistics after one more timing of `ms` milliseconds. Count and
/// total stay at the largest number that they can hold.
pub open spec fn with_timing(totals: Totals, ms: nat) -> Totals {
    Totals {
        count: capped_sum(totals.count, 1, usize::MAX as nat),
        total_ms: capped_sum(totals.total_ms, ms, u128::MAX as nat),
        min_ms: if ms < totals.min_ms {
            ms
        } else {
            totals.min_ms
        },
        max_ms: if ms > totals.max_ms {
            ms
        } else {
            totals.max_ms
        },
    }
}

impl TimingStats {
    /// The statistics as numbers.
    pub open spec fn totals(&self) -> Totals {
        Totals {
            count: self.count as nat,
            total_ms: self.total_ms as nat,
            min_ms: self.min_ms as nat,
            max_ms: self.max_ms as nat,
        }
    }
}

/// The place of the first statistics of `stats` from `from` on that are
/// those of `operation`, or the length of `stats` where there are none.
pub open spec fn find_stats(stats: Seq<TimingStats>, operation: Seq<char>, from: int) -> int
    decreases stats.len() - from,
{
    if from < 0 || from >= stats.len() {
        stats.len() as int
    } else if stats[from].operation@ == operation {
        from
    } else {
        find_stats(stats, operation, from + 1)
    }
}

/// What `find_stats` returns is the place of statistics of `operation`, or
/// the length of `stats`, and no statistics before it are those of
/// `operation`.
pub proof fn lemma_find_stats(stats: Seq<TimingStats>, operation: Seq<char>, from: int)
    requires
        0 <= from <= stats.len(),
    ensures
        from <= find_stats(stats, operation, from) <= stats.len(),
        find_stats(stats, operation, from) < stats.len() ==> stats[find_stats(
            stats,
            operation,
            from,
        )].operation@ == operation,
        forall|k: int|
            from <= k < find_stats(stats, operation, from) ==> (#[trigger] stats[k]).operation@
                != operation,
    decreases stats.len() - from,
{
    if from < stats.len() && stats[from].operation@ != operation {
        lemma_find_stats(stats, operation, from + 1);
    }
}

/// Profile data collector for multiple operations.
#[derive(Debug)]
pub struct ProfileData {
    /// All timing measurements collected.
    timings: Vec<Timing>,
    /// Statistics per operation name, in the order in which the operations
    /// were first timed.
    stats: Vec<TimingStats>,
}

impl ProfileData {
    /// The statistics kept, in the order in which the operations were
    /// first timed.
    pub closed spec fn spec_stats(&self) -> Seq<TimingStats> {
        self.stats@
    }

    /// The number of timings collected.
    pub closed spec fn spec_timing_count(&self) -> nat {
        self.timings@.len()
    }

    /// The statistics kept of `operation`, as numbers, if any are kept.
    pub open spec fn lookup(&self, operation: Seq<char>) -> Option<Totals> {
        let at = find_stats(self.spec_stats(), operation, 0);
        if at < self.spec_stats().len() {
            Some(self.spec_stats()[at].totals())
        } else {
            None
        }
    }

    /// The statistics of `operation`, as numbers: those of no timing where
    /// none are kept.
    pub open spec fn totals_of(&self, operation: Seq<char>) -> Totals {
        match self.lookup(operation) {
            Some(totals) => totals,
            None => no_timings(),
        }
    }

    /// Create a new profile data collector, with no timing.
    pub fn new() -> (r: Self)
        ensures
            r.spec_stats().len() == 0,
            r.spec_timing_count() == 0,
    {
        ProfileData { timings: Vec::new(), stats: Vec::new() }
    }

    /// The place of the statistics of `operation`, or the number of
    /// statistics kept.
    fn position(&self, operation: &str) -> (r: usize)
        ensures
            r as int == find_stats(self.spec_stats(), operation@, 0),
            r <= self.spec_stats().len(),
    {
        let mut i: usize = 0;
        while i < self.stats.len()
            invariant
                i <= self.stats@.len(),
                find_stats(self.stats@, operation@, 0) == find_stats(
                    self.stats@,
                    operation@,
                    i as int,
                ),
            decreases self.stats@.len() - i,
        {
            if str_eq(self.stats[i].operation.as_str(), operation) {
                return i;
            }
            i = i + 1;
        }
        i
    }

    /// Takes one timing of `ms` milliseconds of `operation` into the
    /// statistics: those of `operation` take the timing in, all others
    /// stay.
    pub fn record_millis(&mut self, operation: &str, ms: u128)
        ensures
            final(self).lookup(operation@) == Some(
                with_timing(old(self).totals_of(operation@), ms as nat),
            ),
            forall|other: Seq<char>|
                other != operation@ ==> #[trigger] final(self).lookup(other) == old(self).lookup(
                    other,
                ),
            final(self).spec_stats().len() == if old(self).lookup(operation@) is Some {
                old(self).spec_stats().len()
            } else {
                old(self).spec_stats().len() + 1
            },
            final(self).spec_timing_count() == old(self).spec_timing_count(),
    {
        let at = self.position(operation);
        let ghost before = self.stats@;
        if at == self.stats.len() {
            self.stats.push(
                TimingStats {
                    operation: String::from_str(operation),
                    count: 1,
                    total_ms: ms,
                    min_ms: ms,
                    max_ms: ms,
                },
            );
        } else {
            let kept = &self.stats[at];
            let updated = TimingStats {
                operation: String::from_str(operation),
                count: if kept.count < usize::MAX {
                    kept.count + 1
                } else {
                    kept.count
                },
                total_ms: if ms <= u128::MAX - kept.total_ms {
                    kept.total_ms + ms
                } else {
                    u128::MAX
                },
                min_ms: if ms < kept.min_ms {
                    ms
                } else {
                    kept.min_ms
                },
                max_ms: if ms > kept.max_ms {
                    ms
                } else {
                    kept.max_ms
                },
            };
            proof {
                lemma_find_stats(before, operation@, 0);
            }
            self.stats.set(at, updated);
        }
        proof {
            let after = self.stats@;
            lemma_find_stats(before, operation@, 0);
            lemma_same_names(before, after, operation@, at as int, 0);
            assert forall|other: Seq<char>| other != operation@ implies #[trigger] self.lookup(
                other,
            ) == old(self).lookup(other) by {
                lemma_other_names(before, after, operation@, other, at as int, 0);
            }
        }
    }

    /// Record a timing measurement: the timing is kept, and its whole
    /// milliseconds are taken into the statistics of its operation as
    /// `record_millis` does.
    pub fn record(&mut self, timing: Timing)
        ensures
            final(self).lookup(timing.name@) is Some,
            forall|other: Seq<char>|
                other != timing.name@ ==> #[trigger] final(self).lookup(other) == old(self).lookup(
                    other,
                ),
            final(self).totals_of(timing.name@).count == capped_sum(
                old(self).totals_of(timing.name@).count,
                1,
                usize::MAX as nat,
            ),
            final(self).spec_timing_count() == old(self).spec_timing_count() + 1,
    {
        let ms = timing.as_millis();
        self.record_millis(timing.name.as_str(), ms);
        let ghost recorded = *self;
        self.timings.push(timing);
        proof {
            assert forall|other: Seq<char>| other != timing.name@ implies #[trigger] self.lookup(
                other,
            ) == old(self).lookup(other) by {
                assert(self.lookup(other) == recorded.lookup(other));
            }
        }
    }

    /// Get statistics for a specific operation.
    pub fn get_stats(&self, operation: &str) -> (r: Option<&TimingStats>)
        ensures
            r is Some <==> self.lookup(operation@) is Some,
            r is Some ==> r->0.operation@ == operation@ && Some(r->0.totals()) == self.lookup(
                operation@,
            ),
    {
        let at = self.position(operation);
        proof {
            lemma_find_stats(self.stats@, operation@, 0);
        }
        if at < self.stats.len() {
            Some(&self.stats[at])
        } else {
            None
        }
    }

    /// Get all statistics, in the order in which the operations were first
    /// timed.
    pub fn all_stats(&self) -> (r: Vec<&TimingStats>)
        ensures
            r@.len() == self.spec_stats().len(),
            forall|i: int| 0 <= i < r@.len() ==> *(#[trigger] r@[i]) == self.spec_stats()[i],
    {
        let mut all: Vec<&TimingStats> = Vec::new();
        let mut i: usize = 0;
        while i < self.stats.len()
            invariant
                i <= self.stats@.len(),
                all@.len() == i,
                forall|k: int| 0 <= k < i ==> *(#[trigger] all@[k]) == self.stats@[k],
            decreases self.stats@.len() - i,
        {
            all.push(&self.stats[i]);
            i = i + 1;
        }
        all
    }

    /// The number of timings collected.
    pub fn timing_count(&self) -> (r: usize)
        ensures
            r == self.spec_timing_count(),
    {
        self.timings.len()
    }
}

/// Where `after` is `before` with the statistics at `at` replaced by
/// statistics of `operation`, or with such statistics added at the end
/// where `at` is the length of `before` and no statistics of `operation`
/// are in `before`: those of `operation` are found at `at`.
proof fn lemma_same_names(
    before: Seq<TimingStats>,
    after: Seq<TimingStats>,
    operation: Seq<char>,
    at: int,
    from: int,
)
    requires
        0 <= from <= at <= before.len(),
        at == find_stats(before, operation, 0),
        at < before.len() ==> after.len() == before.len(),
        at == before.len() ==> after.len() == before.len() + 1,
        after[at].operation@ == operation,
        forall|k: int| 0 <= k < before.len() && k != at ==> after[k] == before[k],
    ensures
        find_stats(after, operation, from) == at,
    decreases at - from,
{
    lemma_find_stats(before, operation, 0);
    if from < at {
        lemma_same_names(before, after, operation, at, from + 1);
    }
}

/// In the same setting, statistics of another operation are found where
/// they were.
proof fn lemma_other_names(
    before: Seq<TimingStats>,
    after: Seq<TimingStats>,
    operation: Seq<char>,
    other: Seq<char>,
    at: int,
    from: int,
)
    requires
        0 <= from <= before.len(),
        0 <= at <= before.len(),
        other != operation,
        at < before.len() ==> after.len() == before.len() && before[at].operation@ == operation,
        at == before.len() ==> after.len() == before.len() + 1,
        after[at].operation@ == operation,
        forall|k: int| 0 <= k < before.len() && k != at ==> after[k] == before[k],
    ensures
        find_stats(before, other, from) < before.len() <==> find_stats(after, other, from)
            < after.len(),
        find_stats(before, other, from) < before.len() ==> find_stats(after, other, from)
            == find_stats(before, other, from) && after[find_stats(after, other, from)]
            == before[find_stats(before, other, from)],
    decreases before.len() - from,
{
    if from < before.len() {
        if before[from].operation@ != other {
            lemma_other_names(before, after, operation, other, at, from + 1);
        }
    } else {
        if at == before.len() {
            assert(find_stats(after, other, from + 1) == after.len());
        }
    }
}

/// A simple timer that measures elapsed time.
#[derive(Debug)]
pub struct Timer {
    name: String,
    start: Instant,
}

impl Timer {
    /// The name of the operation that the timer measures.
    pub closed spec fn spec_name(&self) -> Seq<char> {
        self.name@
    }

    /// Start a new timer, now.
    pub fn start(name: &str) -> (r: Self)
        ensures
            r.spec_name() == name@,
    {
        Timer { name: String::from_str(name), start: instant_now() }
    }

    /// Stop the timer and record the measurement: a timing of the timer's
    /// operation, whose duration is the time since the start.
    pub fn stop(self, profile: &mut ProfileData) -> (r: Timing)
        ensures
            r.name@ == self.spec_name(),
            final(profile).lookup(self.spec_name()) is Some,
            final(profile).spec_timing_count() == old(profile).spec_timing_count() + 1,
            forall|other: Seq<char>|
                other != self.spec_name() ==> #[trigger] final(profile).lookup(other) == old(
                    profile,
                ).lookup(other),
    {
        let duration = elapsed_since(&self.start);
        let recorded = Timing {
            name: self.name.clone(),
            duration,
            timestamp: instant_now(),
        };
        let timing = Timing { name: self.name, duration, timestamp: recorded.timestamp };
        profile.record(recorded);
        timing
    }
}

} // verus!
