//! Memory tracking and management for a shared Whisper context.
//!
//! One tracker stands for one loaded inference engine. Each session that
//! takes the engine counts a reference up and each one that gives it back
//! counts it down. An engine that nobody refers to may be unloaded once it
//! has been idle for longer than a timeout. Idle time is measured from the
//! last time a reference was taken, not from the last release.
//!
//! A `MemoryTracker` is exclusive to its owner. A `SharedTracker` is a
//! handle to a tracker behind a lock, for sessions that share an engine.

use vstd::prelude::*;
use std::sync::Arc;
use std::time::Instant;
use vstd::rwlock::{RwLock, RwLockPredicate};
use crate::trusted::{duration_nanos, elapsed_since, instant_now, share};

verus! {

/// Memory usage statistics for a Whisper context.
#[derive(Debug)]
pub struct MemoryStats {
    /// Total memory allocated (in bytes): an estimate based on model size.
    pub total_bytes: u64,
    /// Peak memory usage (in bytes).
    pub peak_bytes: u64,
    /// Current number of active sessions.
    pub active_sessions: usize,
    /// Total sessions created.
    pub total_sessions: u64,
    /// Last activity timestamp.
    pub last_activity: Instant,
}

/// Nanoseconds in a second.
pub const NANOS_PER_SEC: u128 = 1_000_000_000;

/// Whether something that was last active `elapsed_nanos` nanoseconds ago
/// has been idle for more than `timeout_secs` seconds.
pub fn idle_after(elapsed_nanos: u128, timeout_secs: u64) -> (r: bool)
    ensures
        r == (elapsed_nanos > timeout_secs * NANOS_PER_SEC),
{
    elapsed_nanos > (timeout_secs as u128) * NANOS_PER_SEC
}

/// Whether an engine with `ref_count` references that was last active
/// `elapsed_nanos` nanoseconds ago is to be unloaded: never without a
/// timeout, never while it is referred to, and otherwise where it has been
/// idle for more than the timeout, however little more.
pub fn unload_due(ref_count: usize, idle_timeout_secs: Option<u64>, elapsed_nanos: u128) -> (r:
    bool)
    ensures
        r == (idle_timeout_secs is Some && ref_count == 0 && elapsed_nanos > idle_timeout_secs->0
            * NANOS_PER_SEC),
{
    match idle_timeout_secs {
        Some(timeout) => ref_count == 0 && idle_after(elapsed_nanos, timeout),
        None => false,
    }
}

impl MemoryStats {
    /// The statistics of a model of the given size that was loaded at the
    /// time `now`.
    pub fn loaded_at(model_size_bytes: u64, now: Instant) -> (r: Self)
        ensures
            r.total_bytes == model_size_bytes,
            r.peak_bytes == model_size_bytes,
            r.active_sessions == 0,
            r.total_sessions == 0,
            r.last_activity == now,
    {
        MemoryStats {
            total_bytes: model_size_bytes,
            peak_bytes: model_size_bytes,
            active_sessions: 0,
            total_sessions: 0,
            last_activity: now,
        }
    }

    /// The statistics of a model of the given size that was just loaded:
    /// `loaded_at` of the present moment.
    pub fn new(model_size_bytes: u64) -> (r: Self)
        ensures
            r.total_bytes == model_size_bytes,
            r.peak_bytes == model_size_bytes,
            r.active_sessions == 0,
            r.total_sessions == 0,
    {
        MemoryStats::loaded_at(model_size_bytes, instant_now())
    }

    /// Check if idle for more than the specified seconds, by the clock:
    /// `idle_after` of the time since the last activity.
    pub fn is_idle(&self, timeout_secs: u64) -> (r: bool) {
        let elapsed = elapsed_since(&self.last_activity);
        idle_after(duration_nanos(&elapsed), timeout_secs)
    }
}

/// One more than `n`, or `n` where that is the largest count.
pub open spec fn count_up(n: nat, largest: nat) -> nat {
    if n < largest {
        n + 1
    } else {
        n
    }
}

/// Usage tracker of a shared inference engine.
#[derive(Debug)]
pub struct MemoryTracker {
    /// Memory statistics.
    stats: MemoryStats,
    /// Reference count for sharing.
    ref_count: usize,
}

impl MemoryTracker {
    /// The statistics of the tracker.
    pub closed spec fn spec_stats(&self) -> MemoryStats {
        self.stats
    }

    /// The number of references to the engine.
    pub closed spec fn spec_ref_count(&self) -> usize {
        self.ref_count
    }

    /// The tracker of a model of the given size: no reference, no session.
    pub fn new(model_size_bytes: u64) -> (r: Self)
        ensures
            r.spec_ref_count() == 0,
            r.spec_stats().total_bytes == model_size_bytes,
            r.spec_stats().peak_bytes == model_size_bytes,
            r.spec_stats().active_sessions == 0,
            r.spec_stats().total_sessions == 0,
    {
        MemoryTracker { stats: MemoryStats::new(model_size_bytes), ref_count: 0 }
    }

    /// Takes a reference at the time `now`.
    ///
    /// The reference count goes up by one and wraps around at the largest
    /// count. One more session is active and one more was created, each
    /// count staying where it is at its largest. The time of the last
    /// activity is `now`.
    pub fn inc_ref_at(&mut self, now: Instant)
        ensures
            final(self).spec_ref_count() == if old(self).spec_ref_count() == usize::MAX {
                0
            } else {
                old(self).spec_ref_count() + 1
            },
            final(self).spec_stats().active_sessions == count_up(
                old(self).spec_stats().active_sessions as nat,
                usize::MAX as nat,
            ),
            final(self).spec_stats().total_sessions == count_up(
                old(self).spec_stats().total_sessions as nat,
                u64::MAX as nat,
            ),
            final(self).spec_stats().total_bytes == old(self).spec_stats().total_bytes,
            final(self).spec_stats().peak_bytes == old(self).spec_stats().peak_bytes,
            final(self).spec_stats().last_activity == now,
    {
        self.ref_count = if self.ref_count == usize::MAX {
            0
        } else {
            self.ref_count + 1
        };
        if self.stats.active_sessions < usize::MAX {
            self.stats.active_sessions = self.stats.active_sessions + 1;
        }
        if self.stats.total_sessions < u64::MAX {
            self.stats.total_sessions = self.stats.total_sessions + 1;
        }
        self.update_activity_at(now);
    }

    /// Increment reference count: `inc_ref_at` of the present moment.
    pub fn inc_ref(&mut self)
        ensures
            final(self).spec_ref_count() == if old(self).spec_ref_count() == usize::MAX {
                0
            } else {
                old(self).spec_ref_count() + 1
            },
            final(self).spec_stats().active_sessions == count_up(
                old(self).spec_stats().active_sessions as nat,
                usize::MAX as nat,
            ),
            final(self).spec_stats().total_sessions == count_up(
                old(self).spec_stats().total_sessions as nat,
                u64::MAX as nat,
            ),
            final(self).spec_stats().total_bytes == old(self).spec_stats().total_bytes,
            final(self).spec_stats().peak_bytes == old(self).spec_stats().peak_bytes,
    {
        self.inc_ref_at(instant_now());
    }

    /// Decrement reference count.
    ///
    /// The reference count goes down by one and wraps around at zero.
    /// Where it was not zero, one session fewer is active, but never fewer
    /// than none. The time of the last activity stays.
    pub fn dec_ref(&mut self)
        ensures
            final(self).spec_ref_count() == if old(self).spec_ref_count() == 0 {
                usize::MAX
            } else {
                (old(self).spec_ref_count() - 1) as usize
            },
            final(self).spec_stats().active_sessions == if old(self).spec_ref_count() > 0 && old(
                self,
            ).spec_stats().active_sessions > 0 {
                (old(self).spec_stats().active_sessions - 1) as usize
            } else {
                old(self).spec_stats().active_sessions
            },
            final(self).spec_stats().total_sessions == old(self).spec_stats().total_sessions,
            final(self).spec_stats().total_bytes == old(self).spec_stats().total_bytes,
            final(self).spec_stats().peak_bytes == old(self).spec_stats().peak_bytes,
            final(self).spec_stats().last_activity == old(self).spec_stats().last_activity,
    {
        let prev = self.ref_count;
        self.ref_count = if prev == 0 {
            usize::MAX
        } else {
            prev - 1
        };
        if prev > 0 {
            if self.stats.active_sessions > 0 {
                self.stats.active_sessions = self.stats.active_sessions - 1;
            }
        }
    }

    /// Sets the time of the last activity to `now`. All counts stay.
    pub fn update_activity_at(&mut self, now: Instant)
        ensures
            final(self).spec_stats().last_activity == now,
            final(self).spec_ref_count() == old(self).spec_ref_count(),
            final(self).spec_stats().active_sessions == old(self).spec_stats().active_sessions,
            final(self).spec_stats().total_sessions == old(self).spec_stats().total_sessions,
            final(self).spec_stats().total_bytes == old(self).spec_stats().total_bytes,
            final(self).spec_stats().peak_bytes == old(self).spec_stats().peak_bytes,
    {
        self.stats.last_activity = now;
    }

    /// Update activity timestamp: `update_activity_at` of the present
    /// moment. All counts stay.
    pub fn update_activity(&mut self)
        ensures
            final(self).spec_ref_count() == old(self).spec_ref_count(),
            final(self).spec_stats().active_sessions == old(self).spec_stats().active_sessions,
            final(self).spec_stats().total_sessions == old(self).spec_stats().total_sessions,
            final(self).spec_stats().total_bytes == old(self).spec_stats().total_bytes,
            final(self).spec_stats().peak_bytes == old(self).spec_stats().peak_bytes,
    {
        self.update_activity_at(instant_now());
    }

    /// Get current memory statistics.
    pub fn get_stats(&self) -> (r: MemoryStats)
        ensures
            r == self.spec_stats(),
    {
        MemoryStats {
            total_bytes: self.stats.total_bytes,
            peak_bytes: self.stats.peak_bytes,
            active_sessions: self.stats.active_sessions,
            total_sessions: self.stats.total_sessions,
            last_activity: self.stats.last_activity,
        }
    }

    /// Get reference count.
    pub fn ref_count(&self) -> (r: usize)
        ensures
            r == self.spec_ref_count(),
    {
        self.ref_count
    }

    /// Check if the engine should be unloaded where the time since the
    /// last activity is `elapsed_nanos` nanoseconds: without a timeout, and
    /// while the engine is referred to, it is not; otherwise it is where
    /// that time is more than the timeout, however little more.
    pub fn should_unload_after(&self, idle_timeout_secs: Option<u64>, elapsed_nanos: u128) -> (r:
        bool)
        ensures
            r == (idle_timeout_secs is Some && self.spec_ref_count() == 0 && elapsed_nanos
                > idle_timeout_secs->0 * NANOS_PER_SEC),
    {
        unload_due(self.ref_count, idle_timeout_secs, elapsed_nanos)
    }

    /// Check if the engine should be unloaded, by the clock: `unload_due`
    /// of the reference count, the timeout and the time since the last
    /// activity. Without a timeout, and while the engine is referred
    /// to, it is not.
    pub fn should_unload(&self, idle_timeout_secs: Option<u64>) -> (r: bool)
        ensures
            idle_timeout_secs is None ==> !r,
            self.spec_ref_count() > 0 ==> !r,
    {
        match idle_timeout_secs {
            Some(_) => {
                if self.ref_count == 0 {
                    let elapsed = elapsed_since(&self.stats.last_activity);
                    self.should_unload_after(idle_timeout_secs, duration_nanos(&elapsed))
                } else {
                    false
                }
            },
            None => false,
        }
    }
}

/// What holds of the tracker behind the lock of a shared tracker at all
/// times: it is the tracker of a model of the size that the shared tracker
/// was made for, and no more sessions are active than were created.
pub struct TrackerOf {
    pub model_size_bytes: u64,
}

impl RwLockPredicate<MemoryTracker> for TrackerOf {
    open spec fn inv(self, tracker: MemoryTracker) -> bool {
        &&& tracker.spec_stats().total_bytes == self.model_size_bytes
        &&& tracker.spec_stats().peak_bytes == self.model_size_bytes
        &&& tracker.spec_stats().active_sessions <= tracker.spec_stats().total_sessions
    }
}

/// A handle to the usage tracker of one loaded engine, shared by all
/// sessions that refer to the engine.
///
/// A clone of a handle is a handle to the same tracker, and making it
/// counts one more reference to the engine. Every handle that was cloned
/// is to be released with `dec_ref` before it is dropped: the engine can
/// be unloaded only once no reference is counted.
pub struct SharedTracker {
    tracker: Arc<RwLock<MemoryTracker, TrackerOf>>,
    model_size_bytes: u64,
}

impl SharedTracker {
    /// The lock guards the tracker of a model of the size of this handle.
    #[verifier::type_invariant]
    spec fn guards_model(&self) -> bool {
        self.tracker.pred() == (TrackerOf { model_size_bytes: self.model_size_bytes })
    }

    /// Whether the two handles are handles to the same tracker.
    pub closed spec fn same_tracker(&self, other: &SharedTracker) -> bool {
        self.tracker == other.tracker
    }

    /// The size in bytes of the model that the tracker was made for.
    pub closed spec fn spec_model_size(&self) -> u64 {
        self.model_size_bytes
    }

    /// The handle to a new tracker of a model of the given size.
    pub fn new(model_size_bytes: u64) -> (r: Self)
        ensures
            r.spec_model_size() == model_size_bytes,
    {
        SharedTracker {
            tracker: Arc::new(
                RwLock::new(
                    MemoryTracker::new(model_size_bytes),
                    Ghost(TrackerOf { model_size_bytes }),
                ),
            ),
            model_size_bytes,
        }
    }

    /// Increment reference count, as `MemoryTracker::inc_ref` does.
    pub fn inc_ref(&self) {
        proof {
            use_type_invariant(self);
        }
        let (mut tracker, handle) = self.tracker.acquire_write();
        tracker.inc_ref();
        handle.release_write(tracker);
    }

    /// Decrement reference count, as `MemoryTracker::dec_ref` does.
    pub fn dec_ref(&self) {
        proof {
            use_type_invariant(self);
        }
        let (mut tracker, handle) = self.tracker.acquire_write();
        tracker.dec_ref();
        handle.release_write(tracker);
    }

    /// Update activity timestamp to now.
    pub fn update_activity(&self) {
        proof {
            use_type_invariant(self);
        }
        let (mut tracker, handle) = self.tracker.acquire_write();
        tracker.update_activity();
        handle.release_write(tracker);
    }

    /// Get the memory statistics as they are at the time of the call. The
    /// total and the peak are the size of the model at all times, and no
    /// more sessions are active than were created.
    pub fn get_stats(&self) -> (r: MemoryStats)
        ensures
            r.total_bytes == self.spec_model_size(),
            r.peak_bytes == self.spec_model_size(),
            r.active_sessions <= r.total_sessions,
    {
        proof {
            use_type_invariant(self);
        }
        let handle = self.tracker.acquire_read();
        let stats = handle.borrow().get_stats();
        handle.release_read();
        stats
    }

    /// Get the reference count as it is at the time of the call.
    pub fn ref_count(&self) -> usize {
        let handle = self.tracker.acquire_read();
        let count = handle.borrow().ref_count();
        handle.release_read();
        count
    }

    /// Check if the engine should be unloaded, as
    /// `MemoryTracker::should_unload` does at the time of the call.
    /// Without a timeout it is not.
    pub fn should_unload(&self, idle_timeout_secs: Option<u64>) -> (r: bool)
        ensures
            idle_timeout_secs is None ==> !r,
    {
        let handle = self.tracker.acquire_read();
        let unload = handle.borrow().should_unload(idle_timeout_secs);
        handle.release_read();
        unload
    }
}

impl Clone for SharedTracker {
    /// One more handle to the same tracker. One more reference to the
    /// engine is counted.
    fn clone(&self) -> (r: Self)
        ensures
            r.same_tracker(self),
            r.spec_model_size() == self.spec_model_size(),
    {
        proof {
            use_type_invariant(self);
        }
        self.inc_ref();
        SharedTracker { tracker: share(&self.tracker), model_size_bytes: self.model_size_bytes }
    }
}

} // verus!
