//! The sliding window behind a lock.
//!
//! One capture thread pushes samples while other threads read. The whole
//! window lies behind one lock, which each operation holds for as long as
//! it copies samples and no longer. A reader gets the window as it was
//! after some push, never a part of a push. Pushes of several writers are
//! not ordered among each other.
//!
//! What another thread does between two operations is not known, so an
//! operation promises only what holds of every window of the configured
//! capacity.

use vstd::prelude::*;
use vstd::rwlock::{RwLock, RwLockPredicate};
use super::buffer::{
    overflow_of, samples_in_usize, SlidingWindow, WindowConfig, WindowError, WindowResult,
};
use super::seconds::Seconds;

verus! {

/// What holds of the window behind the lock of a shared window: it is
/// well-formed and has the configuration that the shared window was made
/// with.
pub struct Guarded {
    pub config: WindowConfig,
}

impl<T> RwLockPredicate<SlidingWindow<T>> for Guarded {
    open spec fn inv(self, window: SlidingWindow<T>) -> bool {
        window.wf() && window.spec_config() == self.config
    }
}

/// The shorter of two lengths.
pub open spec fn at_most(a: nat, b: nat) -> nat {
    if a <= b {
        a
    } else {
        b
    }
}

/// A sliding window that threads share.
pub struct SharedWindow<T> {
    lock: RwLock<SlidingWindow<T>, Guarded>,
    config: WindowConfig,
}

impl<T> SharedWindow<T> {
    /// The lock guards a window of the configuration of the shared window.
    #[verifier::type_invariant]
    spec fn guards_config(&self) -> bool {
        self.lock.pred() == (Guarded { config: self.config })
    }

    /// The configuration of the window.
    pub closed spec fn spec_config(&self) -> WindowConfig {
        self.config
    }

    /// The number of samples the window can hold.
    pub open spec fn spec_capacity(&self) -> nat {
        self.spec_config().spec_buffer_capacity()
    }
}

impl<T: Copy + Default> SharedWindow<T> {
    /// Create a new shared window with default configuration.
    pub fn new() -> (r: Self)
        ensures
            r.spec_config() == (WindowConfig {
                duration_secs: Seconds { numer: 3, denom: 1 },
                sample_rate: 16000,
            }),
    {
        let window = SlidingWindow::new();
        let config = window.config();
        SharedWindow { lock: RwLock::new(window, Ghost(Guarded { config })), config }
    }

    /// Create a new shared window with specific configuration. Fails where
    /// duration and sample rate give a window of no samples.
    pub fn with_config(config: WindowConfig) -> (r: WindowResult<Self>)
        ensures
            config.spec_buffer_capacity() == 0 <==> r is Err,
            r is Err ==> r->Err_0 == WindowError::ZeroCapacity,
            r is Ok ==> r->Ok_0.spec_config() == config,
    {
        match SlidingWindow::with_config(config) {
            Ok(window) => Ok(
                SharedWindow { lock: RwLock::new(window, Ghost(Guarded { config })), config },
            ),
            Err(error) => Err(error),
        }
    }
}

impl<T: Copy> SharedWindow<T> {
    /// The configuration of the window.
    pub fn config(&self) -> (r: WindowConfig)
        ensures
            r == self.spec_config(),
    {
        self.config
    }

    /// Push audio samples into the window. Returns the number of samples
    /// that the window dropped: as many as the given samples alone are
    /// more than the window can hold, and more where the window held
    /// samples, but never more than were given.
    pub fn push(&self, samples: &[T]) -> (dropped: usize)
        ensures
            overflow_of(samples@.len(), self.spec_capacity()) <= dropped <= samples@.len(),
    {
        proof {
            use_type_invariant(self);
        }
        let (mut window, handle) = self.lock.acquire_write();
        proof {
            window.lemma_bounds();
        }
        let dropped = window.push(samples);
        handle.release_write(window);
        dropped
    }

    /// Get all audio currently in the window, oldest sample first.
    pub fn get_all(&self) -> (r: Vec<T>)
        ensures
            r@.len() <= self.spec_capacity(),
    {
        proof {
            use_type_invariant(self);
        }
        let handle = self.lock.acquire_read();
        let window = handle.borrow();
        proof {
            window.lemma_bounds();
        }
        let all = window.get_all();
        handle.release_read();
        all
    }

    /// Get the last `n` samples from the window, oldest first, or all
    /// samples where the window holds fewer.
    pub fn get_last_n(&self, n: usize) -> (r: Vec<T>)
        ensures
            r@.len() <= at_most(n as nat, self.spec_capacity()),
    {
        proof {
            use_type_invariant(self);
        }
        let handle = self.lock.acquire_read();
        let window = handle.borrow();
        proof {
            window.lemma_bounds();
        }
        let last = window.get_last_n(n);
        handle.release_read();
        last
    }

    /// Get the last `seconds` of audio from the window. Asking for more
    /// than the configured duration of the window is an error.
    pub fn get_last_seconds(&self, seconds: Seconds) -> (r: WindowResult<Vec<T>>)
        ensures
            seconds.longer_than(self.spec_config().duration_secs) <==> r is Err,
            r is Err ==> r->Err_0 == (WindowError::BufferOverflow { dropped: 0 }),
            r is Ok ==> r->Ok_0@.len() <= at_most(
                samples_in_usize(seconds, self.spec_config().sample_rate),
                self.spec_capacity(),
            ),
    {
        proof {
            use_type_invariant(self);
        }
        let handle = self.lock.acquire_read();
        let window = handle.borrow();
        proof {
            window.lemma_bounds();
        }
        let last = window.get_last_seconds(seconds);
        handle.release_read();
        last
    }

    /// Get the current duration of audio in the window: the number of
    /// samples that the window held at the time of the call, which are no
    /// more than it can hold, over the sample rate.
    pub fn duration_secs(&self) -> (r: Seconds)
        ensures
            r.numer <= self.spec_capacity(),
            r.denom == self.spec_config().sample_rate,
            r.denom > 0,
    {
        proof {
            use_type_invariant(self);
        }
        let handle = self.lock.acquire_read();
        let window = handle.borrow();
        proof {
            window.lemma_bounds();
        }
        let span = window.duration_secs();
        handle.release_read();
        span
    }

    /// Clear all samples from the window. The capacity stays.
    pub fn clear(&self) {
        proof {
            use_type_invariant(self);
        }
        let (mut window, handle) = self.lock.acquire_write();
        window.clear();
        handle.release_write(window);
    }
}

} // verus!
