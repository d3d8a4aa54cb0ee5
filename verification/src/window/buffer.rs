//! Sliding window buffer for audio samples.
//!
//! A fixed-capacity circular buffer that keeps the most recent samples of a
//! stream. The buffer is exclusive to its owner; the module `shared` puts
//! the whole structure behind one lock, for a capture thread and readers.

use vstd::prelude::*;
use super::seconds::Seconds;

verus! {

/// Errors that can occur in window operations.
#[derive(Debug, Clone, Copy, PartialEq, Eq, Structural)]
pub enum WindowError {
    /// More audio was asked for than the window is long.
    BufferOverflow { dropped: usize },
    /// The configured duration and sample rate give a window of no samples.
    ZeroCapacity,
}

pub type WindowResult<T> = Result<T, WindowError>;

/// Configuration for the sliding window.
#[derive(Debug, Clone, Copy, PartialEq)]
pub struct WindowConfig {
    /// Duration of the window.
    pub duration_secs: Seconds,
    /// Sample rate in Hz.
    pub sample_rate: u32,
}

/// Number of whole samples that the span holds at `sample_rate` Hz: the
/// span times the rate, rounded down.
pub open spec fn samples_in(span: Seconds, sample_rate: u32) -> nat {
    if span.denom == 0 {
        0
    } else {
        ((span.numer as nat) * (sample_rate as nat)) / (span.denom as nat)
    }
}

/// `samples_in`, cut off at the largest `usize`.
pub open spec fn samples_in_usize(span: Seconds, sample_rate: u32) -> nat {
    if samples_in(span, sample_rate) <= usize::MAX {
        samples_in(span, sample_rate)
    } else {
        usize::MAX as nat
    }
}

/// Computes `samples_in_usize`.
pub fn sample_count(span: Seconds, sample_rate: u32) -> (r: usize)
    ensures
        r as nat == samples_in_usize(span, sample_rate),
{
    if span.denom == 0 {
        return 0;
    }
    assert((span.numer as nat) * (sample_rate as nat) <= (u64::MAX as nat) * (u32::MAX as nat))
        by (nonlinear_arith)
        requires
            span.numer <= u64::MAX,
            sample_rate <= u32::MAX,
    ;
    let product: u128 = (span.numer as u128) * (sample_rate as u128);
    let count: u128 = product / (span.denom as u128);
    if count <= usize::MAX as u128 {
        count as usize
    } else {
        usize::MAX
    }
}

impl WindowConfig {
    /// Create a new window configuration.
    pub fn new(duration_secs: Seconds, sample_rate: u32) -> (r: Self)
        ensures
            r.duration_secs == duration_secs,
            r.sample_rate == sample_rate,
    {
        WindowConfig { duration_secs, sample_rate }
    }

    /// The capacity that `buffer_capacity` computes.
    pub open spec fn spec_buffer_capacity(&self) -> nat {
        samples_in_usize(self.duration_secs, self.sample_rate)
    }

    /// Calculate buffer capacity from configuration: duration times sample rate.
    pub fn buffer_capacity(&self) -> (r: usize)
        ensures
            r as nat == self.spec_buffer_capacity(),
    {
        sample_count(self.duration_secs, self.sample_rate)
    }
}

impl Default for WindowConfig {
    /// Three seconds at 16 kHz.
    fn default() -> (r: Self)
        ensures
            r.duration_secs == (Seconds { numer: 3, denom: 1 }),
            r.sample_rate == 16000,
    {
        WindowConfig { duration_secs: Seconds { numer: 3, denom: 1 }, sample_rate: 16000 }
    }
}

/// Position `offset` places after `pos` on a ring of `capacity` places.
pub open spec fn ring_index(pos: int, offset: int, capacity: int) -> int {
    (pos + offset) % capacity
}

/// On a ring, a sum below twice the capacity wraps around at most once.
pub proof fn lemma_ring_index(pos: int, offset: int, capacity: int)
    requires
        0 <= pos < capacity,
        0 <= offset <= capacity,
    ensures
        ring_index(pos, offset, capacity) == if pos + offset < capacity {
            pos + offset
        } else {
            pos + offset - capacity
        },
{
    if pos + offset < capacity {
        vstd::arithmetic::div_mod::lemma_small_mod((pos + offset) as nat, capacity as nat);
    } else {
        vstd::arithmetic::div_mod::lemma_small_mod(
            (pos + offset - capacity) as nat,
            capacity as nat,
        );
        vstd::arithmetic::div_mod::lemma_mod_sub_multiples_vanish(pos + offset, capacity);
    }
}

/// Computes `ring_index` without leaving `usize`.
fn wrap_index(pos: usize, offset: usize, capacity: usize) -> (r: usize)
    requires
        pos < capacity,
        offset <= capacity,
    ensures
        r as int == ring_index(pos as int, offset as int, capacity as int),
        r < capacity,
{
    proof {
        lemma_ring_index(pos as int, offset as int, capacity as int);
    }
    if offset < capacity - pos {
        pos + offset
    } else {
        offset - (capacity - pos)
    }
}

/// The last `keep` items of `s`, or all of `s` where it holds fewer.
pub open spec fn last_items<T>(s: Seq<T>, keep: nat) -> Seq<T> {
    if s.len() <= keep {
        s
    } else {
        s.subrange(s.len() - keep, s.len() as int)
    }
}

/// How many items of a sequence of `total` items do not fit into `keep` places.
pub open spec fn overflow_of(total: nat, keep: nat) -> nat {
    if total <= keep {
        0
    } else {
        (total - keep) as nat
    }
}

/// A sliding window buffer for audio samples.
///
/// Holds the most recent samples of a stream, at most `capacity` of them, in
/// a circular buffer whose storage is allocated once. Its view is the
/// sequence of samples held, oldest first.
pub struct SlidingWindow<T> {
    /// The circular buffer holding audio samples.
    buffer: Vec<T>,
    /// Current write position in the buffer.
    write_pos: usize,
    /// Number of valid samples in the buffer.
    len: usize,
    /// Total capacity of the buffer.
    capacity: usize,
    /// Window configuration.
    config: WindowConfig,
}

impl<T> View for SlidingWindow<T> {
    type V = Seq<T>;

    /// The samples held, oldest first.
    closed spec fn view(&self) -> Seq<T> {
        Seq::new(
            self.len as nat,
            |i: int| self.buffer@[ring_index(self.read_pos(), i, self.capacity as int)],
        )
    }
}

impl<T> SlidingWindow<T> {
    /// Place of the oldest sample.
    closed spec fn read_pos(&self) -> int {
        if self.len == self.capacity {
            self.write_pos as int
        } else {
            0
        }
    }

    /// The invariant of the window: the storage has `capacity` places, the
    /// cursor and the length stay within it, and a window that is not yet
    /// full holds its samples from the first place on.
    pub closed spec fn wf(&self) -> bool {
        &&& self.capacity > 0
        &&& self.buffer@.len() == self.capacity
        &&& self.write_pos < self.capacity
        &&& self.len <= self.capacity
        &&& self.len < self.capacity ==> self.write_pos == self.len
        &&& self.capacity as nat == self.config.spec_buffer_capacity()
    }

    /// The number of samples the window can hold.
    pub closed spec fn spec_capacity(&self) -> nat {
        self.capacity as nat
    }

    /// The configuration the window was made with.
    pub closed spec fn spec_config(&self) -> WindowConfig {
        self.config
    }

    /// A well-formed window holds at most its capacity, which is the one its
    /// configuration gives and is not zero.
    pub proof fn lemma_bounds(&self)
        requires
            self.wf(),
        ensures
            self@.len() <= self.spec_capacity(),
            0 < self.spec_capacity() <= usize::MAX,
            self.spec_capacity() == self.spec_config().spec_buffer_capacity(),
            self.spec_config().sample_rate > 0,
            self.spec_config().duration_secs.numer > 0,
            self.spec_config().duration_secs.denom > 0,
    {
        let c = self.config;
        if c.duration_secs.denom != 0 && (c.sample_rate == 0 || c.duration_secs.numer == 0) {
            assert((c.duration_secs.numer as nat) * (c.sample_rate as nat) == 0)
                by (nonlinear_arith)
                requires
                    c.sample_rate == 0 || c.duration_secs.numer == 0,
            ;
        }
    }
}


impl<T: Copy + Default> SlidingWindow<T> {
    /// Create a new sliding window with default configuration.
    pub fn new() -> (r: Self)
        ensures
            r.wf(),
            r@ == Seq::<T>::empty(),
            r.spec_capacity() == 48000,
            r.spec_config() == (WindowConfig {
                duration_secs: Seconds { numer: 3, denom: 1 },
                sample_rate: 16000,
            }),
    {
        let config = WindowConfig { duration_secs: Seconds { numer: 3, denom: 1 }, sample_rate: 16000 };
        let capacity: usize = 48000;
        assert(samples_in(Seconds { numer: 3, denom: 1 }, 16000) == 48000);
        let window = SlidingWindow {
            buffer: vec![T::default(); capacity],
            write_pos: 0,
            len: 0,
            capacity,
            config,
        };
        assert(window@ =~= Seq::<T>::empty());
        window
    }

    /// Create a new sliding window with specific configuration.
    ///
    /// Fails where duration and sample rate give a window of no samples.
    pub fn with_config(config: WindowConfig) -> (r: WindowResult<Self>)
        ensures
            config.spec_buffer_capacity() == 0 <==> r is Err,
            r is Err ==> r->Err_0 == WindowError::ZeroCapacity,
            r is Ok ==> {
                &&& r->Ok_0.wf()
                &&& r->Ok_0@ == Seq::<T>::empty()
                &&& r->Ok_0.spec_config() == config
                &&& r->Ok_0.spec_capacity() == config.spec_buffer_capacity()
            },
    {
        let capacity = config.buffer_capacity();
        if capacity == 0 {
            return Err(WindowError::ZeroCapacity);
        }
        let window = SlidingWindow {
            buffer: vec![T::default(); capacity],
            write_pos: 0,
            len: 0,
            capacity,
            config,
        };
        assert(window@ =~= Seq::<T>::empty());
        Ok(window)
    }
}

impl<T: Copy> SlidingWindow<T> {
    /// Number of samples currently held.
    pub fn len(&self) -> (r: usize)
        ensures
            r == self@.len(),
    {
        self.len
    }

    /// Number of samples the window can hold.
    pub fn capacity(&self) -> (r: usize)
        ensures
            r == self.spec_capacity(),
    {
        self.capacity
    }

    /// The configuration the window was made with.
    pub fn config(&self) -> (r: WindowConfig)
        ensures
            r == self.spec_config(),
    {
        self.config
    }

    /// Appends one sample, evicting the oldest one from a full window.
    fn push_one(&mut self, sample: T)
        requires
            old(self).wf(),
        ensures
            final(self).wf(),
            final(self).spec_capacity() == old(self).spec_capacity(),
            final(self).spec_config() == old(self).spec_config(),
            final(self)@ == last_items(old(self)@.push(sample), old(self).spec_capacity()),
    {
        let ghost before = *self;
        let pos = self.write_pos;
        let capacity = self.capacity;
        self.buffer.set(pos, sample);
        self.write_pos = wrap_index(pos, 1, capacity);
        if self.len < capacity {
            self.len = self.len + 1;
        }
        proof {
            let cap = capacity as int;
            let expected = last_items(before@.push(sample), capacity as nat);
            lemma_ring_index(pos as int, 1, cap);
            assert(self@.len() == expected.len());
            assert forall|i: int| 0 <= i < self@.len() implies self@[i] == expected[i] by {
                if before.len < capacity {
                    lemma_ring_index(0, i, cap);
                } else {
                    lemma_ring_index(self.write_pos as int, i, cap);
                    lemma_ring_index(pos as int, i + 1, cap);
                }
            }
            assert(self@ =~= expected);
        }
    }

    /// Push audio samples into the window.
    ///
    /// The samples are appended in order. Where the window cannot hold them
    /// all, it keeps the most recent `capacity` samples: the oldest ones,
    /// those of this call included, are dropped first. Returns the number of
    /// samples dropped by this call.
    pub fn push(&mut self, samples: &[T]) -> (dropped: usize)
        requires
            old(self).wf(),
        ensures
            final(self).wf(),
            final(self).spec_capacity() == old(self).spec_capacity(),
            final(self).spec_config() == old(self).spec_config(),
            final(self)@ == last_items(old(self)@ + samples@, old(self).spec_capacity()),
            dropped as nat == overflow_of(
                old(self)@.len() + samples@.len(),
                old(self).spec_capacity(),
            ),
    {
        let count = samples.len();
        let room = self.capacity - self.len;
        let dropped = if count > room {
            count - room
        } else {
            0
        };
        let mut i: usize = 0;
        proof {
            assert(samples@.subrange(0, 0) =~= Seq::<T>::empty());
            assert(old(self)@ + Seq::<T>::empty() =~= old(self)@);
        }
        while i < count
            invariant
                i <= count,
                count == samples@.len(),
                self.wf(),
                self.spec_capacity() == old(self).spec_capacity(),
                self.spec_config() == old(self).spec_config(),
                old(self)@.len() <= old(self).spec_capacity(),
                self@ == last_items(
                    old(self)@ + samples@.subrange(0, i as int),
                    old(self).spec_capacity(),
                ),
            decreases count - i,
        {
            let ghost pushed = old(self)@ + samples@.subrange(0, i as int);
            self.push_one(samples[i]);
            proof {
                lemma_last_items_push(pushed, samples@[i as int], old(self).spec_capacity());
                assert(pushed.push(samples@[i as int]) =~= old(self)@ + samples@.subrange(
                    0,
                    i + 1,
                ));
            }
            i = i + 1;
        }
        proof {
            assert(samples@.subrange(0, count as int) =~= samples@);
        }
        dropped
    }

    /// Copies out the most recent `count` samples, oldest first.
    fn copy_last(&self, count: usize) -> (r: Vec<T>)
        requires
            self.wf(),
            count <= self@.len(),
        ensures
            r@ == last_items(self@, count as nat),
    {
        let mut result: Vec<T> = Vec::with_capacity(count);
        let read_pos = if self.len == self.capacity {
            self.write_pos
        } else {
            0
        };
        let start_offset = self.len - count;
        let mut i: usize = 0;
        while i < count
            invariant
                self.wf(),
                i <= count <= self.len,
                start_offset == self.len - count,
                read_pos as int == self.read_pos(),
                result@.len() == i,
                forall|k: int| 0 <= k < i ==> result@[k] == self@[start_offset + k],
            decreases count - i,
        {
            let pos = wrap_index(read_pos, start_offset + i, self.capacity);
            result.push(self.buffer[pos]);
            i = i + 1;
        }
        assert(result@ =~= last_items(self@, count as nat));
        result
    }

    /// Get all audio currently in the window, oldest sample first.
    pub fn get_all(&self) -> (r: Vec<T>)
        requires
            self.wf(),
        ensures
            r@ == self@,
    {
        self.copy_last(self.len)
    }

    /// Get the last `n` samples from the window, oldest first.
    ///
    /// Where the window holds fewer than `n` samples, all of them are
    /// returned.
    pub fn get_last_n(&self, n: usize) -> (r: Vec<T>)
        requires
            self.wf(),
        ensures
            r@ == last_items(self@, n as nat),
            n >= self@.len() ==> r@ == self@,
    {
        let available = if n < self.len {
            n
        } else {
            self.len
        };
        self.copy_last(available)
    }

    /// Get the last `seconds` of audio from the window.
    ///
    /// Asking for more than the configured duration of the window is an
    /// error; otherwise the samples of that span are returned, or all
    /// samples where the window holds fewer.
    pub fn get_last_seconds(&self, seconds: Seconds) -> (r: WindowResult<Vec<T>>)
        requires
            self.wf(),
        ensures
            seconds.longer_than(self.spec_config().duration_secs) <==> r is Err,
            r is Err ==> r->Err_0 == (WindowError::BufferOverflow { dropped: 0 }),
            r is Ok ==> r->Ok_0@ == last_items(
                self@,
                samples_in_usize(seconds, self.spec_config().sample_rate),
            ),
    {
        if seconds.is_longer_than(&self.config.duration_secs) {
            return Err(WindowError::BufferOverflow { dropped: 0 });
        }
        let wanted = sample_count(seconds, self.config.sample_rate);
        Ok(self.get_last_n(wanted))
    }

    /// Get the current duration of audio in the window: the number of
    /// samples held over the sample rate.
    pub fn duration_secs(&self) -> (r: Seconds)
        requires
            self.wf(),
        ensures
            r == (Seconds { numer: self@.len() as u64, denom: self.spec_config().sample_rate as u64 }),
            r.numer == self@.len(),
            r.denom > 0,
    {
        proof {
            self.lemma_bounds();
        }
        Seconds { numer: self.len as u64, denom: self.config.sample_rate as u64 }
    }

    /// Clear all samples from the window. The capacity stays.
    pub fn clear(&mut self)
        requires
            old(self).wf(),
        ensures
            final(self).wf(),
            final(self)@ == Seq::<T>::empty(),
            final(self).spec_capacity() == old(self).spec_capacity(),
            final(self).spec_config() == old(self).spec_config(),
    {
        self.len = 0;
        self.write_pos = 0;
        assert(self@ =~= Seq::<T>::empty());
    }
}

/// Keeping the last `keep` items commutes with appending one item.
pub proof fn lemma_last_items_push<T>(s: Seq<T>, item: T, keep: nat)
    requires
        keep > 0,
    ensures
        last_items(last_items(s, keep).push(item), keep) == last_items(s.push(item), keep),
{
    assert(last_items(last_items(s, keep).push(item), keep) =~= last_items(s.push(item), keep));
}

} // verus!
