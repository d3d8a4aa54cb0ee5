//! What holds of a window over whole sequences of pushes.

use vstd::prelude::*;
use super::buffer::{last_items, overflow_of};

verus! {

/// All the batches one after the other.
pub open spec fn concat_all<T>(batches: Seq<Seq<T>>) -> Seq<T>
    decreases batches.len(),
{
    if batches.len() == 0 {
        Seq::empty()
    } else {
        batches[0] + concat_all(batches.drop_first())
    }
}

/// Contents of a window of `capacity` places that held `contents` and then
/// took each batch in one push, in turn.
pub open spec fn after_pushes<T>(contents: Seq<T>, batches: Seq<Seq<T>>, capacity: nat) -> Seq<T>
    decreases batches.len(),
{
    if batches.len() == 0 {
        contents
    } else {
        after_pushes(last_items(contents + batches[0], capacity), batches.drop_first(), capacity)
    }
}

/// Whatever the batches, a window that held at most its capacity holds
/// after the pushes the most recent `capacity` samples of all it was given.
pub proof fn lemma_pushes_keep_latest<T>(contents: Seq<T>, batches: Seq<Seq<T>>, capacity: nat)
    requires
        contents.len() <= capacity,
    ensures
        after_pushes(contents, batches, capacity) == last_items(
            contents + concat_all(batches),
            capacity,
        ),
    decreases batches.len(),
{
    if batches.len() == 0 {
        assert(contents + concat_all(batches) =~= contents);
    } else {
        let first = batches[0];
        let rest = batches.drop_first();
        let kept = last_items(contents + first, capacity);
        lemma_pushes_keep_latest(kept, rest, capacity);
        assert(last_items(kept + concat_all(rest), capacity) =~= last_items(
            contents + first + concat_all(rest),
            capacity,
        ));
        assert(contents + first + concat_all(rest) =~= contents + concat_all(batches));
    }
}

/// Pushes into an empty window whose total length is within the capacity
/// leave exactly the concatenation of all pushed samples, in order.
pub proof fn lemma_pushes_within_capacity<T>(batches: Seq<Seq<T>>, capacity: nat)
    requires
        concat_all(batches).len() <= capacity,
    ensures
        after_pushes(Seq::<T>::empty(), batches, capacity) == concat_all(batches),
{
    lemma_pushes_keep_latest(Seq::<T>::empty(), batches, capacity);
    assert(Seq::<T>::empty() + concat_all(batches) =~= concat_all(batches));
}

/// One push of `capacity + extra` samples leaves exactly the last
/// `capacity` of them, and drops what was held before and `extra` more; on
/// an empty window it drops `extra`.
pub proof fn lemma_push_beyond_capacity<T>(
    contents: Seq<T>,
    samples: Seq<T>,
    capacity: nat,
    extra: nat,
)
    requires
        contents.len() <= capacity,
        samples.len() == capacity + extra,
    ensures
        last_items(contents + samples, capacity) == samples.subrange(
            extra as int,
            samples.len() as int,
        ),
        overflow_of(contents.len() + samples.len(), capacity) == contents.len() + extra,
        contents.len() == 0 ==> overflow_of(contents.len() + samples.len(), capacity) == extra,
{
    assert(last_items(contents + samples, capacity) =~= samples.subrange(
        extra as int,
        samples.len() as int,
    ));
}

} // verus!
