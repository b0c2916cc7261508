//! The growable buffer: items in a contiguous region, with the number of
//! items and the number of allocated slots kept beside it.

use crate::diagnostic::Fatal;
use crate::growth::{capacity_after, capacity_after_push, grown, grown_capacity};
use crate::memory::{free, held, realloc};
use vstd::layout::size_of;
use vstd::prelude::*;

verus! {

/// A buffer that owns its storage and grows when an item is appended to a
/// full one. It never shrinks; releasing it hands the storage back.
pub struct Array<T> {
    /// The storage, absent until the first growth and after a release. The
    /// vector's elements are the live items; its spare capacity is the slots
    /// that are allocated and hold nothing.
    pub items: Option<Vec<T>>,
    /// Number of live items.
    pub count: usize,
    /// Number of allocated slots.
    pub capacity: usize,
}

impl<T> View for Array<T> {
    type V = Seq<T>;

    /// The live items, in the order in which they were appended.
    open spec fn view(&self) -> Seq<T> {
        held(self.items)
    }
}

impl<T> Array<T> {
    /// The invariant of a buffer: `count` counts the live items, they fit in
    /// the allocated slots, and storage is absent exactly when no slot is
    /// allocated.
    pub open spec fn wf(&self) -> bool {
        &&& self.count == self@.len()
        &&& self.count <= self.capacity
        &&& (self.capacity == 0 <==> self.items is None)
    }

    /// The buffer owns no storage: the state of a new buffer and of a
    /// released one.
    pub open spec fn is_zero(&self) -> bool {
        self.items is None && self.count == 0 && self.capacity == 0
    }

    /// The buffer has as many slots as one that started empty, was never
    /// released since, and received as many items as this one holds.
    pub open spec fn grown_from_empty(&self) -> bool {
        self.capacity == capacity_after(self.count as nat)
    }

    /// Nothing that can be observed tells the two buffers apart: they have
    /// the same items, count and capacity, and both or neither has storage.
    pub open spec fn same_as(&self, other: Array<T>) -> bool {
        &&& self@ == other@
        &&& self.count == other.count
        &&& self.capacity == other.capacity
        &&& (self.items is None <==> other.items is None)
    }

    /// The state of a full buffer between the host's answer to the request
    /// to resize its storage and the append that asked for it: `resized` is
    /// the answer, and the capacity is still the old one. Storage is absent
    /// only where the buffer had none and the request failed.
    pub open spec fn awaits_growth(&self, resized: bool) -> bool {
        &&& self.count == self@.len()
        &&& self.count == self.capacity
        &&& (self.items is None <==> self.capacity == 0 && !resized)
    }
}

/// How a release relates the buffer before it, the buffer after it and the
/// result. A buffer without storage is refused and left as it is; any other
/// ends in the zero state.
pub open spec fn released<T>(before: Array<T>, after: Array<T>, result: Result<(), Fatal>) -> bool {
    if before.items is None {
        result == Err::<(), Fatal>(Fatal::InvalidRelease) && after == before
    } else {
        result is Ok && after.is_zero()
    }
}

/// Tells whether `xs` meets the invariant of a buffer. A caller that has
/// written to the fields can ask before it hands the buffer on.
pub fn array_valid<T>(xs: &Array<T>) -> (valid: bool)
    ensures
        valid == xs.wf(),
{
    match &xs.items {
        Some(storage) => xs.capacity != 0 && xs.count == storage.len() && xs.count <= xs.capacity,
        None => xs.capacity == 0 && xs.count == 0,
    }
}

/// Creates a buffer in the zero state. Nothing is allocated.
pub fn array_new<T>() -> (xs: Array<T>)
    ensures
        xs.is_zero(),
        xs.wf(),
        xs.grown_from_empty(),
        xs@ == Seq::<T>::empty(),
{
    Array { items: None, count: 0, capacity: 0 }
}

/// Writes `item` into the first free slot and counts it.
fn array_write<T>(xs: &mut Array<T>, item: T)
    requires
        old(xs).items is Some,
        old(xs).count == old(xs)@.len(),
        old(xs).count < old(xs).capacity,
    ensures
        final(xs).items is Some,
        final(xs)@ == old(xs)@.push(item),
        final(xs).count == old(xs).count + 1,
        final(xs).capacity == old(xs).capacity,
{
    match &mut xs.items {
        Some(storage) => {
            storage.push(item);
        },
        None => {},
    }
    xs.count = xs.count + 1;
}

/// Appends `item` to a full buffer, given the host's answer `resized` to the
/// request to resize its storage to the next capacity. This is the second
/// half of `array_push`, on its own so that it can be run with either answer.
///
/// Where the request was met and the next capacity can be counted, the
/// buffer takes that capacity and the item. Otherwise the append fails with
/// `Fatal::AllocationFailure` and the buffer is as before.
pub fn array_push_grown<T>(
    xs: &mut Array<T>,
    item: T,
    resized: bool,
) -> (result: Result<(), Fatal>)
    requires
        old(xs).awaits_growth(resized),
    ensures
        final(xs).wf(),
        result is Ok <==> resized && grown(old(xs).capacity as nat) <= usize::MAX,
        result is Ok ==> final(xs)@ == old(xs)@.push(item),
        result is Ok ==> final(xs).count == old(xs).count + 1,
        result is Ok ==> final(xs).capacity == grown(old(xs).capacity as nat),
        result is Err ==> result == Err::<(), Fatal>(Fatal::AllocationFailure),
        result is Err ==> final(xs).same_as(*old(xs)),
{
    if !resized {
        return Err(Fatal::AllocationFailure);
    }
    match grown_capacity(xs.capacity) {
        Some(capacity) => {
            xs.capacity = capacity;
            array_write(xs, item);
            Ok(())
        },
        None => Err(Fatal::AllocationFailure),
    }
}

/// Appends `item`. A full buffer first grows, to 256 slots from none and to
/// twice its capacity otherwise, by a resize of its storage.
///
/// The append succeeds whenever a slot is free. Where the buffer must grow
/// and the host does not provide the storage, it fails with
/// `Fatal::AllocationFailure` and the buffer is as before; so it does in any
/// case where the size of the grown storage cannot be counted in a `usize`.
pub fn array_push<T>(xs: &mut Array<T>, item: T) -> (result: Result<(), Fatal>)
    requires
        old(xs).wf(),
    ensures
        final(xs).wf(),
        old(xs).count < old(xs).capacity ==> result is Ok,
        old(xs).count == old(xs).capacity && (grown(old(xs).capacity as nat) > usize::MAX
            || size_of::<T>() * grown(old(xs).capacity as nat) > usize::MAX) ==> result is Err,
        result is Ok ==> final(xs)@ == old(xs)@.push(item),
        result is Ok ==> final(xs).count == old(xs).count + 1,
        result is Ok ==> final(xs).capacity == capacity_after_push(
            old(xs).count as nat,
            old(xs).capacity as nat,
        ),
        result is Ok && old(xs).grown_from_empty() ==> final(xs).grown_from_empty(),
        result is Err ==> result == Err::<(), Fatal>(Fatal::AllocationFailure),
        result is Err ==> final(xs).same_as(*old(xs)),
        final(xs).capacity >= old(xs).capacity,
{
    if xs.count < xs.capacity {
        array_write(xs, item);
        return Ok(());
    }
    let resized = match grown_capacity(xs.capacity) {
        Some(capacity) => realloc(&mut xs.items, capacity),
        None => false,
    };
    array_push_grown(xs, item, resized)
}

/// Releases the buffer: hands its storage back to the host, with the items
/// in it, and returns the buffer to the zero state.
///
/// A buffer that owns no storage, be it new or already released, is refused
/// with `Fatal::InvalidRelease` and left as it is.
pub fn array_destroy<T>(xs: &mut Array<T>) -> (result: Result<(), Fatal>)
    ensures
        released(*old(xs), *final(xs), result),
        result is Ok ==> final(xs).wf() && final(xs).grown_from_empty(),
        old(xs).wf() ==> final(xs).wf(),
{
    match xs.items.take() {
        None => Err(Fatal::InvalidRelease),
        Some(storage) => {
            free(storage);
            xs.count = 0;
            xs.capacity = 0;
            Ok(())
        },
    }
}

/// Borrows the live item at `index`.
pub fn array_get<T>(xs: &Array<T>, index: usize) -> (item: &T)
    requires
        xs.wf(),
        index < xs.count,
    ensures
        *item == xs@[index as int],
{
    let storage = xs.items.as_ref().unwrap();
    &storage[index]
}

/// Puts `item` in place of the live item at `index`.
pub fn array_set<T>(xs: &mut Array<T>, index: usize, item: T)
    requires
        old(xs).wf(),
        index < old(xs).count,
    ensures
        final(xs).wf(),
        final(xs)@ == old(xs)@.update(index as int, item),
        final(xs).count == old(xs).count,
        final(xs).capacity == old(xs).capacity,
{
    match &mut xs.items {
        Some(storage) => {
            storage[index] = item;
        },
        None => {},
    }
}

/// A released buffer cannot be released again: whatever buffer a release
/// succeeded on, releasing the buffer that it left is refused with
/// `Fatal::InvalidRelease`, and leaves that buffer in the zero state.
pub proof fn lemma_double_release<T>(
    first: Array<T>,
    second: Array<T>,
    third: Array<T>,
    again: Result<(), Fatal>,
)
    requires
        released(first, second, Ok(())),
        released(second, third, again),
    ensures
        again == Err::<(), Fatal>(Fatal::InvalidRelease),
        third == second,
        third.is_zero(),
{
}

/// A buffer that has slots allocated can be released, whatever it holds, and
/// ends in the zero state.
pub proof fn lemma_release_of_allocated<T>(
    xs: Array<T>,
    after: Array<T>,
    result: Result<(), Fatal>,
)
    requires
        xs.wf(),
        xs.capacity > 0,
        released(xs, after, result),
    ensures
        result is Ok,
        after.is_zero(),
{
}

/// A buffer in the zero state, such as a new one that nothing was appended
/// to, cannot be released.
pub proof fn lemma_release_of_zero<T>(xs: Array<T>, after: Array<T>, result: Result<(), Fatal>)
    requires
        xs.is_zero(),
        released(xs, after, result),
    ensures
        result == Err::<(), Fatal>(Fatal::InvalidRelease),
        after == xs,
{
}

} // verus!
