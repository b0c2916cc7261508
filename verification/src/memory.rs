//! The allocation primitive: resizing a region of element slots, or failing,
//! and handing a region back to the host.
//!
//! A region is a `Vec<T>`: its elements are the slots in use, its spare
//! capacity the slots that are allocated and hold nothing yet. An absent
//! region is `None`.

use vstd::layout::size_of;
use vstd::prelude::*;

verus! {

/// The items that a region holds, in order; none where the region is absent.
pub open spec fn held<T>(items: Option<Vec<T>>) -> Seq<T> {
    match items {
        Some(storage) => storage@,
        None => Seq::empty(),
    }
}

/// What is left of `items` in a region resized to `count` slots: all of them
/// where they fit, else the first `count`.
pub open spec fn kept<T>(items: Seq<T>, count: nat) -> Seq<T> {
    if count < items.len() {
        items.subrange(0, count as int)
    } else {
        items
    }
}

/// Calls `Vec::try_reserve_exact`, which asks the host's allocator for room
/// for `additional` more elements and reports failure instead of aborting.
/// Assumed of it: the elements of the vector are the same afterwards, whether
/// or not the room was had. Nothing is assumed of which answer comes back.
#[verifier::external_body]
fn try_reserve_exact<T>(storage: &mut Vec<T>, additional: usize) -> (reserved: bool)
    ensures
        final(storage)@ == old(storage)@,
{
    storage.try_reserve_exact(additional).is_ok()
}

/// Resizes the region `items` to `count` slots of `T`, allocating one where
/// it is absent. The items are kept up to the smaller of the old and the new
/// size, and no new slot is initialised.
///
/// A region that is to hold no more than the items in it has the room
/// already: the host is not asked, the items beyond `count` are given up, and
/// the resize succeeds. For more room the host is asked for the slots that
/// are wanting, and its answer is the result. Where the size of the region in
/// bytes cannot be counted in a `usize` the resize fails before anything
/// else. After a failure the region is as it was, absent or with its items.
pub fn realloc<T>(items: &mut Option<Vec<T>>, count: usize) -> (resized: bool)
    ensures
        size_of::<T>() * count > usize::MAX ==> !resized,
        size_of::<T>() * count <= usize::MAX && count <= held(*old(items)).len() ==> resized,
        resized ==> *final(items) is Some,
        resized ==> held(*final(items)) == kept(held(*old(items)), count as nat),
        !resized ==> (*final(items) is Some <==> *old(items) is Some),
        !resized ==> held(*final(items)) == held(*old(items)),
{
    if core::mem::size_of::<T>().checked_mul(count).is_none() {
        return false;
    }
    match items {
        Some(storage) => {
            let length: usize = storage.len();
            if count <= length {
                storage.truncate(count);
                true
            } else {
                try_reserve_exact(storage, count - length)
            }
        },
        None => {
            let mut storage: Vec<T> = Vec::new();
            let reserved = count == 0 || try_reserve_exact(&mut storage, count);
            if reserved {
                *items = Some(storage);
            }
            reserved
        },
    }
}

/// Hands the region `storage` back to the host, together with the items in
/// it: the vector ends here, and with it its allocation. Ownership makes sure
/// that a region is released once, by its owner.
#[allow(unused_variables)]
pub fn free<T>(storage: Vec<T>) {
}

} // verus!
