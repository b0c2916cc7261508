//! The rule by which a buffer's capacity grows.

use vstd::arithmetic::power2::{lemma2_to64, lemma_pow2_unfold, pow2};
use vstd::prelude::*;

verus! {

/// Number of slots that an empty buffer grows to.
pub const INITIAL_CAPACITY: usize = 256;

/// Factor by which the capacity of a buffer that already has storage grows.
pub const GROWTH_FACTOR: usize = 2;

/// Capacity that a full buffer of `capacity` slots grows to.
pub open spec fn grown(capacity: nat) -> nat {
    if capacity == 0 {
        INITIAL_CAPACITY as nat
    } else {
        GROWTH_FACTOR as nat * capacity
    }
}

/// Capacity of a buffer once an item has been appended to `count` items held
/// in `capacity` slots: it grows only when no slot is free.
pub open spec fn capacity_after_push(count: nat, capacity: nat) -> nat {
    if count >= capacity {
        grown(capacity)
    } else {
        capacity
    }
}

/// Capacity of a buffer that started empty and has received `appends` items,
/// with no release in between.
pub open spec fn capacity_after(appends: nat) -> nat
    decreases appends,
{
    if appends == 0 {
        0
    } else {
        capacity_after_push((appends - 1) as nat, capacity_after((appends - 1) as nat))
    }
}

/// Number of times that a buffer which started empty has grown while it
/// received `appends` items: once for each append that met a full buffer.
pub open spec fn growths_after(appends: nat) -> nat
    decreases appends,
{
    if appends == 0 {
        0
    } else {
        let before = (appends - 1) as nat;
        if before >= capacity_after(before) {
            growths_after(before) + 1
        } else {
            growths_after(before)
        }
    }
}

/// Computes the capacity that a full buffer of `capacity` slots grows to, or
/// `None` where that number of slots cannot be counted in a `usize`.
pub fn grown_capacity(capacity: usize) -> (next: Option<usize>)
    ensures
        grown(capacity as nat) <= usize::MAX ==> next == Some(grown(capacity as nat) as usize),
        grown(capacity as nat) > usize::MAX ==> next is None,
{
    if capacity == 0 {
        Some(INITIAL_CAPACITY)
    } else {
        capacity.checked_mul(GROWTH_FACTOR)
    }
}

/// Growth by doubling: a buffer that started empty and has received `appends`
/// items has room for all of them, and its capacity is 0 before the first
/// append and afterwards the least of 256, 512, 1024, ... that holds the
/// items. The result is the number of doublings since the first growth: one
/// less than the number of growths.
pub proof fn lemma_growth_doubling(appends: nat) -> (doublings: nat)
    ensures
        capacity_after(appends) >= appends,
        appends == 0 ==> capacity_after(appends) == 0 && doublings == 0,
        appends > 0 ==> capacity_after(appends) == INITIAL_CAPACITY * pow2(doublings),
        doublings > 0 ==> capacity_after(appends) < 2 * appends,
        appends == 0 ==> growths_after(appends) == 0,
        appends > 0 ==> growths_after(appends) == doublings + 1,
    decreases appends,
{
    lemma2_to64();
    if appends <= 1 {
        assert(capacity_after(0) == 0 && growths_after(0) == 0);
        assert(capacity_after(1) == capacity_after_push(0, capacity_after(0)));
        assert(growths_after(1) == growths_after(0) + 1);
        0
    } else {
        let before = (appends - 1) as nat;
        let doublings_before = lemma_growth_doubling(before);
        if before >= capacity_after(before) {
            lemma_pow2_unfold(doublings_before + 1);
            doublings_before + 1
        } else {
            doublings_before
        }
    }
}

/// The storage is resized a logarithmic number of times: a buffer that
/// started empty and has grown `g` times, twice or more, has received more
/// than 64 times 2 to the `g` items.
pub proof fn lemma_growths_logarithmic(appends: nat)
    ensures
        growths_after(appends) >= 2 ==> 64 * pow2(growths_after(appends)) < appends,
{
    let doublings = lemma_growth_doubling(appends);
    if growths_after(appends) >= 2 {
        lemma_pow2_unfold(growths_after(appends));
    }
}

/// One append changes the capacity of a buffer that started empty in one way
/// only: by the growth of a full buffer.
pub proof fn lemma_growth_steps(appends: nat)
    ensures
        capacity_after(appends + 1) == capacity_after(appends) || (capacity_after(appends)
            == appends && capacity_after(appends + 1) == grown(capacity_after(appends))),
{
    lemma_growth_doubling(appends);
    assert(capacity_after(appends + 1) == capacity_after_push(
        appends,
        capacity_after(appends),
    ));
}

} // verus!
