use growable_buffer::growth::{grown_capacity, GROWTH_FACTOR, INITIAL_CAPACITY};
use growable_buffer::memory::{free, realloc};
use std::rc::Rc;

#[test]
fn realloc_of_an_absent_region_allocates_it() {
    let mut items: Option<Vec<u64>> = None;
    assert!(realloc(&mut items, 256));
    let storage = items.expect("a region");
    assert!(storage.is_empty());
    assert!(storage.capacity() >= 256);
}

#[test]
fn realloc_keeps_the_items_when_it_grows() {
    let mut items: Option<Vec<u64>> = Some(vec![1, 2, 3]);
    assert!(realloc(&mut items, 1000));
    let storage = items.expect("a region");
    assert_eq!(storage, vec![1, 2, 3]);
    assert!(storage.capacity() >= 1000);
}

#[test]
fn realloc_keeps_the_first_items_when_it_shrinks() {
    let mut items: Option<Vec<u64>> = Some(vec![1, 2, 3, 4, 5]);
    assert!(realloc(&mut items, 2));
    assert_eq!(items, Some(vec![1, 2]));
}

#[test]
fn realloc_to_the_same_size_keeps_everything() {
    let mut items: Option<Vec<u64>> = Some(vec![1, 2, 3]);
    assert!(realloc(&mut items, 3));
    assert_eq!(items, Some(vec![1, 2, 3]));
}

#[test]
fn realloc_to_no_slots_gives_an_empty_region() {
    let mut absent: Option<Vec<u64>> = None;
    assert!(realloc(&mut absent, 0));
    assert_eq!(absent, Some(Vec::new()));
    let mut items: Option<Vec<u64>> = Some(vec![1, 2, 3]);
    assert!(realloc(&mut items, 0));
    assert_eq!(items, Some(Vec::new()));
}

#[test]
fn realloc_to_fewer_slots_than_items_always_succeeds() {
    for count in 0..=5 {
        let mut items: Option<Vec<u64>> = Some(vec![1, 2, 3, 4, 5]);
        assert!(realloc(&mut items, count));
        let expected: Vec<u64> = (1..=count as u64).collect();
        assert_eq!(items, Some(expected));
    }
}

#[test]
fn realloc_refuses_a_size_that_cannot_be_counted() {
    let mut items: Option<Vec<u64>> = Some(vec![1, 2, 3]);
    assert!(!realloc(&mut items, usize::MAX));
    assert_eq!(items, Some(vec![1, 2, 3]));
    assert!(!realloc(&mut items, usize::MAX / 8 + 1));
    assert_eq!(items, Some(vec![1, 2, 3]));
    let mut absent: Option<Vec<u64>> = None;
    assert!(!realloc(&mut absent, usize::MAX / 4));
    assert!(absent.is_none());
}

#[test]
fn realloc_refuses_what_the_host_cannot_provide() {
    let mut items: Option<Vec<u64>> = Some(vec![7]);
    assert!(!realloc(&mut items, usize::MAX / 8));
    assert_eq!(items, Some(vec![7]));
    let mut absent: Option<Vec<u64>> = None;
    assert!(!realloc(&mut absent, usize::MAX / 8));
    assert!(absent.is_none());
}

#[test]
fn realloc_of_large_items_refuses_a_size_that_cannot_be_counted() {
    let mut items: Option<Vec<[u8; 1 << 40]>> = None;
    assert!(!realloc(&mut items, 1 << 30));
    assert!(items.is_none());
}

#[test]
fn free_drops_the_items_of_the_region() {
    let witness = Rc::new(0u8);
    let storage = vec![Rc::clone(&witness), Rc::clone(&witness)];
    assert_eq!(Rc::strong_count(&witness), 3);
    free(storage);
    assert_eq!(Rc::strong_count(&witness), 1);
}

#[test]
fn growth_constants() {
    assert_eq!(INITIAL_CAPACITY, 256);
    assert_eq!(GROWTH_FACTOR, 2);
}

#[test]
fn grown_capacity_is_256_from_none_and_twice_otherwise() {
    assert_eq!(grown_capacity(0), Some(256));
    assert_eq!(grown_capacity(1), Some(2));
    assert_eq!(grown_capacity(256), Some(512));
    assert_eq!(grown_capacity(512), Some(1024));
    assert_eq!(grown_capacity(usize::MAX / 2), Some(usize::MAX - 1));
}

#[test]
fn grown_capacity_is_none_where_it_cannot_be_counted() {
    assert_eq!(grown_capacity(usize::MAX / 2 + 1), None);
    assert_eq!(grown_capacity(usize::MAX), None);
}
