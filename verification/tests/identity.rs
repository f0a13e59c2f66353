use futures_diagnose::identity::{IdAllocator, TaskIdentity};
use std::borrow::Cow;

#[test]
fn identity_keeps_name_and_id() {
    let identity = TaskIdentity::new(Cow::Borrowed("job-A"), 7);
    assert_eq!(identity.name(), "job-A");
    assert_eq!(identity.id(), 7);
}

#[test]
fn identity_clone_is_equal() {
    let owned = TaskIdentity::new(Cow::Owned(String::from("worker")), 3);
    let copy = owned.clone();
    assert_eq!(copy, owned);
    assert_eq!(copy.name(), "worker");
    assert_eq!(copy.id(), 3);
    let borrowed = TaskIdentity::new(Cow::Borrowed("static"), 4);
    assert_eq!(borrowed.clone(), borrowed);
    assert_ne!(borrowed, owned);
}

#[test]
fn allocator_starts_at_zero_and_steps_by_one() {
    let mut ids = IdAllocator::new();
    assert_eq!(ids.peek(), 0);
    let first = ids.allocate(Cow::Borrowed("a"));
    let second = ids.allocate(Cow::Borrowed("b"));
    let third = ids.allocate(Cow::Borrowed("a"));
    assert_eq!(first.id(), 0);
    assert_eq!(second.id(), 1);
    assert_eq!(third.id(), 2);
    assert_eq!(first.name(), "a");
    assert_eq!(second.name(), "b");
    assert_eq!(ids.peek(), 3);
}

#[test]
fn allocator_hands_out_distinct_ids() {
    let mut ids = IdAllocator::new();
    let mut seen: Vec<u64> = Vec::new();
    let rounds: usize = 8;
    let per_round: usize = 125;
    for _ in 0..rounds {
        for _ in 0..per_round {
            seen.push(ids.allocate(Cow::Borrowed("task")).id());
        }
    }
    assert_eq!(seen.len(), rounds * per_round);
    let mut sorted = seen.clone();
    sorted.sort();
    sorted.dedup();
    assert_eq!(sorted.len(), rounds * per_round);
    assert_eq!(seen, sorted);
}

#[test]
fn allocator_goes_round_after_the_largest_id() {
    let mut ids = IdAllocator::starting_at(u64::MAX - 1);
    assert_eq!(ids.allocate(Cow::Borrowed("x")).id(), u64::MAX - 1);
    assert_eq!(ids.allocate(Cow::Borrowed("x")).id(), u64::MAX);
    assert_eq!(ids.peek(), 0);
    assert_eq!(ids.allocate(Cow::Borrowed("x")).id(), 0);
    assert_eq!(ids.peek(), 1);
}

#[test]
fn same_name_gets_different_identities() {
    let mut ids = IdAllocator::new();
    let one = ids.allocate(Cow::Borrowed("twin"));
    let two = ids.allocate(Cow::Borrowed("twin"));
    assert_ne!(one, two);
}
