use std::collections::HashSet;

use elf::Builder;

#[test]
fn test_lots_o_emptyness() {
    let mut b = Builder::new();

    let first = b.reserve(0);

    for _ in 0..1000 {
        let a = b.reserve(0);

        assert!(first == a);
    }
}

#[test]
fn test_ints() {
    let mut b = Builder::new();
    let mut set = HashSet::new();

    for _ in 0..1000 {
        let a = b.reserve(4);

        assert!(!set.contains(&a));
        set.insert(a);
    }
}

#[test]
fn reservations_fill_a_chunk_then_retire_it() {
    let mut b = Builder::with_capacity(8);
    let first = b.reserve(4);
    assert_eq!((first.chunk, first.offset), (0, 0));
    let second = b.reserve(4);
    assert_eq!((second.chunk, second.offset), (0, 4));
    // the chunk is full: the next reservation starts a fresh one
    let third = b.reserve(4);
    assert_eq!((third.chunk, third.offset), (1, 0));
    let fourth = b.reserve(4);
    assert_eq!((fourth.chunk, fourth.offset), (1, 4));
}

#[test]
fn oversized_reservation_gets_its_own_capacity() {
    let mut b = Builder::with_capacity(4);
    // larger than twice the current capacity: the fresh chunk holds it whole
    let big = b.reserve(100);
    assert_eq!((big.chunk, big.offset), (1, 0));
    // that chunk is exactly full, so the next reservation retires it too
    let next = b.reserve(1);
    assert_eq!((next.chunk, next.offset), (2, 0));
}
