use crust::heap::Heap;

#[test]
fn allocation_is_valid_for_the_requested_count() {
    let mut h = Heap::new(4, 100);
    let p = h.realloc_items(None, 5).expect("capacity suffices");
    assert!(h.is_live(p));
    assert_eq!(h.live_count(p), 5);
    assert_eq!(h.used(), 20);
}

#[test]
fn exhaustion_returns_none_and_changes_nothing() {
    let mut h = Heap::new(4, 10);
    assert!(h.realloc_items(None, 3).is_none());
    assert_eq!(h.used(), 0);
    let p = h.realloc_items(None, 2).expect("8 bytes fit in 10");
    assert_eq!(h.live_count(p), 2);
}

#[test]
fn growth_moves_the_block_and_retires_the_old_pointer() {
    let mut h = Heap::new(4, 100);
    let p = h.realloc_items(None, 2).expect("fits");
    let q = h.realloc_items(Some(p), 6).expect("fits");
    assert_ne!(p.id, q.id);
    assert!(!h.is_live(p));
    assert!(h.is_live(q));
    assert_eq!(h.live_count(q), 6);
    assert_eq!(h.used(), 24);
}

#[test]
fn failed_growth_keeps_the_old_block_intact() {
    let mut h = Heap::new(4, 20);
    let p = h.realloc_items(None, 5).expect("exactly the capacity");
    assert!(h.realloc_items(Some(p), 6).is_none());
    assert!(h.is_live(p));
    assert_eq!(h.live_count(p), 5);
    assert_eq!(h.used(), 20);
}

#[test]
fn shrink_within_the_freed_budget_succeeds() {
    let mut h = Heap::new(4, 20);
    let p = h.realloc_items(None, 5).expect("fits");
    let q = h.realloc_items(Some(p), 3).expect("shrinking re-uses the released bytes");
    assert!(!h.is_live(p));
    assert_eq!(h.live_count(q), 3);
    assert_eq!(h.used(), 12);
}

#[test]
fn free_releases_the_bytes() {
    let mut h = Heap::new(8, 64);
    let p = h.realloc_items(None, 4).expect("fits");
    assert_eq!(h.used(), 32);
    h.free(p);
    assert!(!h.is_live(p));
    assert_eq!(h.used(), 0);
}

#[test]
fn freed_pointer_is_never_returned_again() {
    let mut h = Heap::new(4, 100);
    let p = h.realloc_items(None, 3).expect("fits");
    h.free(p);
    let q = h.realloc_items(None, 3).expect("same request fits again");
    assert_ne!(p.id, q.id);
    let r = h.realloc_items(None, 1).expect("fits");
    assert_ne!(p.id, r.id);
    assert_ne!(q.id, r.id);
}

#[test]
fn oversized_byte_need_counts_as_exhaustion() {
    let mut h = Heap::new(2, 100);
    assert!(h.realloc_items(None, usize::MAX).is_none());
    assert_eq!(h.used(), 0);
}
