use coord_client::id_alloc::IdAllocator;

#[test]
fn lowest_free_id_is_handed_out_first() {
    let mut a = IdAllocator::new(1, 5);
    assert_eq!(a.allocate().unwrap(), 1);
    assert_eq!(a.allocate().unwrap(), 2);
    assert_eq!(a.allocate().unwrap(), 3);
    assert!(a.is_allocated(1));
    assert!(a.is_allocated(2));
    assert!(a.is_allocated(3));
    assert!(!a.is_allocated(4));
}

#[test]
fn range_exhausts_after_last_value() {
    let mut a = IdAllocator::new(1, 5);
    let mut ids = Vec::new();
    for _ in 0..4 {
        ids.push(a.allocate().unwrap());
    }
    for id in &ids {
        assert!(1 <= *id && *id < 5);
    }
    for i in 0..ids.len() {
        for j in 0..i {
            assert_ne!(ids[i], ids[j]);
        }
    }
    assert!(a.allocate().is_err());
}

#[test]
fn freed_id_is_allocatable_again() {
    let mut a = IdAllocator::new(1, 5);
    assert_eq!(a.allocate().unwrap(), 1);
    assert_eq!(a.allocate().unwrap(), 2);
    a.free(1);
    assert!(!a.is_allocated(1));
    assert_eq!(a.allocate().unwrap(), 1);
}

#[test]
fn freeing_an_unallocated_value_changes_nothing() {
    let mut a = IdAllocator::new(1, 3);
    assert_eq!(a.allocate().unwrap(), 1);
    a.free(2);
    a.free(99);
    assert!(a.is_allocated(1));
    assert_eq!(a.allocate().unwrap(), 2);
}

#[test]
fn empty_range_is_exhausted_immediately() {
    let mut a = IdAllocator::new(3, 3);
    assert!(a.allocate().is_err());
}
