use mux::ids::{alloc_domain_id, IdAllocator};

#[test]
fn domain_ids_start_at_zero_and_increase() {
    let mut ids = IdAllocator::new();
    assert_eq!(alloc_domain_id(&mut ids), Some(0));
    assert_eq!(alloc_domain_id(&mut ids), Some(1));
    assert_eq!(alloc_domain_id(&mut ids), Some(2));
}

#[test]
fn allocated_ids_never_repeat() {
    let mut ids = IdAllocator::new();
    let mut seen: Vec<usize> = Vec::new();
    for _ in 0..1000 {
        let id = ids.allocate().unwrap();
        assert!(!seen.contains(&id));
        seen.push(id);
    }
    assert_eq!(seen.len(), 1000);
}

#[test]
fn counter_knows_what_it_has_issued() {
    let mut ids = IdAllocator::new();
    assert!(!ids.has_issued(0));
    let id = ids.allocate().unwrap();
    assert!(ids.has_issued(id));
    assert!(!ids.has_issued(id + 1));
}

#[test]
fn separate_counters_are_independent() {
    let mut a = IdAllocator::new();
    let mut b = IdAllocator::new();
    assert_eq!(a.allocate(), Some(0));
    assert_eq!(a.allocate(), Some(1));
    assert_eq!(b.allocate(), Some(0));
}

#[test]
fn exhausted_counter_hands_out_nothing() {
    let mut ids = IdAllocator::resume(usize::MAX - 1);
    assert_eq!(ids.allocate(), Some(usize::MAX - 1));
    assert_eq!(ids.allocate(), None);
    assert_eq!(ids.allocate(), None);
    assert_eq!(alloc_domain_id(&mut ids), None);
}

#[test]
fn resumed_counter_goes_on_where_it_stood() {
    let mut ids = IdAllocator::resume(40);
    assert!(ids.has_issued(39));
    assert!(!ids.has_issued(40));
    assert_eq!(ids.allocate(), Some(40));
    assert_eq!(ids.allocate(), Some(41));
}
