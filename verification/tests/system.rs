use alloc_experiments::mem::SystemAllocator;

#[test]
fn new_counter_is_zero() {
    assert_eq!(SystemAllocator::new().allocated(), 0);
}

#[test]
fn served_request_is_counted() {
    let mut system = SystemAllocator::new();
    system.record_allocation(4, true);
    assert_eq!(system.allocated(), 4);
    system.record_allocation(100, true);
    assert_eq!(system.allocated(), 104);
    system.record_allocation(0, true);
    assert_eq!(system.allocated(), 104);
}

#[test]
fn unserved_request_is_not_counted() {
    let mut system = SystemAllocator::new();
    system.record_allocation(4, false);
    assert_eq!(system.allocated(), 0);
    system.record_allocation(7, true);
    system.record_allocation(usize::MAX, false);
    assert_eq!(system.allocated(), 7);
}

#[test]
fn counter_wraps_like_a_machine_word() {
    let mut system = SystemAllocator::new();
    system.record_allocation(usize::MAX, true);
    assert_eq!(system.allocated(), usize::MAX);
    system.record_allocation(1, true);
    assert_eq!(system.allocated(), 0);
    system.record_allocation(usize::MAX, true);
    system.record_allocation(usize::MAX, true);
    assert_eq!(system.allocated(), usize::MAX - 1);
    assert_eq!(system.allocated(), usize::MAX.wrapping_add(usize::MAX));
}

#[test]
fn deallocation_subtracts_and_wraps() {
    let mut system = SystemAllocator::new();
    system.record_allocation(10, true);
    system.record_deallocation(4);
    assert_eq!(system.allocated(), 6);
    system.record_deallocation(6);
    assert_eq!(system.allocated(), 0);
    system.record_deallocation(1);
    assert_eq!(system.allocated(), usize::MAX);
    system.record_deallocation(usize::MAX);
    assert_eq!(system.allocated(), 0);
    system.record_allocation(3, true);
    system.record_deallocation(usize::MAX);
    assert_eq!(system.allocated(), 4);
}
