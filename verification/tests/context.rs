use alloc_experiments::mem::{AllocationContext, ContextStack, CONTEXT_CAPACITY};

#[test]
fn new_stack_holds_system_alone() {
    let stack = ContextStack::new();
    assert_eq!(stack.depth(), 1);
    assert_eq!(stack.current(), AllocationContext::System);
}

#[test]
fn push_makes_the_context_current() {
    let mut stack = ContextStack::new();
    stack.push(AllocationContext::Arena);
    assert_eq!(stack.current(), AllocationContext::Arena);
    assert_eq!(stack.depth(), 2);
    stack.push(AllocationContext::Pool);
    assert_eq!(stack.current(), AllocationContext::Pool);
    assert_eq!(stack.depth(), 3);
}

#[test]
fn push_then_pop_restores_current() {
    for ctx in [AllocationContext::Arena, AllocationContext::Pool, AllocationContext::System] {
        let mut stack = ContextStack::new();
        stack.push(AllocationContext::Pool);
        let before = stack.current();
        let depth = stack.depth();
        stack.push(ctx);
        stack.pop();
        assert_eq!(stack.current(), before);
        assert_eq!(stack.depth(), depth);
    }
}

#[test]
fn nested_push_pop_unwinds_in_order() {
    let mut stack = ContextStack::new();
    stack.push(AllocationContext::Arena);
    stack.push(AllocationContext::Pool);
    assert_eq!(stack.current(), AllocationContext::Pool);
    stack.pop();
    assert_eq!(stack.current(), AllocationContext::Arena);
    stack.pop();
    assert_eq!(stack.current(), AllocationContext::System);
    assert_eq!(stack.depth(), 1);
}

#[test]
fn vacated_slot_is_overwritten_by_next_push() {
    let mut stack = ContextStack::new();
    stack.push(AllocationContext::Arena);
    stack.pop();
    assert_eq!(stack.current(), AllocationContext::System);
    stack.push(AllocationContext::Pool);
    assert_eq!(stack.current(), AllocationContext::Pool);
    assert_eq!(stack.depth(), 2);
}

#[test]
fn stack_fills_to_capacity() {
    let mut stack = ContextStack::new();
    while stack.depth() < CONTEXT_CAPACITY {
        stack.push(AllocationContext::Arena);
    }
    assert_eq!(stack.depth(), 1024);
    assert_eq!(stack.current(), AllocationContext::Arena);
    while stack.depth() > 1 {
        stack.pop();
    }
    assert_eq!(stack.current(), AllocationContext::System);
}
