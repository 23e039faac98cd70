use alloc_experiments::mem::align::is_power_of_two;
use alloc_experiments::mem::bump::reserve;
use alloc_experiments::mem::{BumpAllocator, BUMP_CAPACITY, MAX_SUPPORTED_ALIGN};

#[test]
fn constants_have_their_documented_values() {
    assert_eq!(BUMP_CAPACITY, 128 * 1024);
    assert_eq!(MAX_SUPPORTED_ALIGN, 4096);
}

#[test]
fn power_of_two_test_agrees_with_std() {
    for n in 0usize..10_000 {
        assert_eq!(is_power_of_two(n), n.is_power_of_two());
    }
    assert!(is_power_of_two(1 << (usize::BITS - 1)));
    assert!(!is_power_of_two(usize::MAX));
}

#[test]
fn new_allocator_has_everything_left() {
    let bump = BumpAllocator::new();
    assert_eq!(bump.remaining(), 131072);
    assert_eq!(bump.allocated(), 0);
}

#[test]
fn reserve_subtracts_then_rounds_down() {
    assert_eq!(reserve(131072, 16, 8), Some(131056));
    assert_eq!(reserve(131072, 1, 1), Some(131071));
    assert_eq!(reserve(131071, 4, 4096), Some(126976));
    assert_eq!(reserve(100, 3, 8), Some(96));
    assert_eq!(reserve(100, 3, 64), Some(64));
    assert_eq!(reserve(100, 3, 128), Some(0));
    assert_eq!(reserve(5, 5, 4), Some(0));
    assert_eq!(reserve(0, 0, 1), Some(0));
}

#[test]
fn reserve_refuses_what_does_not_fit() {
    assert_eq!(reserve(131072, 131073, 1), None);
    assert_eq!(reserve(0, 1, 1), None);
    assert_eq!(reserve(15, 16, 8), None);
    assert_eq!(reserve(usize::MAX, 0, 8192), None);
}

#[test]
fn allocate_moves_the_cursor_to_the_block() {
    let mut bump = BumpAllocator::new();
    assert_eq!(bump.allocate(16, 8), Some(131056));
    assert_eq!(bump.remaining(), 131056);
    assert_eq!(bump.allocated(), 16);
    assert_eq!(bump.allocate(3, 8), Some(131048));
    assert_eq!(bump.remaining(), 131048);
    assert_eq!(bump.allocated(), 24);
    assert_eq!(bump.allocate(1, 4096), Some(126976));
    assert_eq!(bump.remaining(), 126976);
    assert_eq!(bump.allocated(), 4096);
}

#[test]
fn alignment_above_maximum_always_fails() {
    let mut bump = BumpAllocator::new();
    for size in [0usize, 1, 16, 4096, 131072, 131073, usize::MAX] {
        assert_eq!(bump.allocate(size, 8192), None);
        assert_eq!(bump.allocate(size, 1 << 20), None);
        assert_eq!(bump.allocate(size, 1 << (usize::BITS - 1)), None);
        assert_eq!(bump.remaining(), 131072);
    }
    assert_eq!(bump.allocate(16, 4096), Some(126976));
}

#[test]
fn oversized_request_fails_and_keeps_remaining() {
    let mut bump = BumpAllocator::new();
    assert_eq!(bump.allocate(131073, 1), None);
    assert_eq!(bump.remaining(), 131072);
    assert_eq!(bump.allocate(100_000, 1), Some(31072));
    assert_eq!(bump.allocate(31073, 1), None);
    assert_eq!(bump.remaining(), 31072);
    assert_eq!(bump.allocate(usize::MAX, 1), None);
    assert_eq!(bump.remaining(), 31072);
    assert_eq!(bump.allocated(), 100_000);
}

#[test]
fn whole_buffer_can_be_taken_at_once() {
    let mut bump = BumpAllocator::new();
    assert_eq!(bump.allocate(131072, 4096), Some(0));
    assert_eq!(bump.remaining(), 0);
    assert_eq!(bump.allocated(), 131072);
    assert_eq!(bump.allocate(0, 1), Some(0));
    assert_eq!(bump.allocate(1, 1), None);
    assert_eq!(bump.remaining(), 0);
}

#[test]
fn every_supported_alignment_is_honoured() {
    let mut align = 1usize;
    while align <= 4096 {
        let mut bump = BumpAllocator::new();
        for size in [1usize, 3, 7, 100, 4097] {
            let before = bump.remaining();
            let offset = bump.allocate(size, align).unwrap();
            assert_eq!(offset % align, 0);
            assert_eq!(offset, (before - size) / align * align);
            assert!(offset + size <= before);
            assert_eq!(bump.remaining(), offset);
        }
        align *= 2;
    }
}

#[test]
fn blocks_do_not_overlap_and_stay_in_the_buffer() {
    let requests: [(usize, usize); 8] =
        [(5, 1), (16, 8), (1, 64), (100, 4), (4096, 4096), (7, 2), (0, 16), (33, 32)];
    let mut bump = BumpAllocator::new();
    let mut blocks: Vec<(usize, usize)> = Vec::new();
    for (size, align) in requests {
        let offset = bump.allocate(size, align).unwrap();
        assert!(offset + size <= BUMP_CAPACITY);
        for &(other, other_size) in &blocks {
            assert!(offset + size <= other || other + other_size <= offset);
        }
        blocks.push((offset, size));
    }
    assert_eq!(blocks[0], (131067, 5));
    assert_eq!(blocks[1], (131048, 16));
    assert_eq!(blocks[2], (131008, 1));
    assert_eq!(blocks[3], (130908, 100));
    assert_eq!(blocks[4], (122880, 4096));
}

#[test]
fn run_within_padded_capacity_is_served_whole() {
    let requests: [(usize, usize); 4] = [(60_000, 4096), (30_000, 16), (20_000, 1), (8_000, 512)];
    let padded: usize = requests.iter().map(|&(size, align)| size + align - 1).sum();
    assert!(padded <= BUMP_CAPACITY);
    let mut bump = BumpAllocator::new();
    for (size, align) in requests {
        assert!(bump.allocate(size, align).is_some());
    }
}

#[test]
fn deallocate_reclaims_nothing() {
    let mut bump = BumpAllocator::new();
    let offset = bump.allocate(64, 16).unwrap();
    bump.deallocate(offset, 64);
    assert_eq!(bump.remaining(), 131008);
    assert_eq!(bump.allocated(), 64);
    assert_eq!(bump.allocate(64, 16), Some(130944));
}
