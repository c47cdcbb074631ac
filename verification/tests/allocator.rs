use bentos::allocator::{align_up, frame_for_page, heap_page_range, MapError};
use bentos::allocator::{HEAP_SIZE, HEAP_START, PAGE_SIZE};
use bentos::allocator::bump::BumpAllocator;

fn fresh_heap() -> BumpAllocator {
    let mut heap = BumpAllocator::new();
    heap.init(HEAP_START, HEAP_SIZE);
    heap
}

#[test]
fn align_up_exact_values() {
    assert_eq!(align_up(0, 1), 0);
    assert_eq!(align_up(0, 4096), 0);
    assert_eq!(align_up(1, 4096), 4096);
    assert_eq!(align_up(4096, 4096), 4096);
    assert_eq!(align_up(4097, 4096), 8192);
    assert_eq!(align_up(13, 1), 13);
    assert_eq!(align_up(13, 8), 16);
}

#[test]
fn new_heap_is_empty() {
    let heap = BumpAllocator::new();
    assert_eq!(heap.heap_start, 0);
    assert_eq!(heap.heap_end, 0);
    assert_eq!(heap.next, 0);
    assert_eq!(heap.allocations, 0);
}

#[test]
fn first_allocation_starts_at_window_start() {
    // 100 KiB window; 8 bytes at natural alignment land at the very start.
    let mut heap = fresh_heap();
    let addr = heap.allocate(8, 8);
    assert_eq!(addr, Some(HEAP_START));
    assert_eq!(heap.allocations, 1);
    assert_eq!(heap.next, HEAP_START + 8);
}

#[test]
fn allocation_is_aligned_and_inside_window() {
    let mut heap = fresh_heap();
    heap.allocate(3, 1).unwrap();
    let addr = heap.allocate(16, 64).unwrap();
    assert_eq!(addr % 64, 0);
    assert!(addr >= HEAP_START);
    assert!(addr + 16 <= HEAP_START + HEAP_SIZE);
}

#[test]
fn align_of_one_needs_no_rounding() {
    let mut heap = fresh_heap();
    heap.allocate(5, 1).unwrap();
    let addr = heap.allocate(7, 1).unwrap();
    assert_eq!(addr, HEAP_START + 5);
}

#[test]
fn zero_sized_allocation_yields_address_and_counts() {
    let mut heap = fresh_heap();
    let a = heap.allocate(0, 8).unwrap();
    assert_eq!(a, HEAP_START);
    assert_eq!(heap.allocations, 1);
    let b = heap.allocate(0, 8).unwrap();
    assert_eq!(b, HEAP_START);
    assert_eq!(heap.allocations, 2);
}

#[test]
fn oversized_request_fails_and_changes_nothing() {
    let mut heap = fresh_heap();
    heap.allocate(16, 8).unwrap();
    let next_before = heap.next;
    let count_before = heap.allocations;
    assert_eq!(heap.allocate(HEAP_SIZE, 8), None);
    assert_eq!(heap.next, next_before);
    assert_eq!(heap.allocations, count_before);
}

#[test]
fn overflowing_request_fails_and_changes_nothing() {
    let mut heap = BumpAllocator::new();
    heap.init(u64::MAX - 100, 100);
    let next_before = heap.next;
    assert_eq!(heap.allocate(u64::MAX, 1), None);
    assert_eq!(heap.allocate(200, 1), None);
    assert_eq!(heap.next, next_before);
    assert_eq!(heap.allocations, 0);
}

#[test]
fn release_of_last_allocation_resets_cursor() {
    let mut heap = fresh_heap();
    let first = heap.allocate(24, 8).unwrap();
    let a = heap.allocate(100, 16).unwrap();
    let b = heap.allocate(9, 1).unwrap();
    // Release in an order unrelated to allocation order.
    heap.release(b, 9, 1);
    assert!(heap.next > HEAP_START);
    heap.release(first, 24, 8);
    assert_eq!(heap.allocations, 1);
    heap.release(a, 100, 16);
    assert_eq!(heap.allocations, 0);
    assert_eq!(heap.next, HEAP_START);
    // Bulk-reclaim round trip: the next allocation returns the very first
    // address again.
    let again = heap.allocate(24, 8).unwrap();
    assert_eq!(again, first);
}

#[test]
fn blocks_are_not_reclaimed_while_others_live() {
    let mut heap = fresh_heap();
    let a = heap.allocate(64, 8).unwrap();
    let b = heap.allocate(64, 8).unwrap();
    heap.release(a, 64, 8);
    // One allocation is still outstanding: the cursor must not move back.
    let c = heap.allocate(64, 8).unwrap();
    assert!(c >= b + 64);
}

#[test]
fn sequential_allocations_never_overlap() {
    let mut heap = fresh_heap();
    let a = heap.allocate(40, 8).unwrap();
    let b = heap.allocate(16, 32).unwrap();
    assert!(a + 40 <= b);
}

#[test]
fn alternating_allocate_release_never_exhausts() {
    // One object at a time, as many rounds as the window has bytes: with the
    // bulk reset after each release, every round must succeed.
    let mut heap = fresh_heap();
    for _ in 0..HEAP_SIZE {
        let addr = heap.allocate(64, 8).expect("allocation failed");
        assert_eq!(addr, HEAP_START);
        heap.release(addr, 64, 8);
        assert_eq!(heap.allocations, 0);
    }
}

#[test]
fn heap_page_range_covers_the_window() {
    let pages = heap_page_range(HEAP_START, HEAP_SIZE);
    assert_eq!(pages.len() as u64, HEAP_SIZE / PAGE_SIZE);
    assert_eq!(pages[0], HEAP_START);
    assert_eq!(pages[pages.len() - 1], HEAP_START + HEAP_SIZE - PAGE_SIZE);
    for (i, page) in pages.iter().enumerate() {
        assert_eq!(page % PAGE_SIZE, 0);
        assert_eq!(*page, HEAP_START + (i as u64) * PAGE_SIZE);
    }
}

#[test]
fn heap_page_range_of_unaligned_window() {
    let pages = heap_page_range(4000, 200);
    assert_eq!(pages, vec![0, 4096]);
    let pages = heap_page_range(4096, 1);
    assert_eq!(pages, vec![4096]);
}

#[test]
fn missing_frame_aborts_initialization() {
    assert_eq!(frame_for_page(None), Err(MapError::FrameAllocationFailed));
    assert_eq!(frame_for_page(Some(0x1000)), Ok(0x1000));
}
