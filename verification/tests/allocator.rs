use kernel_core::mm;
use kernel_core::mm::MemoryMapEntry;

fn entry(base_addr: u64, length: u64, entry_type: u32) -> MemoryMapEntry {
    MemoryMapEntry { base_addr, length, entry_type, acpi_attributes: 0 }
}

#[test]
fn largest_usable_region_is_selected() {
    let map = vec![entry(0, 100, 2), entry(200, 500, 1), entry(1000, 10, 1)];
    let allocator = mm::init(&map).unwrap();
    assert_eq!(allocator.arena_base, 200);
    assert_eq!(allocator.remaining, 500);
}

#[test]
fn ties_go_to_the_first_seen_region() {
    let map = vec![entry(0, 300, 1), entry(4096, 300, 1)];
    let allocator = mm::init(&map).unwrap();
    assert_eq!(allocator.arena_base, 0);
    assert_eq!(allocator.remaining, 300);
}

#[test]
fn no_usable_region_is_a_failure() {
    let map = vec![entry(0, 100, 2), entry(200, 500, 3), entry(1000, 10, 0)];
    assert!(mm::init(&map).is_err());
    assert!(mm::init(&Vec::new()).is_err());
}

#[test]
fn budget_shrinks_by_each_request() {
    let map = vec![entry(200, 500, 1)];
    let mut allocator = mm::init(&map).unwrap();

    let first = allocator.allocate(100, 1).unwrap();
    assert_eq!(allocator.remaining, 400);
    assert_eq!(first, 600);

    let second = allocator.allocate(50, 16).unwrap();
    // the top 200 + 350 = 550, rounded down to a multiple of 16, is 544
    assert_eq!(second, 544);
    assert_eq!(second % 16, 0);
    assert_eq!(allocator.remaining, 344);

    let third = allocator.allocate(344, 1).unwrap();
    assert_eq!(allocator.remaining, 0);
    assert_eq!(third, 200);
}

#[test]
fn returned_addresses_respect_the_alignment_on_an_unaligned_arena() {
    let map = vec![entry(201, 100, 1)];
    let mut allocator = mm::init(&map).unwrap();

    let addr = allocator.allocate(10, 8).unwrap();
    // the top 201 + 90 = 291, rounded down to a multiple of 8, is 288
    assert_eq!(addr, 288);
    assert_eq!(addr % 8, 0);
    assert_eq!(allocator.remaining, 288 - 201);
}

#[test]
fn unsatisfiable_alignment_fails_without_mutating() {
    // the aligned address would fall below the arena's base
    let map = vec![entry(3, 2, 1)];
    let mut allocator = mm::init(&map).unwrap();

    assert_eq!(allocator.allocate(2, 8), None);
    assert_eq!(allocator.arena_base, 3);
    assert_eq!(allocator.remaining, 2);
}

#[test]
fn returned_ranges_do_not_overlap() {
    let map = vec![entry(0, 4096, 1)];
    let mut allocator = mm::init(&map).unwrap();

    let mut served: Vec<(u64, u64)> = Vec::new();
    for (size, align) in [(100u64, 1u64), (64, 64), (1, 8), (500, 2), (7, 1)] {
        let addr = allocator.allocate(size, align).unwrap();
        for (prev_addr, prev_size) in &served {
            assert!(addr + size <= *prev_addr || *prev_addr + *prev_size <= addr);
        }
        served.push((addr, size));
    }
}

#[test]
fn a_failing_request_leaves_the_chain_unchanged() {
    let map = vec![entry(0, 256, 1)];
    let mut allocator = mm::init(&map).unwrap();

    let first = allocator.allocate(100, 4).unwrap();
    let after_first = allocator.remaining;
    // this request exceeds the budget and must not disturb the chain
    assert_eq!(allocator.allocate(1000, 4), None);
    assert_eq!(allocator.remaining, after_first);

    let second = allocator.allocate(32, 8).unwrap();
    assert!(second + 32 <= first);
    assert_eq!(second % 8, 0);
}

#[test]
fn oversize_request_fails_without_mutating() {
    let map = vec![entry(200, 500, 1)];
    let mut allocator = mm::init(&map).unwrap();
    allocator.allocate(100, 1).unwrap();

    assert_eq!(allocator.allocate(401, 1), None);
    assert_eq!(allocator.arena_base, 200);
    assert_eq!(allocator.remaining, 400);
}

#[test]
fn zero_alignment_fails_without_mutating() {
    let map = vec![entry(200, 500, 1)];
    let mut allocator = mm::init(&map).unwrap();

    assert_eq!(allocator.allocate(16, 0), None);
    assert_eq!(allocator.remaining, 500);
}

#[test]
fn deallocate_is_a_no_op() {
    let map = vec![entry(200, 500, 1)];
    let mut allocator = mm::init(&map).unwrap();
    let addr = allocator.allocate(100, 1).unwrap();

    allocator.deallocate(addr);
    assert_eq!(allocator.arena_base, 200);
    assert_eq!(allocator.remaining, 400);
}
