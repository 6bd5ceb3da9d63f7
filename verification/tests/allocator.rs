use mmap_allocator::{GrowAction, Layout, MMapAllocator, MapOutcome, ShrinkAction};

fn allocate_deallocate(size: usize) -> usize {
    let allocator = MMapAllocator;
    let ps = allocator.page_size();

    let layout = Layout::from_size_align(size, 16).unwrap();
    let request = allocator.allocate(layout, ps).expect("allocate failed");
    let allocation = allocator
        .finish_allocate(request, MapOutcome::Mapped(ps * 8), ps)
        .expect("allocate failed");

    let mapping_size = allocation.len;

    let unmap = allocator.deallocate(allocation);
    assert_eq!(unmap.addr, allocation.addr);
    assert_eq!(unmap.len, allocation.len);

    mapping_size
}

#[test]
fn allocate_deallocate_single_page() {
    let mapping_size = allocate_deallocate(10);

    // A small allocation should still be backed by a full page.
    assert_eq!(mapping_size, page_size::get());
}

#[test]
fn allocate_deallocate_multi_page() {
    let mapping_size = allocate_deallocate(page_size::get() + 10);

    // An allocation larger than one page should be backed by two pages
    assert_eq!(mapping_size, page_size::get() * 2);
}

#[test]
fn grow_inside_last_page() {
    let allocator = MMapAllocator;
    let ps = allocator.page_size();

    let initial_layout = Layout::from_size_align(10, 16).unwrap();
    let request = allocator
        .allocate(initial_layout, ps)
        .expect("allocate failed");
    let initial_allocation = allocator
        .finish_allocate(request, MapOutcome::Mapped(ps * 8), ps)
        .expect("allocate failed");
    assert_eq!(initial_allocation.len, page_size::get());

    let grown_layout = Layout::from_size_align(16, 64).unwrap();
    let grown_allocation = match allocator
        .grow(initial_allocation, initial_layout, grown_layout, ps)
        .expect("grow failed")
    {
        GrowAction::InPlace(mapping) => mapping,
        GrowAction::Relocate { .. } => panic!("grow failed"),
    };
    assert_eq!(grown_allocation.len, page_size::get()); // Size should not increase
    assert_eq!(initial_allocation.addr, grown_allocation.addr); // Base address should be the same

    let _ = allocator.deallocate(grown_allocation);
}

#[test]
fn grow_outside_last_page() {
    let allocator = MMapAllocator;
    let ps = allocator.page_size();

    let initial_layout = Layout::from_size_align(10, 16).unwrap();
    let request = allocator
        .allocate(initial_layout, ps)
        .expect("allocate failed");
    let initial_allocation = allocator
        .finish_allocate(request, MapOutcome::Mapped(ps * 8), ps)
        .expect("allocate failed");
    assert_eq!(initial_allocation.len, page_size::get());

    // A value (42) written at offset 0 must survive the relocation below.

    let grown_layout = Layout::from_size_align(page_size::get() + 10, 64).unwrap();
    let (request, copy_len) = match allocator
        .grow(initial_allocation, initial_layout, grown_layout, ps)
        .expect("grow failed")
    {
        GrowAction::Relocate { request, copy_len } => (request, copy_len),
        GrowAction::InPlace(_) => panic!("grow failed"),
    };
    let grown_allocation = allocator
        .finish_grow(initial_allocation, request, MapOutcome::Mapped(ps * 64), ps)
        .expect("grow failed");
    assert_eq!(grown_allocation.len, 2 * page_size::get()); // The size should be double
    assert_ne!(initial_allocation.addr, grown_allocation.addr); // The map should be somewhere else

    // The data should be correctly transferred: the copied prefix is the whole
    // old requested size, so it covers the byte at offset 0.
    assert_eq!(copy_len, 10);

    // The old mapping is unmapped in full once the copy is done.
    let unmap = allocator.deallocate(initial_allocation);
    assert_eq!(unmap.len, page_size::get());

    let _ = allocator.deallocate(grown_allocation);
}

#[test]
fn shrink_inside_last_page() {
    let allocator = MMapAllocator;
    let ps = allocator.page_size();

    let initial_layout = Layout::from_size_align(page_size::get() + 16, 64).unwrap();
    let request = allocator
        .allocate(initial_layout, ps)
        .expect("allocate failed");
    let initial_allocation = allocator
        .finish_allocate(request, MapOutcome::Mapped(ps * 8), ps)
        .expect("allocate failed");
    assert_eq!(initial_allocation.len, 2 * page_size::get());

    let shrunk_layout = Layout::from_size_align(page_size::get() + 10, 16).unwrap();
    let shrunk_allocation = match allocator
        .shrink(initial_allocation, initial_layout, shrunk_layout, ps)
        .expect("shrink failed")
    {
        ShrinkAction::InPlace(mapping) => mapping,
        ShrinkAction::Truncate { .. } => panic!("shrink failed"),
    };
    assert_eq!(shrunk_allocation.len, 2 * page_size::get()); // Size should not decrease
    assert_eq!(initial_allocation.addr, shrunk_allocation.addr); // Base address should be the same

    let _ = allocator.deallocate(shrunk_allocation);
}

#[test]
fn shrink_outside_last_page() {
    let allocator = MMapAllocator;
    let ps = allocator.page_size();

    let initial_layout = Layout::from_size_align(page_size::get() + 16, 64).unwrap();
    let request = allocator
        .allocate(initial_layout, ps)
        .expect("allocate failed");
    let initial_allocation = allocator
        .finish_allocate(request, MapOutcome::Mapped(ps * 8), ps)
        .expect("allocate failed");
    assert_eq!(initial_allocation.len, 2 * page_size::get());

    let shrunk_layout = Layout::from_size_align(10, 16).unwrap();
    let (shrunk_allocation, unmap) = match allocator
        .shrink(initial_allocation, initial_layout, shrunk_layout, ps)
        .expect("shrink failed")
    {
        ShrinkAction::Truncate { retained, unmap } => (retained, unmap),
        ShrinkAction::InPlace(_) => panic!("shrink failed"),
    };
    assert_eq!(shrunk_allocation.len, page_size::get()); // Size should shrink to one page
    assert_eq!(initial_allocation.addr, shrunk_allocation.addr); // Base address should remain the same

    // Exactly the trailing page is given back.
    assert_eq!(unmap.addr, initial_allocation.addr + page_size::get());
    assert_eq!(unmap.len, page_size::get());

    let _ = allocator.deallocate(shrunk_allocation);
}
