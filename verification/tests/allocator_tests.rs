use virtio_stack::address_allocator::AddressAllocator;
use virtio_stack::system_allocator::AddressRanges;

#[test]
fn system_allocator_hands_out_irqs_and_addresses() {
    let mut a = AddressRanges::new()
        .add_io_addresses(0x1000, 0x10000)
        .add_device_addresses(0x1000_0000, 0x1000_0000)
        .add_mmio_addresses(0x3000_0000, 0x10000)
        .create_allocator(5)
        .unwrap();
    assert_eq!(a.allocate_irq(), Some(5));
    assert_eq!(a.allocate_irq(), Some(6));
    assert_eq!(a.allocate_device_addresses(0x100), Some(0x1000_0000));
}

#[test]
fn create_allocator_requires_every_range() {
    assert!(AddressRanges::new().create_allocator(0).is_none());
    assert!(AddressRanges::new()
        .add_io_addresses(0x1000, 0x10000)
        .add_mmio_addresses(0x3000_0000, 0x10000)
        .create_allocator(0)
        .is_none());
    // a zero-sized range is rejected
    assert!(AddressRanges::new()
        .add_io_addresses(0x1000, 0)
        .add_device_addresses(0x1000_0000, 0x1000_0000)
        .add_mmio_addresses(0x3000_0000, 0x10000)
        .create_allocator(0)
        .is_none());
}

#[test]
fn io_allocations_are_io_port_aligned() {
    let mut a = AddressRanges::new()
        .add_io_addresses(0x1000, 0x10000)
        .add_device_addresses(0x1000_0000, 0x1000_0000)
        .add_mmio_addresses(0x3000_0000, 0x10000)
        .create_allocator(0)
        .unwrap();
    assert_eq!(a.allocate_io_addresses(0x10), Some(0x1000));
    // the next allocation is rounded up to the 0x400 alignment
    assert_eq!(a.allocate_io_addresses(0x10), Some(0x1400));
}

#[test]
fn mmio_allocations_are_page_aligned_and_exhaust() {
    let mut a = AddressRanges::new()
        .add_io_addresses(0x1000, 0x10000)
        .add_device_addresses(0x1000_0000, 0x1000_0000)
        .add_mmio_addresses(0x3000_0000, 0x3000)
        .create_allocator(0)
        .unwrap();
    assert_eq!(a.allocate_mmio_addresses(0x800), Some(0x3000_0000));
    assert_eq!(a.allocate_mmio_addresses(0x800), Some(0x3000_1000));
    assert_eq!(a.allocate_mmio_addresses(0x2000), None);
    assert_eq!(a.allocate_mmio_addresses(0x1000), Some(0x3000_2000));
    assert_eq!(a.allocate_mmio_addresses(1), None);
}

#[test]
fn allocator_rejects_bad_parameters() {
    // alignment must be a non-zero power of two
    assert!(AddressAllocator::new(0x1000, 0x1000, Some(0)).is_none());
    assert!(AddressAllocator::new(0x1000, 0x1000, Some(0x300)).is_none());
    // size must be non-zero and the end must not overflow
    assert!(AddressAllocator::new(0x1000, 0, Some(4)).is_none());
    assert!(AddressAllocator::new(u64::MAX, 2, Some(4)).is_none());
    assert!(AddressAllocator::new(u64::MAX, 1, Some(1)).is_some());
}

#[test]
fn allocate_rejects_zero_size() {
    let mut a = AddressAllocator::new(0x1000, 0x1000, Some(4)).unwrap();
    assert_eq!(a.allocate(0), None);
    assert_eq!(a.allocate(1), Some(0x1000));
}

#[test]
fn allocations_never_overlap() {
    let mut a = AddressAllocator::new(0x7000, 0x1000, Some(0x100)).unwrap();
    let mut last_end = 0u64;
    for size in [1u64, 0xff, 0x100, 0x101, 3] {
        let addr = a.allocate(size).unwrap();
        assert!(addr >= last_end);
        assert_eq!(addr % 0x100, 0);
        last_end = addr + size;
    }
    assert!(last_end <= 0x8000);
}

#[test]
fn irq_counter_stops_at_the_top() {
    let mut a = AddressRanges::new()
        .add_io_addresses(0x1000, 0x10000)
        .add_device_addresses(0x1000_0000, 0x1000_0000)
        .add_mmio_addresses(0x3000_0000, 0x10000)
        .create_allocator(u32::MAX - 1)
        .unwrap();
    assert_eq!(a.allocate_irq(), Some(u32::MAX - 1));
    assert_eq!(a.allocate_irq(), None);
}
