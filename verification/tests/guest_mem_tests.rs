use virtio_stack::guest_mem::GuestAddress;
use virtio_stack::guest_mem::GuestMemory;
use virtio_stack::guest_mem::GuestMemoryError;

#[test]
fn new_rejects_overflowing_end() {
    assert!(GuestMemory::new(u64::MAX - 10, 10).is_some());
    assert!(GuestMemory::new(u64::MAX - 10, 11).is_none());
}

#[test]
fn read_write_round_trip() {
    let mut mem = GuestMemory::new(0x1000, 0x1000).unwrap();
    assert_eq!(mem.base_addr(), 0x1000);
    assert_eq!(mem.len(), 0x1000);
    mem.write_bytes(GuestAddress(0x1800), &[1, 2, 3, 4]).unwrap();
    assert_eq!(mem.read_bytes(GuestAddress(0x1800), 4).unwrap(), vec![1, 2, 3, 4]);
    mem.write_u32(GuestAddress(0x1800), 0xdead_beef).unwrap();
    assert_eq!(mem.read_u32(GuestAddress(0x1800)).unwrap(), 0xdead_beef);
    mem.write_u64(GuestAddress(0x1ff8), 0x0102_0304_0506_0708).unwrap();
    assert_eq!(mem.read_u64(GuestAddress(0x1ff8)).unwrap(), 0x0102_0304_0506_0708);
    assert_eq!(mem.read_u8(GuestAddress(0x1fff)).unwrap(), 0x01);
}

#[test]
fn out_of_range_accesses_fail_with_the_address() {
    let mut mem = GuestMemory::new(0x1000, 0x1000).unwrap();
    // below the region
    assert_eq!(
        mem.read_bytes(GuestAddress(0xfff), 1),
        Err(GuestMemoryError::InvalidGuestAddress(GuestAddress(0xfff)))
    );
    // straddling the end
    assert_eq!(
        mem.write_bytes(GuestAddress(0x1fff), &[1, 2]),
        Err(GuestMemoryError::InvalidGuestAddress(GuestAddress(0x1fff)))
    );
    // fully past the end
    assert!(mem.read_u8(GuestAddress(0x2000)).is_err());
    // a failed write changes nothing
    assert_eq!(mem.read_u8(GuestAddress(0x1fff)).unwrap(), 0);
}

#[test]
fn checked_offset_guards_overflow_and_escape() {
    let mem = GuestMemory::new(0x1000, 0x1000).unwrap();
    assert_eq!(
        mem.checked_offset(GuestAddress(0x1000), 0xfff),
        Some(GuestAddress(0x1fff))
    );
    assert_eq!(mem.checked_offset(GuestAddress(0x1000), 0x1000), None);
    assert_eq!(mem.checked_offset(GuestAddress(u64::MAX), 1), None);
}
