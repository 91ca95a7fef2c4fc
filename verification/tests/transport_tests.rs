use virtio_stack::block::Block;
use virtio_stack::disk::DiskFile;
use virtio_stack::disk::RamDisk;
use virtio_stack::guest_mem::GuestAddress;
use virtio_stack::guest_mem::GuestMemory;
use virtio_stack::pci::Error;
use virtio_stack::pci::PciInterruptPin;
use virtio_stack::queue::VIRTQ_DESC_F_NEXT;
use virtio_stack::queue::VIRTQ_DESC_F_WRITE;
use virtio_stack::system_allocator::AddressRanges;
use virtio_stack::system_allocator::SystemAllocator;
use virtio_stack::virtio_pci::VirtioPciDevice;

const MMIO_BASE: u64 = 0x3000_0000;

fn allocator() -> SystemAllocator {
    AddressRanges::new()
        .add_io_addresses(0x1000, 0x10000)
        .add_device_addresses(0x1000_0000, 0x1000_0000)
        .add_mmio_addresses(MMIO_BASE, 0x10000)
        .create_allocator(5)
        .unwrap()
}

fn transport() -> VirtioPciDevice<Block<RamDisk>> {
    let block = Block::new(RamDisk::new(0x1000), false);
    VirtioPciDevice::new(block)
}

fn placed_transport() -> (VirtioPciDevice<Block<RamDisk>>, u64) {
    let mut t = transport();
    let mut resources = allocator();
    let ranges = t.allocate_io_bars(&mut resources).unwrap();
    assert_eq!(ranges, vec![(MMIO_BASE, 0x4000)]);
    t.assign_irq(5, PciInterruptPin::IntA);
    (t, MMIO_BASE)
}

fn write_u8_bar(t: &mut VirtioPciDevice<Block<RamDisk>>, addr: u64, v: u8) {
    t.write_bar(addr, &[v]);
}

fn write_u16_bar(t: &mut VirtioPciDevice<Block<RamDisk>>, addr: u64, v: u16) {
    t.write_bar(addr, &v.to_le_bytes());
}

fn write_u32_bar(t: &mut VirtioPciDevice<Block<RamDisk>>, addr: u64, v: u32) {
    t.write_bar(addr, &v.to_le_bytes());
}

fn read_u32_bar(t: &mut VirtioPciDevice<Block<RamDisk>>, addr: u64) -> u32 {
    let mut data = vec![0u8; 4];
    t.read_bar(addr, &mut data);
    u32::from_le_bytes([data[0], data[1], data[2], data[3]])
}

#[test]
fn transport_header_identifies_virtio_block() {
    let t = transport();
    // vendor 0x1af4, device 0x1042 (0x1040 + block type 2)
    assert_eq!(t.config_register_read(0), 0x1042_1af4);
    // subsystem vendor and id mirror them
    assert_eq!(t.config_register_read(11), 0x1042_1af4);
    // class "other" (0xff), subclass non-transitional (0xff)
    assert_eq!(t.config_register_read(2), 0xffff_0000);
}

#[test]
fn bar_placement_and_size_probing() {
    let (mut t, bar0) = placed_transport();
    // BAR0 holds the address with the 64-bit memory type bit
    assert_eq!(t.config_register_read(4), (bar0 as u32) | 0x04);
    assert_eq!(t.config_register_read(5), 0);
    // probing: writing all-ones reads back the size mask, type bits kept
    t.config_register_write(4, 0, &[0xff, 0xff, 0xff, 0xff]);
    assert_eq!(t.config_register_read(4), 0xffff_c000 | 0x04);
    // restore the address
    t.config_register_write(4, 0, &(bar0 as u32).to_le_bytes());
    assert_eq!(t.config_register_read(4), (bar0 as u32) | 0x04);
}

#[test]
fn command_register_write_honors_masks() {
    let (mut t, _) = placed_transport();
    // only the I/O and memory enable bits of the command register move
    t.config_register_write(1, 0, &[0xff]);
    assert_eq!(t.config_register_read(1) & 0xffff, 0x0003);
    // device and vendor IDs ignore writes
    t.config_register_write(0, 0, &[0xff, 0xff, 0xff, 0xff]);
    assert_eq!(t.config_register_read(0), 0x1042_1af4);
}

#[test]
fn capability_chain_describes_the_four_windows() {
    let (t, _) = placed_transport();
    // capabilities-list status bit
    assert!(t.config_register_read(1) & 0x0010_0000 != 0);
    // capability pointer
    assert_eq!(t.config_register_read(13) & 0xff, 0x40);
    // five vendor capabilities: common, isr, device, notify, pci-config
    let expected = [
        (0x40u32, 0x50u32, 1u32, 0x0000u32, 56u32),
        (0x50, 0x60, 3, 0x1000, 1),
        (0x60, 0x70, 4, 0x2000, 0x1000),
        (0x70, 0x84, 2, 0x3000, 0x1000),
        (0x84, 0x00, 5, 0x0000, 0),
    ];
    for (off, next, cfg_type, window, len) in expected {
        let head = t.config_register_read(off as usize / 4);
        assert_eq!(head & 0xff, 0x09, "cap id at {off:#x}");
        assert_eq!((head >> 8) & 0xff, next, "next pointer at {off:#x}");
        assert_eq!((head >> 24) & 0xff, cfg_type, "cfg type at {off:#x}");
        let window_reg = t.config_register_read((off + 8) as usize / 4);
        assert_eq!(window_reg, window, "window offset at {off:#x}");
        let len_reg = t.config_register_read((off + 12) as usize / 4);
        assert_eq!(len_reg, len, "window length at {off:#x}");
    }
    // the notify capability carries the notify-off multiplier
    assert_eq!(t.config_register_read((0x84 - 4) as usize / 4), 4);
}

#[test]
fn isr_read_clears_status() {
    let (mut t, bar0) = placed_transport();
    t.interrupt_status = 0x3;
    let mut b = vec![0u8; 1];
    t.read_bar(bar0 + 0x1000, &mut b);
    assert_eq!(b[0], 0x3);
    t.read_bar(bar0 + 0x1000, &mut b);
    assert_eq!(b[0], 0);
}

#[test]
fn isr_write_clears_written_bits() {
    let (mut t, bar0) = placed_transport();
    t.interrupt_status = 0x3;
    write_u8_bar(&mut t, bar0 + 0x1000, 0x1);
    assert_eq!(t.interrupt_status, 0x2);
}

#[test]
fn notify_window_reads_zero() {
    let (mut t, bar0) = placed_transport();
    let mut data = vec![0xffu8; 4];
    t.read_bar(bar0 + 0x3000, &mut data);
    assert_eq!(data, vec![0u8; 4]);
}

#[test]
fn device_window_exposes_block_config() {
    let (mut t, bar0) = placed_transport();
    let mut capacity = vec![0u8; 8];
    t.read_bar(bar0 + 0x2000, &mut capacity);
    assert_eq!(capacity, vec![8, 0, 0, 0, 0, 0, 0, 0]);
}

#[test]
fn device_features_pages_via_common_window() {
    let (mut t, bar0) = placed_transport();
    // page 0 of a writable block device
    write_u32_bar(&mut t, bar0 + 0x00, 0);
    assert_eq!(read_u32_bar(&mut t, bar0 + 0x04), 0x6200);
    // page 1 is empty
    write_u32_bar(&mut t, bar0 + 0x00, 1);
    assert_eq!(read_u32_bar(&mut t, bar0 + 0x04), 0);
}

#[test]
fn driver_feature_writes_are_masked_to_offered_bits() {
    let (mut t, bar0) = placed_transport();
    write_u32_bar(&mut t, bar0 + 0x08, 0);
    write_u32_bar(&mut t, bar0 + 0x0c, 0xffff_ffff);
    assert_eq!(read_u32_bar(&mut t, bar0 + 0x0c), 0x6200);
    write_u32_bar(&mut t, bar0 + 0x08, 1);
    write_u32_bar(&mut t, bar0 + 0x0c, 0xffff_ffff);
    assert_eq!(read_u32_bar(&mut t, bar0 + 0x0c), 0);
}

/// Configures one valid queue of size 4 through the common window.
fn configure_queue(t: &mut VirtioPciDevice<Block<RamDisk>>, bar0: u64) {
    write_u16_bar(t, bar0 + 0x16, 0); // queue_select
    write_u16_bar(t, bar0 + 0x18, 4); // queue_size
    write_u32_bar(t, bar0 + 0x20, 0x100); // desc_table lo
    write_u32_bar(t, bar0 + 0x24, 0);
    write_u32_bar(t, bar0 + 0x28, 0x200); // avail_ring lo
    write_u32_bar(t, bar0 + 0x2c, 0);
    write_u32_bar(t, bar0 + 0x30, 0x300); // used_ring lo
    write_u32_bar(t, bar0 + 0x34, 0);
    write_u16_bar(t, bar0 + 0x1c, 1); // queue_enable
}

#[test]
fn queue_registers_read_back() {
    let (mut t, bar0) = placed_transport();
    // num_queues
    let mut nq = vec![0u8; 2];
    t.read_bar(bar0 + 0x12, &mut nq);
    assert_eq!(u16::from_le_bytes([nq[0], nq[1]]), 1);
    configure_queue(&mut t, bar0);
    let mut qs = vec![0u8; 2];
    t.read_bar(bar0 + 0x18, &mut qs);
    assert_eq!(u16::from_le_bytes([qs[0], qs[1]]), 4);
    assert_eq!(read_u32_bar(&mut t, bar0 + 0x20), 0x100);
    assert_eq!(read_u32_bar(&mut t, bar0 + 0x28), 0x200);
    assert_eq!(read_u32_bar(&mut t, bar0 + 0x30), 0x300);
    let mut en = vec![0u8; 2];
    t.read_bar(bar0 + 0x1c, &mut en);
    assert_eq!(u16::from_le_bytes([en[0], en[1]]), 1);
}

#[test]
fn driver_ok_activates_device_exactly_once() {
    // Writing ACKNOWLEDGE|DRIVER|DRIVER_OK|FEATURES_OK with one valid
    // queue configured activates the device; writing it again does not
    // activate a second time.
    let (mut t, bar0) = placed_transport();
    let mem = GuestMemory::new(0, 0x10000).unwrap();
    t.set_guest_memory(mem);
    configure_queue(&mut t, bar0);
    assert!(!t.device_activated);
    write_u8_bar(&mut t, bar0 + 0x14, 0x0f);
    assert!(t.device_activated);
    assert!(t.mem.is_none());
    assert!(t.device.worker.is_some());
    assert!(t.device.disk_image.is_none());
    // a second rising edge is a no-op
    write_u8_bar(&mut t, bar0 + 0x14, 0x0f);
    assert!(t.device_activated);
    assert!(t.device.worker.is_some());
}

#[test]
fn failed_status_does_not_activate() {
    let (mut t, bar0) = placed_transport();
    let mem = GuestMemory::new(0, 0x10000).unwrap();
    t.set_guest_memory(mem);
    configure_queue(&mut t, bar0);
    write_u8_bar(&mut t, bar0 + 0x14, 0x0f | 0x80);
    assert!(!t.device_activated);
}

#[test]
fn invalid_queue_does_not_activate() {
    let (mut t, bar0) = placed_transport();
    let mem = GuestMemory::new(0, 0x10000).unwrap();
    t.set_guest_memory(mem);
    // no queue configured: not ready
    write_u8_bar(&mut t, bar0 + 0x14, 0x0f);
    assert!(!t.device_activated);
}

#[test]
fn notify_after_activation_processes_queue_and_raises_interrupt() {
    // Prepare guest memory with a write request chain, activate, then
    // deliver the queue notification: the used-ring interrupt bit rises
    // and the ISR read returns and clears it.
    let mut mem = GuestMemory::new(0, 0x10000).unwrap();
    // descriptor table at 0x100: header, data, status
    mem.write_u64(GuestAddress(0x100), 0x1000).unwrap();
    mem.write_u32(GuestAddress(0x108), 16).unwrap();
    mem.write_u16(GuestAddress(0x10c), VIRTQ_DESC_F_NEXT).unwrap();
    mem.write_u16(GuestAddress(0x10e), 1).unwrap();
    mem.write_u64(GuestAddress(0x110), 0x2000).unwrap();
    mem.write_u32(GuestAddress(0x118), 512).unwrap();
    mem.write_u16(GuestAddress(0x11c), VIRTQ_DESC_F_NEXT).unwrap();
    mem.write_u16(GuestAddress(0x11e), 2).unwrap();
    mem.write_u64(GuestAddress(0x120), 0x3000).unwrap();
    mem.write_u32(GuestAddress(0x128), 1).unwrap();
    mem.write_u16(GuestAddress(0x12c), VIRTQ_DESC_F_WRITE).unwrap();
    // request header: OUT, sector 0
    mem.write_u32(GuestAddress(0x1000), 1).unwrap();
    mem.write_u64(GuestAddress(0x1008), 0).unwrap();
    mem.write_bytes(GuestAddress(0x2000), &[0xab; 512]).unwrap();
    // available ring: one entry
    mem.write_u16(GuestAddress(0x204), 0).unwrap();
    mem.write_u16(GuestAddress(0x202), 1).unwrap();

    let (mut t, bar0) = placed_transport();
    t.set_guest_memory(mem);
    configure_queue(&mut t, bar0);
    write_u8_bar(&mut t, bar0 + 0x14, 0x0f);
    assert!(t.device_activated);
    assert!(t.on_queue_notify(0));
    assert_eq!(t.interrupt_status, 1);
    let mut isr = vec![0u8; 1];
    t.read_bar(bar0 + 0x1000, &mut isr);
    assert_eq!(isr[0], 1);
    assert_eq!(t.interrupt_status, 0);
    // the write reached the disk owned by the worker
    let worker = t.device.worker.as_mut().unwrap();
    assert_eq!(worker.disk_image.read_at(0, 512).unwrap(), vec![0xab; 512]);
    assert_eq!(worker.mem.read_u8(GuestAddress(0x3000)).unwrap(), 0);
}

#[test]
fn notify_before_activation_does_nothing() {
    let (mut t, _) = placed_transport();
    assert!(!t.on_queue_notify(0));
    assert_eq!(t.interrupt_status, 0);
}

#[test]
fn bar_allocation_fails_when_mmio_exhausted() {
    let mut t = transport();
    let mut resources = AddressRanges::new()
        .add_io_addresses(0x1000, 0x10000)
        .add_device_addresses(0x1000_0000, 0x1000_0000)
        .add_mmio_addresses(MMIO_BASE, 0x1000)
        .create_allocator(5)
        .unwrap();
    match t.allocate_io_bars(&mut resources) {
        Err(Error::IoAllocationFailed(size)) => assert_eq!(size, 0x4000),
        other => panic!("expected allocation failure, got {other:?}"),
    }
}

#[test]
fn notify_addresses_follow_the_multiplier() {
    let (t, bar0) = placed_transport();
    assert_eq!(t.notify_addresses(), vec![bar0 + 0x3000]);
}
