use virtio_stack::block::FlushTimer;
use virtio_stack::block::Worker;
use virtio_stack::disk::DiskFile;
use virtio_stack::disk::RamDisk;
use virtio_stack::guest_mem::GuestAddress;
use virtio_stack::guest_mem::GuestMemory;
use virtio_stack::queue::DescriptorChain;
use virtio_stack::queue::Queue;
use virtio_stack::queue::VIRTQ_DESC_F_NEXT;
use virtio_stack::queue::VIRTQ_DESC_F_WRITE;

const DESC_TABLE: u64 = 0x100;
const AVAIL_RING: u64 = 0x200;
const USED_RING: u64 = 0x300;
const QSIZE: u16 = 4;

fn test_memory() -> GuestMemory {
    GuestMemory::new(0, 0x10000).unwrap()
}

fn test_queue() -> Queue {
    let mut q = Queue::new(QSIZE);
    q.ready = true;
    q.desc_table = GuestAddress(DESC_TABLE);
    q.avail_ring = GuestAddress(AVAIL_RING);
    q.used_ring = GuestAddress(USED_RING);
    q
}

fn write_desc(mem: &mut GuestMemory, index: u16, addr: u64, len: u32, flags: u16, next: u16) {
    let base = DESC_TABLE + 16 * index as u64;
    mem.write_u64(GuestAddress(base), addr).unwrap();
    mem.write_u32(GuestAddress(base + 8), len).unwrap();
    mem.write_u16(GuestAddress(base + 12), flags).unwrap();
    mem.write_u16(GuestAddress(base + 14), next).unwrap();
}

fn publish_avail(mem: &mut GuestMemory, slot: u16, head: u16, idx: u16) {
    mem.write_u16(GuestAddress(AVAIL_RING + 4 + 2 * slot as u64), head)
        .unwrap();
    mem.write_u16(GuestAddress(AVAIL_RING + 2), idx).unwrap();
}

/// Builds a three-descriptor block request chain headed at descriptor 0:
/// a 16-byte header, a data buffer, and a one-byte status.
fn write_block_chain(mem: &mut GuestMemory, req_type: u32, sector: u64, data_flags: u16) {
    write_desc(mem, 0, 0x1000, 16, VIRTQ_DESC_F_NEXT, 1);
    write_desc(mem, 1, 0x2000, 512, VIRTQ_DESC_F_NEXT | data_flags, 2);
    write_desc(mem, 2, 0x3000, 1, VIRTQ_DESC_F_WRITE, 0);
    mem.write_u32(GuestAddress(0x1000), req_type).unwrap();
    mem.write_u32(GuestAddress(0x1004), 0).unwrap();
    mem.write_u64(GuestAddress(0x1008), sector).unwrap();
    publish_avail(mem, 0, 0, 1);
}

#[test]
fn queue_validity() {
    let mem = test_memory();
    let mut q = test_queue();
    assert!(q.is_valid(&mem));
    q.ready = false;
    assert!(!q.is_valid(&mem));
    q.ready = true;
    q.size = 3; // not a power of two
    assert!(!q.is_valid(&mem));
    q.size = 4;
    q.desc_table = GuestAddress(0x101); // misaligned
    assert!(!q.is_valid(&mem));
    q.desc_table = GuestAddress(0xffff0); // runs past the end of memory
    assert!(!q.is_valid(&mem));
}

#[test]
fn pop_avail_empty() {
    let mem = test_memory();
    let mut q = test_queue();
    assert!(q.pop_avail(&mem).is_none());
}

#[test]
fn chain_walk_yields_linked_descriptors() {
    let mut mem = test_memory();
    let mut q = test_queue();
    write_block_chain(&mut mem, 1, 0, 0);
    let head = q.pop_avail(&mem).expect("no chain");
    assert_eq!(head.index, 0);
    assert_eq!(head.addr, GuestAddress(0x1000));
    assert_eq!(head.len, 16);
    assert!(head.has_next());
    assert!(!head.is_write_only());
    let data = head.next_descriptor(&mem).expect("no data descriptor");
    assert_eq!(data.index, 1);
    assert_eq!(data.addr, GuestAddress(0x2000));
    assert_eq!(data.len, 512);
    let status = data.next_descriptor(&mem).expect("no status descriptor");
    assert_eq!(status.index, 2);
    assert!(status.is_write_only());
    assert!(status.next_descriptor(&mem).is_none());
}

#[test]
fn chain_cycle_is_bounded_by_queue_size() {
    // A self-linked descriptor must not let the walk run forever: the
    // chain ends after at most queue-size descriptors.
    let mut mem = test_memory();
    let mut q = test_queue();
    write_desc(&mut mem, 0, 0x1000, 16, VIRTQ_DESC_F_NEXT, 0);
    publish_avail(&mut mem, 0, 0, 1);
    let mut cursor = q.pop_avail(&mem).expect("no chain");
    let mut count: u32 = 1;
    while let Some(next) = cursor.next_descriptor(&mem) {
        cursor = next;
        count += 1;
        assert!(count <= QSIZE as u32);
    }
    assert_eq!(count, QSIZE as u32);
}

#[test]
fn malformed_head_ends_iteration() {
    let mut mem = test_memory();
    let mut q = test_queue();
    // head index out of the table
    publish_avail(&mut mem, 0, 9, 1);
    assert!(q.pop_avail(&mem).is_none());
    // the slot was still consumed
    assert!(q.pop_avail(&mem).is_none());
}

#[test]
fn add_used_publishes_entry_and_index() {
    let mut mem = test_memory();
    let mut q = test_queue();
    q.add_used(&mut mem, 2, 512);
    assert_eq!(mem.read_u32(GuestAddress(USED_RING + 4)).unwrap(), 2);
    assert_eq!(mem.read_u32(GuestAddress(USED_RING + 8)).unwrap(), 512);
    assert_eq!(mem.read_u16(GuestAddress(USED_RING + 2)).unwrap(), 1);
    q.add_used(&mut mem, 3, 1);
    assert_eq!(mem.read_u32(GuestAddress(USED_RING + 12)).unwrap(), 3);
    assert_eq!(mem.read_u16(GuestAddress(USED_RING + 2)).unwrap(), 2);
}

#[test]
fn add_used_ignores_out_of_range_index() {
    let mut mem = test_memory();
    let mut q = test_queue();
    q.add_used(&mut mem, QSIZE, 7);
    assert_eq!(mem.read_u16(GuestAddress(USED_RING + 2)).unwrap(), 0);
}

fn test_worker(mem: GuestMemory, disk: RamDisk) -> Worker<RamDisk> {
    Worker {
        queue: test_queue(),
        mem,
        disk_image: disk,
        flush_timer: FlushTimer { armed: false },
    }
}

#[test]
fn out_chain_writes_disk_and_status() {
    // A write request executes: the first 512 disk bytes become 0xAB, the
    // status byte is 0, and the used ring gains (head, 1).
    let mut mem = test_memory();
    write_block_chain(&mut mem, 1, 0, 0);
    mem.write_bytes(GuestAddress(0x2000), &[0xab; 512]).unwrap();
    let mut w = test_worker(mem, RamDisk::new(0x1000));
    assert!(w.process_queue().0);
    let disk_bytes = w.disk_image.read_at(0, 512).unwrap();
    assert_eq!(disk_bytes, vec![0xab; 512]);
    assert_eq!(w.mem.read_u8(GuestAddress(0x3000)).unwrap(), 0);
    assert_eq!(w.mem.read_u32(GuestAddress(USED_RING + 4)).unwrap(), 0);
    assert_eq!(w.mem.read_u32(GuestAddress(USED_RING + 8)).unwrap(), 1);
    assert_eq!(w.mem.read_u16(GuestAddress(USED_RING + 2)).unwrap(), 1);
    assert!(w.flush_timer.armed);
}

#[test]
fn reversed_direction_parses_to_error() {
    // A write request whose data descriptor is device-writable is a parse
    // error: the status byte stays untouched and the used ring gains
    // (head, 0).
    let mut mem = test_memory();
    write_block_chain(&mut mem, 1, 0, VIRTQ_DESC_F_WRITE);
    mem.write_u8(GuestAddress(0x3000), 0x77).unwrap();
    let mut w = test_worker(mem, RamDisk::new(0x1000));
    assert!(w.process_queue().0);
    // status untouched
    assert_eq!(w.mem.read_u8(GuestAddress(0x3000)).unwrap(), 0x77);
    // disk untouched
    assert_eq!(w.disk_image.read_at(0, 512).unwrap(), vec![0u8; 512]);
    // used ring gains (head, 0)
    assert_eq!(w.mem.read_u32(GuestAddress(USED_RING + 4)).unwrap(), 0);
    assert_eq!(w.mem.read_u32(GuestAddress(USED_RING + 8)).unwrap(), 0);
    assert_eq!(w.mem.read_u16(GuestAddress(USED_RING + 2)).unwrap(), 1);
    assert!(!w.flush_timer.armed);
}

#[test]
fn in_chain_reads_disk_into_memory() {
    let mut mem = test_memory();
    write_block_chain(&mut mem, 0, 1, VIRTQ_DESC_F_WRITE);
    let mut contents = vec![0u8; 0x1000];
    for (i, b) in contents.iter_mut().enumerate() {
        *b = (i % 253) as u8;
    }
    let mut w = test_worker(mem, RamDisk::from_vec(contents.clone()));
    assert!(w.process_queue().0);
    let got = w.mem.read_bytes(GuestAddress(0x2000), 512).unwrap();
    assert_eq!(&got[..], &contents[512..1024]);
    assert_eq!(w.mem.read_u8(GuestAddress(0x3000)).unwrap(), 0);
    // the used length of a successful read is the data length
    assert_eq!(w.mem.read_u32(GuestAddress(USED_RING + 8)).unwrap(), 512);
}

#[test]
fn flush_chain_clears_timer() {
    let mut mem = test_memory();
    write_desc(&mut mem, 0, 0x1000, 16, VIRTQ_DESC_F_NEXT, 1);
    write_desc(&mut mem, 1, 0x3000, 1, VIRTQ_DESC_F_WRITE, 0);
    mem.write_u32(GuestAddress(0x1000), 4).unwrap();
    mem.write_u64(GuestAddress(0x1008), 0).unwrap();
    publish_avail(&mut mem, 0, 0, 1);
    let mut w = test_worker(mem, RamDisk::new(0x1000));
    w.flush_timer.armed = true;
    assert!(w.process_queue().0);
    assert!(!w.flush_timer.armed);
    assert_eq!(w.mem.read_u8(GuestAddress(0x3000)).unwrap(), 0);
    assert_eq!(w.mem.read_u32(GuestAddress(USED_RING + 8)).unwrap(), 1);
}

#[test]
fn too_short_chain_is_a_parse_error() {
    let mut mem = test_memory();
    // a lone header descriptor without data or status
    write_desc(&mut mem, 0, 0x1000, 16, 0, 0);
    mem.write_u32(GuestAddress(0x1000), 1).unwrap();
    publish_avail(&mut mem, 0, 0, 1);
    let mut w = test_worker(mem, RamDisk::new(0x1000));
    assert!(w.process_queue().0);
    assert_eq!(w.mem.read_u32(GuestAddress(USED_RING + 8)).unwrap(), 0);
}

#[test]
fn write_zeroes_chain_zeroes_sectors() {
    let mut mem = test_memory();
    write_desc(&mut mem, 0, 0x1000, 16, VIRTQ_DESC_F_NEXT, 1);
    write_desc(&mut mem, 1, 0x2000, 16, VIRTQ_DESC_F_NEXT, 2);
    write_desc(&mut mem, 2, 0x3000, 1, VIRTQ_DESC_F_WRITE, 0);
    mem.write_u32(GuestAddress(0x1000), 13).unwrap();
    // segment: sector 1, two sectors, no flags
    mem.write_u64(GuestAddress(0x2000), 1).unwrap();
    mem.write_u32(GuestAddress(0x2008), 2).unwrap();
    mem.write_u32(GuestAddress(0x200c), 0).unwrap();
    publish_avail(&mut mem, 0, 0, 1);
    let mut w = test_worker(mem, RamDisk::from_vec(vec![0xee; 0x1000]));
    assert!(w.process_queue().0);
    assert_eq!(w.mem.read_u8(GuestAddress(0x3000)).unwrap(), 0);
    assert_eq!(w.disk_image.read_at(0, 512).unwrap(), vec![0xee; 512]);
    assert_eq!(w.disk_image.read_at(512, 1024).unwrap(), vec![0u8; 1024]);
    assert_eq!(w.disk_image.read_at(1536, 512).unwrap(), vec![0xee; 512]);
}

#[test]
fn discard_with_flags_reports_ioerr() {
    // Discard allows no segment flags; an unmap flag makes it fail with
    // an I/O error status.
    let mut mem = test_memory();
    write_desc(&mut mem, 0, 0x1000, 16, VIRTQ_DESC_F_NEXT, 1);
    write_desc(&mut mem, 1, 0x2000, 16, VIRTQ_DESC_F_NEXT, 2);
    write_desc(&mut mem, 2, 0x3000, 1, VIRTQ_DESC_F_WRITE, 0);
    mem.write_u32(GuestAddress(0x1000), 11).unwrap();
    mem.write_u64(GuestAddress(0x2000), 0).unwrap();
    mem.write_u32(GuestAddress(0x2008), 1).unwrap();
    mem.write_u32(GuestAddress(0x200c), 1).unwrap();
    publish_avail(&mut mem, 0, 0, 1);
    let mut w = test_worker(mem, RamDisk::from_vec(vec![0xee; 0x1000]));
    assert!(w.process_queue().0);
    assert_eq!(w.mem.read_u8(GuestAddress(0x3000)).unwrap(), 1);
    // nothing was zeroed
    assert_eq!(w.disk_image.read_at(0, 512).unwrap(), vec![0xee; 512]);
}

#[test]
fn unsupported_type_reports_unsupp_status() {
    let mut mem = test_memory();
    write_block_chain(&mut mem, 42, 0, 0);
    let mut w = test_worker(mem, RamDisk::new(0x1000));
    assert!(w.process_queue().0);
    assert_eq!(w.mem.read_u8(GuestAddress(0x3000)).unwrap(), 2);
    assert_eq!(w.mem.read_u32(GuestAddress(USED_RING + 8)).unwrap(), 1);
}

#[test]
fn worker_flush_timer_tick() {
    let mem = test_memory();
    let mut w = test_worker(mem, RamDisk::new(0x1000));
    w.flush_timer.armed = true;
    assert!(w.on_flush_timer().is_ok());
    assert!(!w.flush_timer.armed);
}

#[test]
fn batch_processes_all_available_chains() {
    // Two chains published together complete together; each gets its used
    // entry, in order.
    let mut mem = test_memory();
    // chain A: flush with status at 0x3000 (descs 0, 1)
    write_desc(&mut mem, 0, 0x1000, 16, VIRTQ_DESC_F_NEXT, 1);
    write_desc(&mut mem, 1, 0x3000, 1, VIRTQ_DESC_F_WRITE, 0);
    mem.write_u32(GuestAddress(0x1000), 4).unwrap();
    // chain B: flush with status at 0x3100 (descs 2, 3)
    write_desc(&mut mem, 2, 0x1100, 16, VIRTQ_DESC_F_NEXT, 3);
    write_desc(&mut mem, 3, 0x3100, 1, VIRTQ_DESC_F_WRITE, 0);
    mem.write_u32(GuestAddress(0x1100), 4).unwrap();
    publish_avail(&mut mem, 0, 0, 2);
    mem.write_u16(GuestAddress(AVAIL_RING + 6), 2).unwrap();
    let mut w = test_worker(mem, RamDisk::new(0x1000));
    assert!(w.process_queue().0);
    assert_eq!(w.mem.read_u16(GuestAddress(USED_RING + 2)).unwrap(), 2);
    assert_eq!(w.mem.read_u32(GuestAddress(USED_RING + 4)).unwrap(), 0);
    assert_eq!(w.mem.read_u32(GuestAddress(USED_RING + 12)).unwrap(), 2);
}

#[test]
fn checked_new_rejects_out_of_table_index() {
    let mem = test_memory();
    assert!(DescriptorChain::checked_new(&mem, GuestAddress(DESC_TABLE), QSIZE, QSIZE, QSIZE)
        .is_none());
}

#[test]
fn checked_new_rejects_buffer_outside_memory() {
    let mut mem = test_memory();
    write_desc(&mut mem, 0, 0xffff_0000, 512, 0, 0);
    assert!(DescriptorChain::checked_new(&mem, GuestAddress(DESC_TABLE), QSIZE, 0, QSIZE)
        .is_none());
}

#[test]
fn read_only_status_descriptor_is_a_parse_error() {
    let mut mem = test_memory();
    write_desc(&mut mem, 0, 0x1000, 16, VIRTQ_DESC_F_NEXT, 1);
    write_desc(&mut mem, 1, 0x2000, 512, VIRTQ_DESC_F_NEXT | VIRTQ_DESC_F_WRITE, 2);
    // status descriptor not device-writable
    write_desc(&mut mem, 2, 0x3000, 1, 0, 0);
    mem.write_u32(GuestAddress(0x1000), 0).unwrap();
    mem.write_u64(GuestAddress(0x1008), 0).unwrap();
    publish_avail(&mut mem, 0, 0, 1);
    let mut w = test_worker(mem, RamDisk::new(0x1000));
    assert!(w.process_queue().0);
    assert_eq!(w.mem.read_u32(GuestAddress(USED_RING + 8)).unwrap(), 0);
}

#[test]
fn empty_status_descriptor_is_a_parse_error() {
    let mut mem = test_memory();
    write_desc(&mut mem, 0, 0x1000, 16, VIRTQ_DESC_F_NEXT, 1);
    write_desc(&mut mem, 1, 0x2000, 512, VIRTQ_DESC_F_NEXT | VIRTQ_DESC_F_WRITE, 2);
    // status descriptor too short to hold the status byte
    write_desc(&mut mem, 2, 0x3000, 0, VIRTQ_DESC_F_WRITE, 0);
    mem.write_u32(GuestAddress(0x1000), 0).unwrap();
    mem.write_u64(GuestAddress(0x1008), 0).unwrap();
    publish_avail(&mut mem, 0, 0, 1);
    let mut w = test_worker(mem, RamDisk::new(0x1000));
    assert!(w.process_queue().0);
    assert_eq!(w.mem.read_u32(GuestAddress(USED_RING + 8)).unwrap(), 0);
}

#[test]
fn header_past_end_of_memory_is_a_parse_error() {
    // The head's buffer sits at the very end of guest memory with length
    // zero, so the 16-byte request header cannot be read from it.
    let mut mem = test_memory();
    write_desc(&mut mem, 0, 0xfffe, 0, VIRTQ_DESC_F_NEXT, 1);
    write_desc(&mut mem, 1, 0x3000, 1, VIRTQ_DESC_F_WRITE, 0);
    publish_avail(&mut mem, 0, 0, 1);
    let mut w = test_worker(mem, RamDisk::new(0x1000));
    assert!(w.process_queue().0);
    assert_eq!(w.mem.read_u32(GuestAddress(USED_RING + 8)).unwrap(), 0);
}
