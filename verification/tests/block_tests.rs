use virtio_stack::block::build_config_space;
use virtio_stack::block::config_space_to_bytes;
use virtio_stack::block::Block;
use virtio_stack::block::ExecuteError;
use virtio_stack::block::FlushTimer;
use virtio_stack::block::Request;
use virtio_stack::block::RequestType;
use virtio_stack::block::VIRTIO_BLK_S_IOERR;
use virtio_stack::block::VIRTIO_BLK_S_UNSUPP;
use virtio_stack::disk::DiskFile;
use virtio_stack::disk::RamDisk;
use virtio_stack::guest_mem::GuestAddress;
use virtio_stack::guest_mem::GuestMemory;
use virtio_stack::virtio::VirtioDevice;

#[test]
fn read_size() {
    let f = RamDisk::new(0x1000);
    let b = Block::new(f, true);
    let mut num_sectors = vec![0u8; 4];
    b.read_config(0, &mut num_sectors);
    // size is 0x1000, so num_sectors is 8 (4096/512).
    assert_eq!(vec![0x08, 0x00, 0x00, 0x00], num_sectors);
    let mut msw_sectors = vec![0u8; 4];
    b.read_config(4, &mut msw_sectors);
    // size is 0x1000, so msw_sectors is 0.
    assert_eq!(vec![0x00, 0x00, 0x00, 0x00], msw_sectors);
}

#[test]
fn read_features() {
    // read-write block device
    {
        let f = RamDisk::new(0x1000);
        let b = Block::new(f, false);
        // writable device should set flush, discard and write-zeroes features
        assert_eq!(0x6200, b.features(0));
    }

    // read-only block device
    {
        let f = RamDisk::new(0x1000);
        let b = Block::new(f, true);
        // read-only device should set flush and read-only features
        assert_eq!(0x220, b.features(0));
    }
}

#[test]
fn read_features_other_pages() {
    let b = Block::new(RamDisk::new(0x1000), false);
    assert_eq!(0, b.features(1));
    assert_eq!(0, b.features(2));
}

#[test]
fn config_space_layout() {
    let cfg = build_config_space(0x1000);
    let bytes = config_space_to_bytes(&cfg);
    assert_eq!(bytes.len(), 60);
    // capacity = 8 sectors, little endian
    assert_eq!(&bytes[0..8], &[8, 0, 0, 0, 0, 0, 0, 0]);
    // max_discard_sectors
    assert_eq!(&bytes[36..40], &[0xff, 0xff, 0xff, 0xff]);
    // max_discard_seg
    assert_eq!(&bytes[40..44], &[1, 0, 0, 0]);
    // discard_sector_alignment = 128
    assert_eq!(&bytes[44..48], &[128, 0, 0, 0]);
    // max_write_zeroes_sectors
    assert_eq!(&bytes[48..52], &[0xff, 0xff, 0xff, 0xff]);
    // max_write_zeroes_seg
    assert_eq!(&bytes[52..56], &[1, 0, 0, 0]);
    // write_zeroes_may_unmap, then padding
    assert_eq!(&bytes[56..60], &[1, 0, 0, 0]);
}

#[test]
fn read_config_round_trip_every_window() {
    // Reading back any in-bounds sub-range through read_config returns the
    // serialized bytes unchanged.
    let b = Block::new(RamDisk::new(0x1000), false);
    let bytes = config_space_to_bytes(&build_config_space(0x1000));
    for offset in 0..60usize {
        for len in 0..=(60 - offset) {
            let mut data = vec![0xa5u8; len];
            b.read_config(offset as u64, &mut data);
            assert_eq!(&data[..], &bytes[offset..offset + len]);
        }
    }
}

#[test]
fn read_config_zero_extends() {
    let b = Block::new(RamDisk::new(0x1000), false);
    let mut data = vec![0xa5u8; 8];
    b.read_config(58, &mut data);
    // two real bytes (padding, zero), then zeros past the end
    assert_eq!(data, vec![0u8; 8]);
    let mut far = vec![0xa5u8; 4];
    b.read_config(1000, &mut far);
    assert_eq!(far, vec![0u8; 4]);
}

#[test]
fn ack_features_masks_unoffered_bits() {
    // Whatever the driver acks, bits the device does not offer stay clear.
    let mut b = Block::new(RamDisk::new(0x1000), false);
    assert_eq!(b.features(0), 0x6200);
    b.ack_features(0, 0xffff_ffff);
    assert_eq!(b.acked_features_page(0), 0x6200);
    b.ack_features(1, 0xffff_ffff);
    assert_eq!(b.acked_features_page(1), 0);
    assert_eq!(b.acked_features, b.avail_features);
}

fn mem_with_status(status_addr: u64) -> GuestMemory {
    let mem = GuestMemory::new(0, 0x10000).unwrap();
    assert!(mem.check_range(GuestAddress(status_addr), 1));
    mem
}

#[test]
fn flush_timer_armed_by_write_cleared_by_flush() {
    // An OUT arms the deferred-flush timer, a FLUSH clears it, and a
    // further OUT within the same interval re-arms it.
    let mut disk = RamDisk::new(0x1000);
    let mut timer = FlushTimer { armed: false };
    let mut mem = mem_with_status(0x200);
    // put some data for the write at 0x1000
    mem.write_bytes(GuestAddress(0x1000), &[0xcd; 512]).unwrap();
    let out = Request {
        request_type: RequestType::Out,
        sector: 0,
        data_addr: GuestAddress(0x1000),
        data_len: 512,
        status_addr: GuestAddress(0x200),
        discard_write_zeroes_seg: None,
    };
    assert_eq!(out.execute(&mut disk, &mut timer, &mut mem), Ok(1));
    assert!(timer.armed);
    let flush = Request {
        request_type: RequestType::Flush,
        sector: 0,
        data_addr: GuestAddress(0),
        data_len: 0,
        status_addr: GuestAddress(0x200),
        discard_write_zeroes_seg: None,
    };
    assert_eq!(flush.execute(&mut disk, &mut timer, &mut mem), Ok(1));
    assert!(!timer.armed);
    assert_eq!(out.execute(&mut disk, &mut timer, &mut mem), Ok(1));
    assert!(timer.armed);
}

#[test]
fn out_then_flush_reads_back_written_bytes() {
    // What a successful OUT wrote, a FLUSH keeps and an IN reads back.
    let mut disk = RamDisk::new(0x1000);
    let mut timer = FlushTimer { armed: false };
    let mut mem = mem_with_status(0x200);
    mem.write_bytes(GuestAddress(0x1000), &[0x5a; 512]).unwrap();
    let out = Request {
        request_type: RequestType::Out,
        sector: 2,
        data_addr: GuestAddress(0x1000),
        data_len: 512,
        status_addr: GuestAddress(0x200),
        discard_write_zeroes_seg: None,
    };
    assert_eq!(out.execute(&mut disk, &mut timer, &mut mem), Ok(1));
    let flush = Request {
        request_type: RequestType::Flush,
        sector: 0,
        data_addr: GuestAddress(0),
        data_len: 0,
        status_addr: GuestAddress(0x200),
        discard_write_zeroes_seg: None,
    };
    assert_eq!(flush.execute(&mut disk, &mut timer, &mut mem), Ok(1));
    let back = disk.read_at(2 * 512, 512).unwrap();
    assert_eq!(back, vec![0x5a; 512]);
}

#[test]
fn in_reads_disk_into_guest_memory() {
    // A successful IN of n bytes puts exactly the n bytes of the addressed
    // sectors at data_addr.
    let mut contents = vec![0u8; 0x1000];
    for (i, b) in contents.iter_mut().enumerate() {
        *b = (i % 251) as u8;
    }
    let mut disk = RamDisk::from_vec(contents.clone());
    let mut timer = FlushTimer { armed: false };
    let mut mem = mem_with_status(0x200);
    let req = Request {
        request_type: RequestType::In,
        sector: 1,
        data_addr: GuestAddress(0x1000),
        data_len: 512,
        status_addr: GuestAddress(0x200),
        discard_write_zeroes_seg: None,
    };
    assert_eq!(req.execute(&mut disk, &mut timer, &mut mem), Ok(512));
    let got = mem.read_bytes(GuestAddress(0x1000), 512).unwrap();
    assert_eq!(&got[..], &contents[512..1024]);
    assert!(!timer.armed);
}

#[test]
fn in_beyond_capacity_fails() {
    let mut disk = RamDisk::new(0x1000);
    let mut timer = FlushTimer { armed: false };
    let mut mem = mem_with_status(0x200);
    let req = Request {
        request_type: RequestType::In,
        sector: 8,
        data_addr: GuestAddress(0x1000),
        data_len: 512,
        status_addr: GuestAddress(0x200),
        discard_write_zeroes_seg: None,
    };
    match req.execute(&mut disk, &mut timer, &mut mem) {
        Err(ExecuteError::Read { sector, length, .. }) => {
            assert_eq!(sector, 8);
            assert_eq!(length, 512);
        }
        other => panic!("expected read failure, got {:?}", other),
    }
}

#[test]
fn execute_error_status_bytes() {
    assert_eq!(ExecuteError::Unsupported(7).status(), VIRTIO_BLK_S_UNSUPP);
    assert_eq!(ExecuteError::Flush.status(), VIRTIO_BLK_S_IOERR);
    assert_eq!(ExecuteError::Seek { sector: 1 }.status(), VIRTIO_BLK_S_IOERR);
    assert_eq!(
        ExecuteError::DiscardWriteZeroes {
            sector: 0,
            num_sectors: 1,
            flags: 0
        }
        .status(),
        VIRTIO_BLK_S_IOERR
    );
}

#[test]
fn unsupported_request_reports_unsupp() {
    let mut disk = RamDisk::new(0x1000);
    let mut timer = FlushTimer { armed: false };
    let mut mem = mem_with_status(0x200);
    let req = Request {
        request_type: RequestType::Unsupported(9),
        sector: 0,
        data_addr: GuestAddress(0x1000),
        data_len: 0,
        status_addr: GuestAddress(0x200),
        discard_write_zeroes_seg: None,
    };
    assert_eq!(
        req.execute(&mut disk, &mut timer, &mut mem),
        Err(ExecuteError::Unsupported(9))
    );
}
