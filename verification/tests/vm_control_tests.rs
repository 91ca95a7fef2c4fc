use virtio_stack::vm_control::GpuMemoryDesc;
use virtio_stack::vm_control::GpuMemoryPlaneDesc;
use virtio_stack::vm_control::SysError;
use virtio_stack::vm_control::VmControlError;
use virtio_stack::vm_control::VmRequest;
use virtio_stack::vm_control::VmResponse;
use virtio_stack::vm_control::VM_REQUEST_SIZE;
use virtio_stack::vm_control::VM_RESPONSE_SIZE;

#[test]
fn request_exit() {
    let (buf, needs_fd) = VmRequest::Exit.encode().unwrap();
    assert!(!needs_fd);
    match VmRequest::decode(&buf, false).unwrap() {
        VmRequest::Exit => {}
        _ => panic!("recv wrong request variant"),
    }
}

#[test]
fn request_register_memory() {
    let shm_size: u64 = 4096;
    let (buf, needs_fd) = VmRequest::RegisterMemory { size: shm_size }.encode().unwrap();
    assert!(needs_fd);
    match VmRequest::decode(&buf, true).unwrap() {
        VmRequest::RegisterMemory { size } => {
            assert_eq!(size, shm_size);
        }
        _ => panic!("recv wrong request variant"),
    }
}

#[test]
fn request_unregister_memory() {
    let (buf, needs_fd) = VmRequest::UnregisterMemory(77).encode().unwrap();
    assert!(!needs_fd);
    match VmRequest::decode(&buf, false).unwrap() {
        VmRequest::UnregisterMemory(slot) => assert_eq!(slot, 77),
        _ => panic!("recv wrong request variant"),
    }
}

#[test]
fn request_expect_fd() {
    let mut bad_request = [0u8; VM_REQUEST_SIZE];
    bad_request[0] = 2;
    match VmRequest::decode(&bad_request, false) {
        Err(VmControlError::ExpectFd) => {}
        _ => panic!("recv wrong error variant"),
    }
}

#[test]
fn request_no_data() {
    match VmRequest::decode(&[], false) {
        Err(VmControlError::BadSize(s)) => assert_eq!(s, 0),
        _ => panic!("recv wrong error variant"),
    }
}

#[test]
fn request_bad_size() {
    match VmRequest::decode(&[12; 7], false) {
        Err(VmControlError::BadSize(_)) => {}
        _ => panic!("recv wrong error variant"),
    }
}

#[test]
fn request_invalid_type() {
    match VmRequest::decode(&[12; VM_REQUEST_SIZE], false) {
        Err(VmControlError::InvalidType) => {}
        _ => panic!("recv wrong error variant"),
    }
}

#[test]
fn request_allocate_and_register_gpu_memory() {
    let gpu_width: u32 = 32;
    let gpu_height: u32 = 32;
    let gpu_format: u32 = 0x34325258;
    let r = VmRequest::AllocateAndRegisterGpuMemory {
        width: gpu_width,
        height: gpu_height,
        format: gpu_format,
    };
    let (buf, needs_fd) = r.encode().unwrap();
    assert!(!needs_fd);
    match VmRequest::decode(&buf, false).unwrap() {
        VmRequest::AllocateAndRegisterGpuMemory {
            width,
            height,
            format,
        } => {
            assert_eq!(width, gpu_width);
            assert_eq!(height, gpu_width);
            assert_eq!(format, gpu_format);
        }
        _ => panic!("recv wrong request variant"),
    }
}

#[test]
fn request_balloon_adjust_negative() {
    let (buf, needs_fd) = VmRequest::BalloonAdjust(-3).encode().unwrap();
    assert!(!needs_fd);
    match VmRequest::decode(&buf, false).unwrap() {
        VmRequest::BalloonAdjust(pages) => assert_eq!(pages, -3),
        _ => panic!("recv wrong request variant"),
    }
}

#[test]
fn request_ioevent_not_serializable() {
    let r = VmRequest::RegisterIrqfd { irq: 9 };
    match r.encode() {
        Err(VmControlError::InvalidType) => {}
        _ => panic!("expected unserializable request"),
    }
}

#[test]
fn resp_ok() {
    let (buf, sends_fd) = VmResponse::Success.encode();
    assert!(!sends_fd);
    match VmResponse::decode(&buf, false).unwrap() {
        VmResponse::Success => {}
        _ => panic!("recv wrong response variant"),
    }
}

#[test]
fn resp_err() {
    // EDESTADDRREQ is errno 89 on Linux.
    let r1 = VmResponse::Failed(SysError::new(89));
    let (buf, sends_fd) = r1.encode();
    assert!(!sends_fd);
    match VmResponse::decode(&buf, false).unwrap() {
        VmResponse::Failed(e) => {
            assert_eq!(e, SysError::new(89));
        }
        _ => panic!("recv wrong response variant"),
    }
}

#[test]
fn resp_err_negative_errno_abs() {
    let (buf, _) = VmResponse::Failed(SysError::new(-7)).encode();
    match VmResponse::decode(&buf, false).unwrap() {
        VmResponse::Failed(e) => assert_eq!(e.errno(), 7),
        _ => panic!("recv wrong response variant"),
    }
}

#[test]
fn resp_err_min_errno_maps_to_erange() {
    let (buf, _) = VmResponse::Failed(SysError::new(i32::MIN)).encode();
    match VmResponse::decode(&buf, false).unwrap() {
        VmResponse::Failed(e) => assert_eq!(e.errno(), 34),
        _ => panic!("recv wrong response variant"),
    }
}

#[test]
fn resp_memory() {
    let memory_pfn = 55;
    let memory_slot = 66;
    let r1 = VmResponse::RegisterMemory {
        pfn: memory_pfn,
        slot: memory_slot,
    };
    let (buf, sends_fd) = r1.encode();
    assert!(!sends_fd);
    match VmResponse::decode(&buf, false).unwrap() {
        VmResponse::RegisterMemory { pfn, slot } => {
            assert_eq!(pfn, memory_pfn);
            assert_eq!(slot, memory_slot);
        }
        _ => panic!("recv wrong response variant"),
    }
}

#[test]
fn resp_no_data() {
    match VmResponse::decode(&[], false) {
        Err(e) => {
            assert_eq!(e, VmControlError::BadSize(0));
        }
        _ => panic!("recv wrong response"),
    }
}

#[test]
fn resp_bad_size() {
    match VmResponse::decode(&[12; 7], false) {
        Err(e) => {
            assert_eq!(e, VmControlError::BadSize(7));
        }
        _ => panic!("recv wrong response"),
    }
}

#[test]
fn resp_invalid_type() {
    match VmResponse::decode(&[12; VM_RESPONSE_SIZE], false) {
        Err(e) => {
            assert_eq!(e, VmControlError::InvalidType);
        }
        _ => panic!("recv wrong response"),
    }
}

#[test]
fn resp_allocate_and_register_gpu_memory() {
    let memory_pfn = 55;
    let memory_slot = 66;
    let memory_desc = GpuMemoryDesc {
        plane0: GpuMemoryPlaneDesc { stride: 32, offset: 84 },
        plane1: GpuMemoryPlaneDesc { stride: 48, offset: 96 },
        plane2: GpuMemoryPlaneDesc { stride: 64, offset: 112 },
    };
    let r1 = VmResponse::AllocateAndRegisterGpuMemory {
        pfn: memory_pfn,
        slot: memory_slot,
        desc: memory_desc,
    };
    let (buf, sends_fd) = r1.encode();
    assert!(sends_fd);
    match VmResponse::decode(&buf, true).unwrap() {
        VmResponse::AllocateAndRegisterGpuMemory { pfn, slot, desc } => {
            assert_eq!(pfn, memory_pfn);
            assert_eq!(slot, memory_slot);
            assert_eq!(desc, memory_desc);
        }
        _ => panic!("recv wrong response variant"),
    }
}

#[test]
fn resp_gpu_memory_expect_fd() {
    let r1 = VmResponse::AllocateAndRegisterGpuMemory {
        pfn: 1,
        slot: 2,
        desc: GpuMemoryDesc {
            plane0: GpuMemoryPlaneDesc { stride: 0, offset: 0 },
            plane1: GpuMemoryPlaneDesc { stride: 0, offset: 0 },
            plane2: GpuMemoryPlaneDesc { stride: 0, offset: 0 },
        },
    };
    let (buf, _) = r1.encode();
    match VmResponse::decode(&buf, false) {
        Err(VmControlError::ExpectFd) => {}
        _ => panic!("recv wrong error variant"),
    }
}
