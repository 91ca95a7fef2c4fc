//! The wire codec of the VM control protocol: requests to the main process
//! and their responses travel as fixed-size little-endian structures, with a
//! file descriptor out of band when the message calls for one. This module
//! encodes and decodes the structures; the embedding program moves them and
//! the descriptors over its socket.

use vstd::prelude::*;
use vstd::slice::slice_subrange;
use vstd::bytes::u32_from_le_bytes;
use vstd::bytes::u32_to_le_bytes;
use vstd::bytes::u64_from_le_bytes;
use vstd::bytes::u64_to_le_bytes;
use vstd::bytes::spec_u32_to_le_bytes;
use vstd::bytes::spec_u32_from_le_bytes;
use vstd::bytes::spec_u64_to_le_bytes;
use vstd::bytes::spec_u64_from_le_bytes;

verus! {

/// An error during a request or response transaction.
#[derive(Clone, Copy, Debug, PartialEq, Eq, Structural)]
pub enum VmControlError {
    /// Error while sending a request or response.
    Send(SysError),
    /// Error while receiving a request or response.
    Recv(SysError),
    /// The type of a received request or response is unknown.
    InvalidType,
    /// There was not the expected amount of data in a request or response;
    /// carries how much data there was.
    BadSize(usize),
    /// No file descriptor accompanied a request that expected one.
    ExpectFd,
}

/// An operating-system error, as an errno value.
#[derive(Clone, Copy, Debug, PartialEq, Eq, Structural)]
pub struct SysError {
    pub errno: i32,
}

impl SysError {
    /// The error with the given errno.
    pub fn new(errno: i32) -> (r: SysError)
        ensures
            r == (SysError { errno }),
    {
        SysError { errno }
    }

    /// The errno value.
    pub fn errno(&self) -> (r: i32)
        ensures
            r == self.errno,
    {
        self.errno
    }
}

/// Linux's ERANGE errno, reported when an errno cannot be represented.
pub const ERANGE_ERRNO: u32 = 34;

/// An address the hypervisor matches guest writes against.
#[derive(Clone, Copy, Debug, PartialEq, Eq, Structural)]
pub enum IoeventAddress {
    Pio(u64),
    Mmio(u64),
}

/// A request to the main process to perform an operation on the VM. Where
/// the operation concerns a file descriptor, the descriptor itself travels
/// out of band beside the encoded request.
#[derive(Clone, Copy, Debug, PartialEq, Eq, Structural)]
pub enum VmRequest {
    /// Try to grow or shrink the VM's balloon by a number of pages.
    BalloonAdjust(i32),
    /// Break the VM's run loop and exit.
    Exit,
    /// Register an ioevent address with a datamatch value; the triggered
    /// event travels out of band and this request is not serializable.
    RegisterIoevent { addr: IoeventAddress, datamatch: u32 },
    /// Register an IRQ number for an event; the event travels out of band
    /// and this request is not serializable.
    RegisterIrqfd { irq: u32 },
    /// Register `size` bytes of shared memory, given by the accompanying
    /// file descriptor, into guest address space.
    RegisterMemory { size: u64 },
    /// Unregister the memory slot previously returned by `RegisterMemory`.
    UnregisterMemory(u32),
    /// Allocate a GPU buffer of the given size and format and register it.
    AllocateAndRegisterGpuMemory { width: u32, height: u32, format: u32 },
}

pub const VM_REQUEST_TYPE_EXIT: u32 = 1;

pub const VM_REQUEST_TYPE_REGISTER_MEMORY: u32 = 2;

pub const VM_REQUEST_TYPE_UNREGISTER_MEMORY: u32 = 3;

pub const VM_REQUEST_TYPE_BALLOON_ADJUST: u32 = 4;

pub const VM_REQUEST_TYPE_ALLOCATE_AND_REGISTER_GPU_MEMORY: u32 = 5;

/// Size in bytes of an encoded request.
pub const VM_REQUEST_SIZE: usize = 32;

/// The fields of the request wire structure:
/// `(type, slot, size, num_pages, width, height, format, needs_fd)`.
pub open spec fn spec_request_fields(req: VmRequest) -> (u32, u32, u64, u32, u32, u32, u32, bool) {
    match req {
        VmRequest::Exit => (VM_REQUEST_TYPE_EXIT, 0u32, 0u64, 0u32, 0u32, 0u32, 0u32, false),
        VmRequest::RegisterMemory { size } => (
            VM_REQUEST_TYPE_REGISTER_MEMORY,
            0u32,
            size,
            0u32,
            0u32,
            0u32,
            0u32,
            true,
        ),
        VmRequest::UnregisterMemory(slot) => (
            VM_REQUEST_TYPE_UNREGISTER_MEMORY,
            slot,
            0u64,
            0u32,
            0u32,
            0u32,
            0u32,
            false,
        ),
        VmRequest::BalloonAdjust(pages) => (
            VM_REQUEST_TYPE_BALLOON_ADJUST,
            0u32,
            0u64,
            pages as u32,
            0u32,
            0u32,
            0u32,
            false,
        ),
        VmRequest::AllocateAndRegisterGpuMemory { width, height, format } => (
            VM_REQUEST_TYPE_ALLOCATE_AND_REGISTER_GPU_MEMORY,
            0u32,
            0u64,
            0u32,
            width,
            height,
            format,
            false,
        ),
        _ => (0u32, 0u32, 0u64, 0u32, 0u32, 0u32, 0u32, false),
    }
}

/// Whether a request can be put on the wire at all: event-registration
/// requests carry only a descriptor and are never serialized.
pub open spec fn spec_request_serializable(req: VmRequest) -> bool {
    match req {
        VmRequest::RegisterIoevent { .. } => false,
        VmRequest::RegisterIrqfd { .. } => false,
        _ => true,
    }
}

/// The wire bytes of the fields `(t, slot, size, num_pages, w, h, f)`.
pub open spec fn spec_request_bytes(
    t: u32,
    slot: u32,
    size: u64,
    num_pages: u32,
    width: u32,
    height: u32,
    format: u32,
) -> Seq<u8> {
    spec_u32_to_le_bytes(t) + spec_u32_to_le_bytes(slot) + spec_u64_to_le_bytes(size)
        + spec_u32_to_le_bytes(num_pages) + spec_u32_to_le_bytes(width) + spec_u32_to_le_bytes(
        height,
    ) + spec_u32_to_le_bytes(format)
}

/// The request a received buffer decodes to, or the error it is rejected
/// with: a short or long read, an unknown type, or a missing descriptor.
pub open spec fn spec_decode_request(buf: Seq<u8>, has_fd: bool) -> Result<
    VmRequest,
    VmControlError,
> {
    if buf.len() != VM_REQUEST_SIZE {
        Err(VmControlError::BadSize(buf.len() as usize))
    } else {
        let t = spec_u32_from_le_bytes(buf.subrange(0, 4));
        if t == VM_REQUEST_TYPE_EXIT {
            Ok(VmRequest::Exit)
        } else if t == VM_REQUEST_TYPE_REGISTER_MEMORY {
            if has_fd {
                Ok(VmRequest::RegisterMemory { size: spec_u64_from_le_bytes(buf.subrange(8, 16)) })
            } else {
                Err(VmControlError::ExpectFd)
            }
        } else if t == VM_REQUEST_TYPE_UNREGISTER_MEMORY {
            Ok(VmRequest::UnregisterMemory(spec_u32_from_le_bytes(buf.subrange(4, 8))))
        } else if t == VM_REQUEST_TYPE_BALLOON_ADJUST {
            Ok(VmRequest::BalloonAdjust(spec_u32_from_le_bytes(buf.subrange(16, 20)) as i32))
        } else if t == VM_REQUEST_TYPE_ALLOCATE_AND_REGISTER_GPU_MEMORY {
            Ok(
                VmRequest::AllocateAndRegisterGpuMemory {
                    width: spec_u32_from_le_bytes(buf.subrange(20, 24)),
                    height: spec_u32_from_le_bytes(buf.subrange(24, 28)),
                    format: spec_u32_from_le_bytes(buf.subrange(28, 32)),
                },
            )
        } else {
            Err(VmControlError::InvalidType)
        }
    }
}

impl VmRequest {
    /// Encodes this request into its wire bytes, also telling whether a
    /// file descriptor must accompany it. An event-registration request is
    /// rejected as untypable on the wire.
    pub fn encode(&self) -> (r: Result<(Vec<u8>, bool), VmControlError>)
        ensures
            r is Ok <==> spec_request_serializable(*self),
            match r {
                Ok(p) => {
                    let f = spec_request_fields(*self);
                    &&& p.0@ == spec_request_bytes(f.0, f.1, f.2, f.3, f.4, f.5, f.6)
                    &&& p.0@.len() == VM_REQUEST_SIZE
                    &&& p.1 == f.7
                },
                Err(e) => e == VmControlError::InvalidType,
            },
    {
        let mut t: u32 = 0;
        let mut slot: u32 = 0;
        let mut size: u64 = 0;
        let mut num_pages: u32 = 0;
        let mut width: u32 = 0;
        let mut height: u32 = 0;
        let mut format: u32 = 0;
        let mut needs_fd = false;
        match self {
            VmRequest::Exit => {
                t = VM_REQUEST_TYPE_EXIT;
            },
            VmRequest::RegisterMemory { size: sz } => {
                t = VM_REQUEST_TYPE_REGISTER_MEMORY;
                size = *sz;
                needs_fd = true;
            },
            VmRequest::UnregisterMemory(s) => {
                t = VM_REQUEST_TYPE_UNREGISTER_MEMORY;
                slot = *s;
            },
            VmRequest::BalloonAdjust(pages) => {
                t = VM_REQUEST_TYPE_BALLOON_ADJUST;
                num_pages = #[verifier::truncate] (*pages as u32);
            },
            VmRequest::AllocateAndRegisterGpuMemory { width: w, height: h, format: f } => {
                t = VM_REQUEST_TYPE_ALLOCATE_AND_REGISTER_GPU_MEMORY;
                width = *w;
                height = *h;
                format = *f;
            },
            _ => {
                return Err(VmControlError::InvalidType);
            },
        }
        let mut out: Vec<u8> = Vec::new();
        let mut b = u32_to_le_bytes(t);
        out.append(&mut b);
        let mut b = u32_to_le_bytes(slot);
        out.append(&mut b);
        let mut b = u64_to_le_bytes(size);
        out.append(&mut b);
        let mut b = u32_to_le_bytes(num_pages);
        out.append(&mut b);
        let mut b = u32_to_le_bytes(width);
        out.append(&mut b);
        let mut b = u32_to_le_bytes(height);
        out.append(&mut b);
        let mut b = u32_to_le_bytes(format);
        out.append(&mut b);
        proof {
            vstd::bytes::lemma_auto_spec_u32_to_from_le_bytes();
            vstd::bytes::lemma_auto_spec_u64_to_from_le_bytes();
        }
        Ok((out, needs_fd))
    }

    /// Decodes a received buffer into a request; `has_fd` tells whether a
    /// file descriptor accompanied it.
    pub fn decode(buf: &[u8], has_fd: bool) -> (r: Result<VmRequest, VmControlError>)
        ensures
            r == spec_decode_request(buf@, has_fd),
    {
        if buf.len() != VM_REQUEST_SIZE {
            return Err(VmControlError::BadSize(buf.len()));
        }
        let t = u32_from_le_bytes(slice_subrange(buf, 0, 4));
        if t == VM_REQUEST_TYPE_EXIT {
            Ok(VmRequest::Exit)
        } else if t == VM_REQUEST_TYPE_REGISTER_MEMORY {
            if has_fd {
                Ok(
                    VmRequest::RegisterMemory {
                        size: u64_from_le_bytes(slice_subrange(buf, 8, 16)),
                    },
                )
            } else {
                Err(VmControlError::ExpectFd)
            }
        } else if t == VM_REQUEST_TYPE_UNREGISTER_MEMORY {
            Ok(VmRequest::UnregisterMemory(u32_from_le_bytes(slice_subrange(buf, 4, 8))))
        } else if t == VM_REQUEST_TYPE_BALLOON_ADJUST {
            let np = u32_from_le_bytes(slice_subrange(buf, 16, 20));
            Ok(VmRequest::BalloonAdjust(#[verifier::truncate] (np as i32)))
        } else if t == VM_REQUEST_TYPE_ALLOCATE_AND_REGISTER_GPU_MEMORY {
            Ok(
                VmRequest::AllocateAndRegisterGpuMemory {
                    width: u32_from_le_bytes(slice_subrange(buf, 20, 24)),
                    height: u32_from_le_bytes(slice_subrange(buf, 24, 28)),
                    format: u32_from_le_bytes(slice_subrange(buf, 28, 32)),
                },
            )
        } else {
            Err(VmControlError::InvalidType)
        }
    }
}

/// An encoded request decodes back to the request itself, when a required
/// descriptor accompanies it.
pub proof fn lemma_request_round_trip(req: VmRequest, bytes: Seq<u8>, needs_fd: bool)
    requires
        spec_request_serializable(req),
        ({
            let f = spec_request_fields(req);
            bytes == spec_request_bytes(f.0, f.1, f.2, f.3, f.4, f.5, f.6) && needs_fd == f.7
        }),
    ensures
        spec_decode_request(bytes, needs_fd) == Ok::<VmRequest, VmControlError>(req),
{
    vstd::bytes::lemma_auto_spec_u32_to_from_le_bytes();
    vstd::bytes::lemma_auto_spec_u64_to_from_le_bytes();
    let f = spec_request_fields(req);
    assert(bytes.subrange(0, 4) =~= spec_u32_to_le_bytes(f.0));
    assert(bytes.subrange(4, 8) =~= spec_u32_to_le_bytes(f.1));
    assert(bytes.subrange(8, 16) =~= spec_u64_to_le_bytes(f.2));
    assert(bytes.subrange(16, 20) =~= spec_u32_to_le_bytes(f.3));
    assert(bytes.subrange(20, 24) =~= spec_u32_to_le_bytes(f.4));
    assert(bytes.subrange(24, 28) =~= spec_u32_to_le_bytes(f.5));
    assert(bytes.subrange(28, 32) =~= spec_u32_to_le_bytes(f.6));
    match req {
        VmRequest::BalloonAdjust(pages) => {
            assert(pages as u32 as i32 == pages) by (bit_vector);
        },
        _ => {},
    }
}

/// One plane of a GPU buffer.
#[derive(Clone, Copy, Debug, PartialEq, Eq, Structural)]
pub struct GpuMemoryPlaneDesc {
    pub stride: u32,
    pub offset: u32,
}

/// The layout of an allocated GPU buffer, up to three planes.
#[derive(Clone, Copy, Debug, PartialEq, Eq, Structural)]
pub struct GpuMemoryDesc {
    pub plane0: GpuMemoryPlaneDesc,
    pub plane1: GpuMemoryPlaneDesc,
    pub plane2: GpuMemoryPlaneDesc,
}

/// Indication of success or failure of a `VmRequest`. Where a response
/// hands back a file descriptor, the descriptor travels out of band.
#[derive(Clone, Copy, Debug, PartialEq, Eq, Structural)]
pub enum VmResponse {
    /// The request was executed successfully.
    Success,
    /// The request failed with an operating-system error.
    Failed(SysError),
    /// Memory was registered at page frame number `pfn` in slot `slot`.
    RegisterMemory { pfn: u64, slot: u32 },
    /// A GPU buffer, whose descriptor accompanies the response, was
    /// allocated and registered.
    AllocateAndRegisterGpuMemory { pfn: u64, slot: u32, desc: GpuMemoryDesc },
}

pub const VM_RESPONSE_TYPE_OK: u32 = 1;

pub const VM_RESPONSE_TYPE_ERR: u32 = 2;

pub const VM_RESPONSE_TYPE_REGISTER_MEMORY: u32 = 3;

pub const VM_RESPONSE_TYPE_ALLOCATE_AND_REGISTER_GPU_MEMORY: u32 = 4;

/// Size in bytes of an encoded response.
pub const VM_RESPONSE_SIZE: usize = 48;

/// The errno value put on the wire for `e`: its absolute value, or
/// `ERANGE_ERRNO` when the absolute value does not exist.
pub open spec fn spec_errno_wire(e: SysError) -> u32 {
    if e.errno == i32::MIN {
        ERANGE_ERRNO
    } else if e.errno < 0 {
        (-e.errno) as u32
    } else {
        e.errno as u32
    }
}

/// The fields of the response wire structure: `(type, errno, pfn, slot,
/// stride0, stride1, stride2, offset0, offset1, offset2, sends_fd)`.
pub open spec fn spec_response_fields(resp: VmResponse) -> (
    u32,
    u32,
    u64,
    u32,
    u32,
    u32,
    u32,
    u32,
    u32,
    u32,
    bool,
) {
    match resp {
        VmResponse::Success => (
            VM_RESPONSE_TYPE_OK,
            0u32,
            0u64,
            0u32,
            0u32,
            0u32,
            0u32,
            0u32,
            0u32,
            0u32,
            false,
        ),
        VmResponse::Failed(e) => (
            VM_RESPONSE_TYPE_ERR,
            spec_errno_wire(e),
            0u64,
            0u32,
            0u32,
            0u32,
            0u32,
            0u32,
            0u32,
            0u32,
            false,
        ),
        VmResponse::RegisterMemory { pfn, slot } => (
            VM_RESPONSE_TYPE_REGISTER_MEMORY,
            0u32,
            pfn,
            slot,
            0u32,
            0u32,
            0u32,
            0u32,
            0u32,
            0u32,
            false,
        ),
        VmResponse::AllocateAndRegisterGpuMemory { pfn, slot, desc } => (
            VM_RESPONSE_TYPE_ALLOCATE_AND_REGISTER_GPU_MEMORY,
            0u32,
            pfn,
            slot,
            desc.plane0.stride,
            desc.plane1.stride,
            desc.plane2.stride,
            desc.plane0.offset,
            desc.plane1.offset,
            desc.plane2.offset,
            true,
        ),
    }
}

/// The wire bytes of the response fields, padded to `VM_RESPONSE_SIZE`.
pub open spec fn spec_response_bytes(
    t: u32,
    errno: u32,
    pfn: u64,
    slot: u32,
    stride0: u32,
    stride1: u32,
    stride2: u32,
    offset0: u32,
    offset1: u32,
    offset2: u32,
) -> Seq<u8> {
    spec_u32_to_le_bytes(t) + spec_u32_to_le_bytes(errno) + spec_u64_to_le_bytes(pfn)
        + spec_u32_to_le_bytes(slot) + spec_u32_to_le_bytes(stride0) + spec_u32_to_le_bytes(stride1)
        + spec_u32_to_le_bytes(stride2) + spec_u32_to_le_bytes(offset0) + spec_u32_to_le_bytes(
        offset1,
    ) + spec_u32_to_le_bytes(offset2) + seq![0u8, 0u8, 0u8, 0u8]
}

/// The response a received buffer decodes to, or the error it is rejected
/// with.
pub open spec fn spec_decode_response(buf: Seq<u8>, has_fd: bool) -> Result<
    VmResponse,
    VmControlError,
> {
    if buf.len() != VM_RESPONSE_SIZE {
        Err(VmControlError::BadSize(buf.len() as usize))
    } else {
        let t = spec_u32_from_le_bytes(buf.subrange(0, 4));
        if t == VM_RESPONSE_TYPE_OK {
            Ok(VmResponse::Success)
        } else if t == VM_RESPONSE_TYPE_ERR {
            Ok(
                VmResponse::Failed(
                    SysError { errno: spec_u32_from_le_bytes(buf.subrange(4, 8)) as i32 },
                ),
            )
        } else if t == VM_RESPONSE_TYPE_REGISTER_MEMORY {
            Ok(
                VmResponse::RegisterMemory {
                    pfn: spec_u64_from_le_bytes(buf.subrange(8, 16)),
                    slot: spec_u32_from_le_bytes(buf.subrange(16, 20)),
                },
            )
        } else if t == VM_RESPONSE_TYPE_ALLOCATE_AND_REGISTER_GPU_MEMORY {
            if has_fd {
                Ok(
                    VmResponse::AllocateAndRegisterGpuMemory {
                        pfn: spec_u64_from_le_bytes(buf.subrange(8, 16)),
                        slot: spec_u32_from_le_bytes(buf.subrange(16, 20)),
                        desc: GpuMemoryDesc {
                            plane0: GpuMemoryPlaneDesc {
                                stride: spec_u32_from_le_bytes(buf.subrange(20, 24)),
                                offset: spec_u32_from_le_bytes(buf.subrange(32, 36)),
                            },
                            plane1: GpuMemoryPlaneDesc {
                                stride: spec_u32_from_le_bytes(buf.subrange(24, 28)),
                                offset: spec_u32_from_le_bytes(buf.subrange(36, 40)),
                            },
                            plane2: GpuMemoryPlaneDesc {
                                stride: spec_u32_from_le_bytes(buf.subrange(28, 32)),
                                offset: spec_u32_from_le_bytes(buf.subrange(40, 44)),
                            },
                        },
                    },
                )
            } else {
                Err(VmControlError::ExpectFd)
            }
        } else {
            Err(VmControlError::InvalidType)
        }
    }
}

impl VmResponse {
    /// Encodes this response into its wire bytes, also telling whether a
    /// file descriptor must accompany it.
    pub fn encode(&self) -> (r: (Vec<u8>, bool))
        ensures
            ({
                let f = spec_response_fields(*self);
                &&& r.0@ == spec_response_bytes(
                    f.0,
                    f.1,
                    f.2,
                    f.3,
                    f.4,
                    f.5,
                    f.6,
                    f.7,
                    f.8,
                    f.9,
                )
                &&& r.0@.len() == VM_RESPONSE_SIZE
                &&& r.1 == f.10
            }),
    {
        let mut t: u32 = 0;
        let mut errno: u32 = 0;
        let mut pfn: u64 = 0;
        let mut slot: u32 = 0;
        let mut stride0: u32 = 0;
        let mut stride1: u32 = 0;
        let mut stride2: u32 = 0;
        let mut offset0: u32 = 0;
        let mut offset1: u32 = 0;
        let mut offset2: u32 = 0;
        let mut sends_fd = false;
        match self {
            VmResponse::Success => {
                t = VM_RESPONSE_TYPE_OK;
            },
            VmResponse::Failed(e) => {
                t = VM_RESPONSE_TYPE_ERR;
                let en = e.errno();
                errno = if en == i32::MIN {
                    ERANGE_ERRNO
                } else if en < 0 {
                    (-en) as u32
                } else {
                    en as u32
                };
            },
            VmResponse::RegisterMemory { pfn: p, slot: s } => {
                t = VM_RESPONSE_TYPE_REGISTER_MEMORY;
                pfn = *p;
                slot = *s;
            },
            VmResponse::AllocateAndRegisterGpuMemory { pfn: p, slot: s, desc } => {
                t = VM_RESPONSE_TYPE_ALLOCATE_AND_REGISTER_GPU_MEMORY;
                pfn = *p;
                slot = *s;
                stride0 = desc.plane0.stride;
                stride1 = desc.plane1.stride;
                stride2 = desc.plane2.stride;
                offset0 = desc.plane0.offset;
                offset1 = desc.plane1.offset;
                offset2 = desc.plane2.offset;
                sends_fd = true;
            },
        }
        let mut out: Vec<u8> = Vec::new();
        let mut b = u32_to_le_bytes(t);
        out.append(&mut b);
        let mut b = u32_to_le_bytes(errno);
        out.append(&mut b);
        let mut b = u64_to_le_bytes(pfn);
        out.append(&mut b);
        let mut b = u32_to_le_bytes(slot);
        out.append(&mut b);
        let mut b = u32_to_le_bytes(stride0);
        out.append(&mut b);
        let mut b = u32_to_le_bytes(stride1);
        out.append(&mut b);
        let mut b = u32_to_le_bytes(stride2);
        out.append(&mut b);
        let mut b = u32_to_le_bytes(offset0);
        out.append(&mut b);
        let mut b = u32_to_le_bytes(offset1);
        out.append(&mut b);
        let mut b = u32_to_le_bytes(offset2);
        out.append(&mut b);
        out.push(0);
        out.push(0);
        out.push(0);
        out.push(0);
        proof {
            vstd::bytes::lemma_auto_spec_u32_to_from_le_bytes();
            vstd::bytes::lemma_auto_spec_u64_to_from_le_bytes();
            assert(out@ =~= spec_response_bytes(
                t,
                errno,
                pfn,
                slot,
                stride0,
                stride1,
                stride2,
                offset0,
                offset1,
                offset2,
            ));
        }
        (out, sends_fd)
    }

    /// Decodes a received buffer into a response; `has_fd` tells whether a
    /// file descriptor accompanied it.
    pub fn decode(buf: &[u8], has_fd: bool) -> (r: Result<VmResponse, VmControlError>)
        ensures
            r == spec_decode_response(buf@, has_fd),
    {
        if buf.len() != VM_RESPONSE_SIZE {
            return Err(VmControlError::BadSize(buf.len()));
        }
        let t = u32_from_le_bytes(slice_subrange(buf, 0, 4));
        if t == VM_RESPONSE_TYPE_OK {
            Ok(VmResponse::Success)
        } else if t == VM_RESPONSE_TYPE_ERR {
            let e = u32_from_le_bytes(slice_subrange(buf, 4, 8));
            Ok(VmResponse::Failed(SysError { errno: #[verifier::truncate] (e as i32) }))
        } else if t == VM_RESPONSE_TYPE_REGISTER_MEMORY {
            Ok(
                VmResponse::RegisterMemory {
                    pfn: u64_from_le_bytes(slice_subrange(buf, 8, 16)),
                    slot: u32_from_le_bytes(slice_subrange(buf, 16, 20)),
                },
            )
        } else if t == VM_RESPONSE_TYPE_ALLOCATE_AND_REGISTER_GPU_MEMORY {
            if has_fd {
                Ok(
                    VmResponse::AllocateAndRegisterGpuMemory {
                        pfn: u64_from_le_bytes(slice_subrange(buf, 8, 16)),
                        slot: u32_from_le_bytes(slice_subrange(buf, 16, 20)),
                        desc: GpuMemoryDesc {
                            plane0: GpuMemoryPlaneDesc {
                                stride: u32_from_le_bytes(slice_subrange(buf, 20, 24)),
                                offset: u32_from_le_bytes(slice_subrange(buf, 32, 36)),
                            },
                            plane1: GpuMemoryPlaneDesc {
                                stride: u32_from_le_bytes(slice_subrange(buf, 24, 28)),
                                offset: u32_from_le_bytes(slice_subrange(buf, 36, 40)),
                            },
                            plane2: GpuMemoryPlaneDesc {
                                stride: u32_from_le_bytes(slice_subrange(buf, 28, 32)),
                                offset: u32_from_le_bytes(slice_subrange(buf, 40, 44)),
                            },
                        },
                    },
                )
            } else {
                Err(VmControlError::ExpectFd)
            }
        } else {
            Err(VmControlError::InvalidType)
        }
    }
}

/// An encoded response decodes back to the response itself, when a
/// descriptor accompanies it where required — up to the one lossy field:
/// an error's errno comes back as the non-negative wire value.
pub proof fn lemma_response_round_trip(resp: VmResponse, bytes: Seq<u8>, sends_fd: bool)
    requires
        ({
            let f = spec_response_fields(resp);
            bytes == spec_response_bytes(f.0, f.1, f.2, f.3, f.4, f.5, f.6, f.7, f.8, f.9)
                && sends_fd == f.10
        }),
        !(resp matches VmResponse::Failed(_)),
    ensures
        spec_decode_response(bytes, sends_fd) == Ok::<VmResponse, VmControlError>(resp),
{
    vstd::bytes::lemma_auto_spec_u32_to_from_le_bytes();
    vstd::bytes::lemma_auto_spec_u64_to_from_le_bytes();
    let f = spec_response_fields(resp);
    assert(bytes.subrange(0, 4) =~= spec_u32_to_le_bytes(f.0));
    assert(bytes.subrange(4, 8) =~= spec_u32_to_le_bytes(f.1));
    assert(bytes.subrange(8, 16) =~= spec_u64_to_le_bytes(f.2));
    assert(bytes.subrange(16, 20) =~= spec_u32_to_le_bytes(f.3));
    assert(bytes.subrange(20, 24) =~= spec_u32_to_le_bytes(f.4));
    assert(bytes.subrange(24, 28) =~= spec_u32_to_le_bytes(f.5));
    assert(bytes.subrange(28, 32) =~= spec_u32_to_le_bytes(f.6));
    assert(bytes.subrange(32, 36) =~= spec_u32_to_le_bytes(f.7));
    assert(bytes.subrange(36, 40) =~= spec_u32_to_le_bytes(f.8));
    assert(bytes.subrange(40, 44) =~= spec_u32_to_le_bytes(f.9));
}

} // verus!
