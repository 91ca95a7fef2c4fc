//! The virtio block back-end: request parsing against untrusted guest
//! memory, request execution on a disk image, the per-queue worker step,
//! the device-specific configuration blob, and feature negotiation.

use vstd::prelude::*;
use vstd::slice::slice_subrange;
use vstd::bytes::u16_to_le_bytes;
use vstd::bytes::u32_to_le_bytes;
use vstd::bytes::u64_to_le_bytes;
use vstd::bytes::u32_from_le_bytes;
use vstd::bytes::u64_from_le_bytes;
use vstd::bytes::spec_u16_to_le_bytes;
use vstd::bytes::spec_u32_to_le_bytes;
use vstd::bytes::spec_u64_to_le_bytes;
use vstd::bytes::lemma_auto_spec_u16_to_from_le_bytes;
use vstd::bytes::lemma_auto_spec_u32_to_from_le_bytes;
use vstd::bytes::lemma_auto_spec_u64_to_from_le_bytes;
use crate::bytes_model::overwrite;
use crate::bytes_model::lemma_overwrite_read_back;
use crate::disk::DiskError;
use crate::disk::DiskFile;
use crate::guest_mem::GuestAddress;
use crate::guest_mem::GuestMemory;
use crate::guest_mem::GuestMemoryError;
use crate::queue::DescriptorChain;
use crate::queue::Queue;
use crate::queue::spec_publish_entries;
use crate::queue::spec_used_advanced;
use crate::virtio::spec_read_window;
use crate::virtio::VirtioDevice;
use crate::virtio::TYPE_BLOCK;

verus! {

/// Number of descriptors of the one queue of a block device.
pub const QUEUE_SIZE: u16 = 256;

/// Bytes per sector.
pub const SECTOR_SIZE: u64 = 512;

/// Seconds after an unflushed write until the deferred flush fires.
pub const FLUSH_DELAY_SECS: u64 = 60;

pub const VIRTIO_BLK_T_IN: u32 = 0;

pub const VIRTIO_BLK_T_OUT: u32 = 1;

pub const VIRTIO_BLK_T_FLUSH: u32 = 4;

pub const VIRTIO_BLK_T_DISCARD: u32 = 11;

pub const VIRTIO_BLK_T_WRITE_ZEROES: u32 = 13;

pub const VIRTIO_BLK_S_OK: u8 = 0;

pub const VIRTIO_BLK_S_IOERR: u8 = 1;

pub const VIRTIO_BLK_S_UNSUPP: u8 = 2;

/// Feature bit: device is read-only.
pub const VIRTIO_BLK_F_RO: u64 = 5;

/// Feature bit: device supports flush.
pub const VIRTIO_BLK_F_FLUSH: u64 = 9;

/// Feature bit: device supports discard.
pub const VIRTIO_BLK_F_DISCARD: u64 = 13;

/// Feature bit: device supports write-zeroes.
pub const VIRTIO_BLK_F_WRITE_ZEROES: u64 = 14;

pub const MAX_DISCARD_SECTORS: u32 = 0xffff_ffff;

pub const MAX_WRITE_ZEROES_SECTORS: u32 = 0xffff_ffff;

pub const DISCARD_SECTOR_ALIGNMENT: u32 = 128;

/// The only flag a write-zeroes segment may carry.
pub const VIRTIO_BLK_DISCARD_WRITE_ZEROES_FLAG_UNMAP: u32 = 1;

/// Length in bytes of the serialized configuration blob.
pub const CONFIG_SPACE_LEN: u64 = 60;

/// Disk geometry advertised to the guest.
#[derive(Clone, Copy, Debug, PartialEq, Eq, Structural)]
pub struct VirtioBlkGeometry {
    pub cylinders: u16,
    pub heads: u8,
    pub sectors: u8,
}

/// I/O topology advertised to the guest.
#[derive(Clone, Copy, Debug, PartialEq, Eq, Structural)]
pub struct VirtioBlkTopology {
    pub physical_block_exp: u8,
    pub alignment_offset: u8,
    pub min_io_size: u16,
    pub opt_io_size: u32,
}

/// The device-specific configuration blob of a block device.
#[derive(Clone, Copy, Debug, PartialEq, Eq, Structural)]
pub struct VirtioBlkConfig {
    pub capacity: u64,
    pub size_max: u32,
    pub seg_max: u32,
    pub geometry: VirtioBlkGeometry,
    pub blk_size: u32,
    pub topology: VirtioBlkTopology,
    pub writeback: u8,
    pub max_discard_sectors: u32,
    pub max_discard_seg: u32,
    pub discard_sector_alignment: u32,
    pub max_write_zeroes_sectors: u32,
    pub max_write_zeroes_seg: u32,
    pub write_zeroes_may_unmap: u8,
}

/// The little-endian, packed serialization of the configuration blob, as the
/// guest sees it through the device-specific window.
pub open spec fn spec_config_space_bytes(c: VirtioBlkConfig) -> Seq<u8> {
    spec_u64_to_le_bytes(c.capacity) + spec_u32_to_le_bytes(c.size_max) + spec_u32_to_le_bytes(
        c.seg_max,
    ) + spec_u16_to_le_bytes(c.geometry.cylinders) + seq![c.geometry.heads]
        + seq![c.geometry.sectors] + spec_u32_to_le_bytes(c.blk_size)
        + seq![c.topology.physical_block_exp] + seq![c.topology.alignment_offset]
        + spec_u16_to_le_bytes(c.topology.min_io_size) + spec_u32_to_le_bytes(
        c.topology.opt_io_size,
    ) + seq![c.writeback] + seq![0u8, 0u8, 0u8] + spec_u32_to_le_bytes(c.max_discard_sectors)
        + spec_u32_to_le_bytes(c.max_discard_seg) + spec_u32_to_le_bytes(c.discard_sector_alignment)
        + spec_u32_to_le_bytes(c.max_write_zeroes_sectors) + spec_u32_to_le_bytes(
        c.max_write_zeroes_seg,
    ) + seq![c.write_zeroes_may_unmap] + seq![0u8, 0u8, 0u8]
}

/// Serializes the configuration blob.
pub fn config_space_to_bytes(c: &VirtioBlkConfig) -> (r: Vec<u8>)
    ensures
        r@ == spec_config_space_bytes(*c),
        r@.len() == CONFIG_SPACE_LEN,
{
    proof {
        lemma_auto_spec_u16_to_from_le_bytes();
        lemma_auto_spec_u32_to_from_le_bytes();
        lemma_auto_spec_u64_to_from_le_bytes();
    }
    let mut out: Vec<u8> = Vec::new();
    let mut t = u64_to_le_bytes(c.capacity);
    out.append(&mut t);
    let mut t = u32_to_le_bytes(c.size_max);
    out.append(&mut t);
    let mut t = u32_to_le_bytes(c.seg_max);
    out.append(&mut t);
    let mut t = u16_to_le_bytes(c.geometry.cylinders);
    out.append(&mut t);
    out.push(c.geometry.heads);
    out.push(c.geometry.sectors);
    let mut t = u32_to_le_bytes(c.blk_size);
    out.append(&mut t);
    out.push(c.topology.physical_block_exp);
    out.push(c.topology.alignment_offset);
    let mut t = u16_to_le_bytes(c.topology.min_io_size);
    out.append(&mut t);
    let mut t = u32_to_le_bytes(c.topology.opt_io_size);
    out.append(&mut t);
    out.push(c.writeback);
    out.push(0);
    out.push(0);
    out.push(0);
    let mut t = u32_to_le_bytes(c.max_discard_sectors);
    out.append(&mut t);
    let mut t = u32_to_le_bytes(c.max_discard_seg);
    out.append(&mut t);
    let mut t = u32_to_le_bytes(c.discard_sector_alignment);
    out.append(&mut t);
    let mut t = u32_to_le_bytes(c.max_write_zeroes_sectors);
    out.append(&mut t);
    let mut t = u32_to_le_bytes(c.max_write_zeroes_seg);
    out.append(&mut t);
    out.push(c.write_zeroes_may_unmap);
    out.push(0);
    out.push(0);
    out.push(0);
    proof {
        assert(out@ =~= spec_config_space_bytes(*c));
    }
    out
}

/// Round trip: reading any sub-range that lies inside the configuration
/// window returns exactly the corresponding serialized bytes.
pub proof fn lemma_read_config_round_trip(c: VirtioBlkConfig, offset: int, n: nat)
    requires
        0 <= offset,
        offset + n <= spec_config_space_bytes(c).len(),
    ensures
        spec_read_window(spec_config_space_bytes(c), offset, n) == spec_config_space_bytes(
            c,
        ).subrange(offset, offset + n),
{
    assert(spec_read_window(spec_config_space_bytes(c), offset, n) =~= spec_config_space_bytes(
        c,
    ).subrange(offset, offset + n));
}

/// The configuration blob a block device of `disk_size` bytes advertises:
/// the capacity in sectors (the tail of a file that is not a whole number
/// of sectors is not exposed) and the discard and write-zeroes limits.
pub open spec fn spec_build_config(disk_size: u64) -> VirtioBlkConfig {
    VirtioBlkConfig {
        capacity: disk_size / SECTOR_SIZE,
        size_max: 0,
        seg_max: 0,
        geometry: VirtioBlkGeometry { cylinders: 0, heads: 0, sectors: 0 },
        blk_size: 0,
        topology: VirtioBlkTopology {
            physical_block_exp: 0,
            alignment_offset: 0,
            min_io_size: 0,
            opt_io_size: 0,
        },
        writeback: 0,
        max_discard_sectors: MAX_DISCARD_SECTORS,
        max_discard_seg: 1,
        discard_sector_alignment: DISCARD_SECTOR_ALIGNMENT,
        max_write_zeroes_sectors: MAX_WRITE_ZEROES_SECTORS,
        max_write_zeroes_seg: 1,
        write_zeroes_may_unmap: 1,
    }
}

/// Builds the configuration blob for a disk of `disk_size` bytes.
pub fn build_config_space(disk_size: u64) -> (r: VirtioBlkConfig)
    ensures
        r == spec_build_config(disk_size),
{
    VirtioBlkConfig {
        capacity: disk_size / SECTOR_SIZE,
        size_max: 0,
        seg_max: 0,
        geometry: VirtioBlkGeometry { cylinders: 0, heads: 0, sectors: 0 },
        blk_size: 0,
        topology: VirtioBlkTopology {
            physical_block_exp: 0,
            alignment_offset: 0,
            min_io_size: 0,
            opt_io_size: 0,
        },
        writeback: 0,
        max_discard_sectors: MAX_DISCARD_SECTORS,
        max_discard_seg: 1,
        discard_sector_alignment: DISCARD_SECTOR_ALIGNMENT,
        max_write_zeroes_sectors: MAX_WRITE_ZEROES_SECTORS,
        max_write_zeroes_seg: 1,
        write_zeroes_may_unmap: 1,
    }
}

/// The kind of a block request, from the first word of its header.
#[derive(Clone, Copy, Debug, PartialEq, Eq, Structural)]
pub enum RequestType {
    In,
    Out,
    Flush,
    Discard,
    WriteZeroes,
    Unsupported(u32),
}

/// The request type encoded by the header word `t`.
pub open spec fn spec_request_type_of(t: u32) -> RequestType {
    if t == VIRTIO_BLK_T_IN {
        RequestType::In
    } else if t == VIRTIO_BLK_T_OUT {
        RequestType::Out
    } else if t == VIRTIO_BLK_T_FLUSH {
        RequestType::Flush
    } else if t == VIRTIO_BLK_T_DISCARD {
        RequestType::Discard
    } else if t == VIRTIO_BLK_T_WRITE_ZEROES {
        RequestType::WriteZeroes
    } else {
        RequestType::Unsupported(t)
    }
}

/// Why a descriptor chain failed to parse into a request. A parse error is
/// recovered locally: the chain completes with written length zero and guest
/// memory is left untouched.
#[derive(Clone, Copy, Debug, PartialEq, Eq, Structural)]
pub enum ParseError {
    /// The guest gave an address range outside guest memory.
    GuestMemory(GuestMemoryError),
    /// The guest gave an offset that would have overflowed an address.
    CheckedOffset(GuestAddress, u64),
    /// The guest gave a write-only descriptor where the protocol reads.
    UnexpectedWriteOnlyDescriptor,
    /// The guest gave a read-only descriptor where the protocol writes.
    UnexpectedReadOnlyDescriptor,
    /// The guest gave too few descriptors in the chain.
    DescriptorChainTooShort,
    /// The guest gave a descriptor too short to use.
    DescriptorLengthTooSmall,
}

/// Why an executed request failed. Each failure maps to a status byte.
#[derive(Clone, Copy, Debug, PartialEq, Eq, Structural)]
pub enum ExecuteError {
    /// Flushing the disk failed.
    Flush,
    /// Reading the disk into guest memory failed.
    Read { addr: GuestAddress, length: u32, sector: u64 },
    /// The request's sector does not fit the disk's address space.
    Seek { sector: u64 },
    /// Writing guest memory to the disk failed.
    Write { addr: GuestAddress, length: u32, sector: u64 },
    /// A discard or write-zeroes segment was invalid or failed.
    DiscardWriteZeroes { sector: u64, num_sectors: u32, flags: u32 },
    /// The request type is not supported.
    Unsupported(u32),
}

/// The status byte an execution failure reports.
pub open spec fn spec_status_of(e: ExecuteError) -> u8 {
    match e {
        ExecuteError::Unsupported(t) => VIRTIO_BLK_S_UNSUPP,
        _ => VIRTIO_BLK_S_IOERR,
    }
}

impl ExecuteError {
    /// The status byte this failure reports.
    pub fn status(&self) -> (r: u8)
        ensures
            r == spec_status_of(*self),
    {
        match self {
            ExecuteError::Unsupported(t) => VIRTIO_BLK_S_UNSUPP,
            _ => VIRTIO_BLK_S_IOERR,
        }
    }
}

/// The one segment of a discard or write-zeroes request.
#[derive(Clone, Copy, Debug, PartialEq, Eq, Structural)]
pub struct DiscardWriteZeroesSegment {
    pub sector: u64,
    pub num_sectors: u32,
    pub flags: u32,
}

/// Reads the request type from the first word of the header at `desc_addr`.
pub fn request_type(mem: &GuestMemory, desc_addr: GuestAddress) -> (r: Result<
    RequestType,
    ParseError,
>)
    requires
        mem.wf(),
    ensures
        r is Ok <==> mem.range_ok(desc_addr.0 as int, 4),
        match r {
            Ok(t) => t == spec_request_type_of(mem.u32_at(desc_addr.0 as int)),
            Err(e) => e == ParseError::GuestMemory(GuestMemoryError::InvalidGuestAddress(desc_addr)),
        },
{
    match mem.read_u32(desc_addr) {
        Ok(t) => {
            if t == VIRTIO_BLK_T_IN {
                Ok(RequestType::In)
            } else if t == VIRTIO_BLK_T_OUT {
                Ok(RequestType::Out)
            } else if t == VIRTIO_BLK_T_FLUSH {
                Ok(RequestType::Flush)
            } else if t == VIRTIO_BLK_T_DISCARD {
                Ok(RequestType::Discard)
            } else if t == VIRTIO_BLK_T_WRITE_ZEROES {
                Ok(RequestType::WriteZeroes)
            } else {
                Ok(RequestType::Unsupported(t))
            }
        },
        Err(e) => Err(ParseError::GuestMemory(e)),
    }
}

/// The sector field of the header at `desc_addr`, or the parse error the
/// read fails with.
pub open spec fn spec_sector(mem: GuestMemory, desc_addr: GuestAddress) -> Result<u64, ParseError> {
    if !(mem.spec_base() <= desc_addr.0 + 8 < mem.spec_base() + mem@.len()) {
        Err(ParseError::CheckedOffset(desc_addr, 8))
    } else if !mem.range_ok(desc_addr.0 + 8, 8) {
        Err(
            ParseError::GuestMemory(
                GuestMemoryError::InvalidGuestAddress(GuestAddress((desc_addr.0 + 8) as u64)),
            ),
        )
    } else {
        Ok(mem.u64_at(desc_addr.0 + 8))
    }
}

/// Reads the sector field (bytes 8..16) of the header at `desc_addr`.
pub fn sector(mem: &GuestMemory, desc_addr: GuestAddress) -> (r: Result<u64, ParseError>)
    requires
        mem.wf(),
    ensures
        r == spec_sector(*mem, desc_addr),
{
    let addr = match mem.checked_offset(desc_addr, 8) {
        Some(v) => v,
        None => {
            return Err(ParseError::CheckedOffset(desc_addr, 8));
        },
    };
    match mem.read_u64(addr) {
        Ok(v) => Ok(v),
        Err(e) => Err(ParseError::GuestMemory(e)),
    }
}

/// The discard or write-zeroes segment at `seg_addr`, or the parse error
/// the read fails with.
pub open spec fn spec_dwz_segment(mem: GuestMemory, seg_addr: GuestAddress) -> Result<
    DiscardWriteZeroesSegment,
    ParseError,
> {
    if !mem.range_ok(seg_addr.0 as int, 16) {
        Err(ParseError::GuestMemory(GuestMemoryError::InvalidGuestAddress(seg_addr)))
    } else {
        Ok(
            DiscardWriteZeroesSegment {
                sector: mem.u64_at(seg_addr.0 as int),
                num_sectors: mem.u32_at(seg_addr.0 + 8),
                flags: mem.u32_at(seg_addr.0 + 12),
            },
        )
    }
}

/// Reads a `{sector, num_sectors, flags}` segment at `seg_addr`.
pub fn discard_write_zeroes_segment(mem: &GuestMemory, seg_addr: GuestAddress) -> (r: Result<
    DiscardWriteZeroesSegment,
    ParseError,
>)
    requires
        mem.wf(),
    ensures
        r == spec_dwz_segment(*mem, seg_addr),
{
    match mem.read_bytes(seg_addr, 16) {
        Ok(block) => {
            let sect = u64_from_le_bytes(slice_subrange(block.as_slice(), 0, 8));
            let num_sectors = u32_from_le_bytes(slice_subrange(block.as_slice(), 8, 12));
            let flags = u32_from_le_bytes(slice_subrange(block.as_slice(), 12, 16));
            proof {
                let base = mem.idx_of(seg_addr.0 as int);
                assert(block@.subrange(0, 8) =~= mem@.subrange(base, base + 8));
                assert(block@.subrange(8, 12) =~= mem@.subrange(base + 8, base + 12));
                assert(block@.subrange(12, 16) =~= mem@.subrange(base + 12, base + 16));
            }
            Ok(DiscardWriteZeroesSegment { sector: sect, num_sectors, flags })
        },
        Err(e) => Err(ParseError::GuestMemory(e)),
    }
}

/// A parsed block request.
#[derive(Clone, Copy, Debug, PartialEq, Eq, Structural)]
pub struct Request {
    pub request_type: RequestType,
    pub sector: u64,
    pub data_addr: GuestAddress,
    pub data_len: u32,
    pub status_addr: GuestAddress,
    pub discard_write_zeroes_seg: Option<DiscardWriteZeroesSegment>,
}

/// Whether `c` links to a further descriptor that is itself well formed.
pub open spec fn spec_next_desc_ok(mem: GuestMemory, c: DescriptorChain) -> bool {
    &&& c.spec_has_next()
    &&& c.ttl >= 2
    &&& crate::queue::spec_desc_ok(mem, c.desc_table, c.queue_size, c.next)
}

/// The descriptor `c` links to.
pub open spec fn spec_next_desc(mem: GuestMemory, c: DescriptorChain) -> DescriptorChain {
    crate::queue::spec_desc_at(mem, c.desc_table, c.queue_size, c.next, (c.ttl - 1) as u16)
}

/// The parse of a flush chain `[head, status]`.
pub open spec fn spec_parse_flush(mem: GuestMemory, head: DescriptorChain) -> Result<
    Request,
    ParseError,
> {
    match spec_sector(mem, head.addr) {
        Err(e) => Err(e),
        Ok(sect) => {
            if !spec_next_desc_ok(mem, head) {
                Err(ParseError::DescriptorChainTooShort)
            } else {
                let status_desc = spec_next_desc(mem, head);
                if !status_desc.spec_write_only() {
                    Err(ParseError::UnexpectedReadOnlyDescriptor)
                } else if status_desc.len < 1 {
                    Err(ParseError::DescriptorLengthTooSmall)
                } else {
                    Ok(
                        Request {
                            request_type: RequestType::Flush,
                            sector: sect,
                            data_addr: GuestAddress(0),
                            data_len: 0,
                            status_addr: status_desc.addr,
                            discard_write_zeroes_seg: None,
                        },
                    )
                }
            }
        },
    }
}

/// The parse of a discard or write-zeroes chain `[head, seg, status]`.
pub open spec fn spec_parse_dwz(
    mem: GuestMemory,
    head: DescriptorChain,
    req_type: RequestType,
) -> Result<Request, ParseError> {
    if !spec_next_desc_ok(mem, head) {
        Err(ParseError::DescriptorChainTooShort)
    } else {
        let seg_desc = spec_next_desc(mem, head);
        if !spec_next_desc_ok(mem, seg_desc) {
            Err(ParseError::DescriptorChainTooShort)
        } else {
            let status_desc = spec_next_desc(mem, seg_desc);
            if seg_desc.spec_write_only() {
                Err(ParseError::UnexpectedWriteOnlyDescriptor)
            } else if seg_desc.len < 16 {
                Err(ParseError::DescriptorLengthTooSmall)
            } else {
                match spec_dwz_segment(mem, seg_desc.addr) {
                    Err(e) => Err(e),
                    Ok(seg) => {
                        if !status_desc.spec_write_only() {
                            Err(ParseError::UnexpectedReadOnlyDescriptor)
                        } else if status_desc.len < 1 {
                            Err(ParseError::DescriptorLengthTooSmall)
                        } else {
                            Ok(
                                Request {
                                    request_type: req_type,
                                    sector: 0,
                                    data_addr: GuestAddress(0),
                                    data_len: 0,
                                    status_addr: status_desc.addr,
                                    discard_write_zeroes_seg: Some(seg),
                                },
                            )
                        }
                    },
                }
            }
        }
    }
}

/// The parse of a read, write or unsupported chain `[head, data, status]`.
pub open spec fn spec_parse_read_write(
    mem: GuestMemory,
    head: DescriptorChain,
    req_type: RequestType,
) -> Result<Request, ParseError> {
    match spec_sector(mem, head.addr) {
        Err(e) => Err(e),
        Ok(sect) => {
            if !spec_next_desc_ok(mem, head) {
                Err(ParseError::DescriptorChainTooShort)
            } else {
                let data_desc = spec_next_desc(mem, head);
                if !spec_next_desc_ok(mem, data_desc) {
                    Err(ParseError::DescriptorChainTooShort)
                } else {
                    let status_desc = spec_next_desc(mem, data_desc);
                    if data_desc.spec_write_only() && req_type == RequestType::Out {
                        Err(ParseError::UnexpectedWriteOnlyDescriptor)
                    } else if !data_desc.spec_write_only() && req_type == RequestType::In {
                        Err(ParseError::UnexpectedReadOnlyDescriptor)
                    } else if !status_desc.spec_write_only() {
                        Err(ParseError::UnexpectedReadOnlyDescriptor)
                    } else if status_desc.len < 1 {
                        Err(ParseError::DescriptorLengthTooSmall)
                    } else {
                        Ok(
                            Request {
                                request_type: req_type,
                                sector: sect,
                                data_addr: data_desc.addr,
                                data_len: data_desc.len,
                                status_addr: status_desc.addr,
                                discard_write_zeroes_seg: None,
                            },
                        )
                    }
                }
            }
        },
    }
}

/// The parse of the chain headed by `head`: the head must be readable, its
/// first word selects the shape of the rest.
pub open spec fn spec_parse(mem: GuestMemory, head: DescriptorChain) -> Result<
    Request,
    ParseError,
> {
    if head.spec_write_only() {
        Err(ParseError::UnexpectedWriteOnlyDescriptor)
    } else if !mem.range_ok(head.addr.0 as int, 4) {
        Err(ParseError::GuestMemory(GuestMemoryError::InvalidGuestAddress(head.addr)))
    } else {
        let t = spec_request_type_of(mem.u32_at(head.addr.0 as int));
        if t == RequestType::Flush {
            spec_parse_flush(mem, head)
        } else if t == RequestType::Discard || t == RequestType::WriteZeroes {
            spec_parse_dwz(mem, head, t)
        } else {
            spec_parse_read_write(mem, head, t)
        }
    }
}

impl Request {
    /// Parses the descriptor chain headed by `avail_desc` into a request.
    /// On any violation the error is reported and guest memory is untouched.
    pub fn parse(avail_desc: &DescriptorChain, mem: &GuestMemory) -> (r: Result<
        Request,
        ParseError,
    >)
        requires
            mem.wf(),
            avail_desc.wf_for(*mem),
        ensures
            r == spec_parse(*mem, *avail_desc),
            match r {
                Ok(req) => {
                    &&& mem.range_ok(req.status_addr.0 as int, 1)
                    &&& ((req.request_type == RequestType::In || req.request_type
                        == RequestType::Out || req.request_type matches RequestType::Unsupported(_))
                        ==> mem.range_ok(req.data_addr.0 as int, req.data_len as int))
                },
                Err(e) => true,
            },
    {
        if avail_desc.is_write_only() {
            return Err(ParseError::UnexpectedWriteOnlyDescriptor);
        }
        let req_type = match request_type(mem, avail_desc.addr) {
            Ok(t) => t,
            Err(e) => {
                return Err(e);
            },
        };
        if req_type == RequestType::Flush {
            Request::parse_flush(avail_desc, mem)
        } else if req_type == RequestType::Discard || req_type == RequestType::WriteZeroes {
            Request::parse_discard_write_zeroes(avail_desc, mem, req_type)
        } else {
            Request::parse_read_write(avail_desc, mem, req_type)
        }
    }

    fn parse_flush(avail_desc: &DescriptorChain, mem: &GuestMemory) -> (r: Result<
        Request,
        ParseError,
    >)
        requires
            mem.wf(),
            avail_desc.wf_for(*mem),
        ensures
            r == spec_parse_flush(*mem, *avail_desc),
            match r {
                Ok(req) => mem.range_ok(req.status_addr.0 as int, 1),
                Err(e) => true,
            },
    {
        let sect = match sector(mem, avail_desc.addr) {
            Ok(s) => s,
            Err(e) => {
                return Err(e);
            },
        };
        let status_desc = match avail_desc.next_descriptor(mem) {
            Some(d) => d,
            None => {
                return Err(ParseError::DescriptorChainTooShort);
            },
        };
        if !status_desc.is_write_only() {
            return Err(ParseError::UnexpectedReadOnlyDescriptor);
        }
        if status_desc.len < 1 {
            return Err(ParseError::DescriptorLengthTooSmall);
        }
        Ok(
            Request {
                request_type: RequestType::Flush,
                sector: sect,
                data_addr: GuestAddress(0),
                data_len: 0,
                status_addr: status_desc.addr,
                discard_write_zeroes_seg: None,
            },
        )
    }

    fn parse_discard_write_zeroes(
        avail_desc: &DescriptorChain,
        mem: &GuestMemory,
        req_type: RequestType,
    ) -> (r: Result<Request, ParseError>)
        requires
            mem.wf(),
            avail_desc.wf_for(*mem),
        ensures
            r == spec_parse_dwz(*mem, *avail_desc, req_type),
            match r {
                Ok(req) => mem.range_ok(req.status_addr.0 as int, 1),
                Err(e) => true,
            },
    {
        let seg_desc = match avail_desc.next_descriptor(mem) {
            Some(d) => d,
            None => {
                return Err(ParseError::DescriptorChainTooShort);
            },
        };
        let status_desc = match seg_desc.next_descriptor(mem) {
            Some(d) => d,
            None => {
                return Err(ParseError::DescriptorChainTooShort);
            },
        };
        if seg_desc.is_write_only() {
            return Err(ParseError::UnexpectedWriteOnlyDescriptor);
        }
        if seg_desc.len < 16 {
            return Err(ParseError::DescriptorLengthTooSmall);
        }
        let seg = match discard_write_zeroes_segment(mem, seg_desc.addr) {
            Ok(s) => s,
            Err(e) => {
                return Err(e);
            },
        };
        if !status_desc.is_write_only() {
            return Err(ParseError::UnexpectedReadOnlyDescriptor);
        }
        if status_desc.len < 1 {
            return Err(ParseError::DescriptorLengthTooSmall);
        }
        Ok(
            Request {
                request_type: req_type,
                sector: 0,
                data_addr: GuestAddress(0),
                data_len: 0,
                status_addr: status_desc.addr,
                discard_write_zeroes_seg: Some(seg),
            },
        )
    }

    fn parse_read_write(
        avail_desc: &DescriptorChain,
        mem: &GuestMemory,
        req_type: RequestType,
    ) -> (r: Result<Request, ParseError>)
        requires
            mem.wf(),
            avail_desc.wf_for(*mem),
        ensures
            r == spec_parse_read_write(*mem, *avail_desc, req_type),
            match r {
                Ok(req) => {
                    &&& mem.range_ok(req.status_addr.0 as int, 1)
                    &&& mem.range_ok(req.data_addr.0 as int, req.data_len as int)
                },
                Err(e) => true,
            },
    {
        let sect = match sector(mem, avail_desc.addr) {
            Ok(s) => s,
            Err(e) => {
                return Err(e);
            },
        };
        let data_desc = match avail_desc.next_descriptor(mem) {
            Some(d) => d,
            None => {
                return Err(ParseError::DescriptorChainTooShort);
            },
        };
        let status_desc = match data_desc.next_descriptor(mem) {
            Some(d) => d,
            None => {
                return Err(ParseError::DescriptorChainTooShort);
            },
        };
        if data_desc.is_write_only() && req_type == RequestType::Out {
            return Err(ParseError::UnexpectedWriteOnlyDescriptor);
        }
        if !data_desc.is_write_only() && req_type == RequestType::In {
            return Err(ParseError::UnexpectedReadOnlyDescriptor);
        }
        if !status_desc.is_write_only() {
            return Err(ParseError::UnexpectedReadOnlyDescriptor);
        }
        if status_desc.len < 1 {
            return Err(ParseError::DescriptorLengthTooSmall);
        }
        Ok(
            Request {
                request_type: req_type,
                sector: sect,
                data_addr: data_desc.addr,
                data_len: data_desc.len,
                status_addr: status_desc.addr,
                discard_write_zeroes_seg: None,
            },
        )
    }
}

/// Deferred-flush timer state: armed after an unflushed write, cleared by a
/// flush. The embedding program maps this onto a real one-shot timer of
/// `FLUSH_DELAY_SECS`.
#[derive(Clone, Copy, Debug, PartialEq, Eq, Structural)]
pub struct FlushTimer {
    pub armed: bool,
}

/// The disk contents after a successful discard or write-zeroes request.
pub open spec fn spec_dwz_ok_contents(req: Request, disk0: Seq<u8>, disk1: Seq<u8>) -> bool {
    match req.discard_write_zeroes_seg {
        None => disk1 == disk0,
        Some(seg) => {
            &&& seg.sector * 512 + seg.num_sectors * 512 <= disk0.len()
            &&& disk1 == overwrite(
                disk0,
                seg.sector * 512,
                Seq::new((seg.num_sectors * 512) as nat, |i: int| 0u8),
            )
        },
    }
}

impl Request {
    /// Executes this request on `disk` and guest memory.
    ///
    /// On success the returned value is the length to report to the used
    /// ring: the data length for an IN request, one (the status byte) for
    /// everything else.
    pub fn execute<T: DiskFile>(
        &self,
        disk: &mut T,
        flush_timer: &mut FlushTimer,
        mem: &mut GuestMemory,
    ) -> (r: Result<u32, ExecuteError>)
        requires
            old(mem).wf(),
            old(disk).inv(),
        ensures
            final(mem).wf(),
            final(mem).spec_base() == old(mem).spec_base(),
            final(mem)@.len() == old(mem)@.len(),
            final(disk).inv(),
            final(disk).contents().len() == old(disk).contents().len(),
            match self.request_type {
                RequestType::In => {
                    &&& final(disk).contents() == old(disk).contents()
                    &&& match r {
                        Ok(n) => {
                            &&& n == self.data_len
                            &&& self.sector * 512 + self.data_len <= old(disk).contents().len()
                            &&& old(mem).range_ok(self.data_addr.0 as int, self.data_len as int)
                            &&& final(mem)@ == overwrite(
                                old(mem)@,
                                old(mem).idx_of(self.data_addr.0 as int),
                                old(disk).contents().subrange(
                                    self.sector * 512,
                                    self.sector * 512 + self.data_len,
                                ),
                            )
                            &&& *final(flush_timer) == *old(flush_timer)
                        },
                        Err(e) => {
                            &&& final(mem)@ == old(mem)@
                            &&& *final(flush_timer) == *old(flush_timer)
                            &&& ((e matches ExecuteError::Seek { .. }) || (
                            e matches ExecuteError::Read { .. }))
                        },
                    }
                },
                RequestType::Out => {
                    &&& final(mem)@ == old(mem)@
                    &&& match r {
                        Ok(n) => {
                            &&& n == 1
                            &&& self.sector * 512 + self.data_len <= old(disk).contents().len()
                            &&& old(mem).range_ok(self.data_addr.0 as int, self.data_len as int)
                            &&& final(disk).contents() == overwrite(
                                old(disk).contents(),
                                self.sector * 512,
                                old(mem)@.subrange(
                                    old(mem).idx_of(self.data_addr.0 as int),
                                    old(mem).idx_of(self.data_addr.0 as int) + self.data_len,
                                ),
                            )
                            &&& final(flush_timer).armed
                        },
                        Err(e) => {
                            &&& *final(flush_timer) == *old(flush_timer)
                            &&& ((e matches ExecuteError::Seek { .. }) || (
                            e matches ExecuteError::Write { .. }))
                        },
                    }
                },
                RequestType::Flush => {
                    &&& final(disk).contents() == old(disk).contents()
                    &&& final(mem)@ == old(mem)@
                    &&& match r {
                        Ok(n) => n == 1 && !final(flush_timer).armed,
                        Err(e) => *final(flush_timer) == *old(flush_timer) && e
                            == ExecuteError::Flush,
                    }
                },
                RequestType::Discard | RequestType::WriteZeroes => {
                    &&& final(mem)@ == old(mem)@
                    &&& *final(flush_timer) == *old(flush_timer)
                    &&& match r {
                        Ok(n) => {
                            &&& n == 1
                            &&& spec_dwz_ok_contents(*self, old(disk).contents(), final(disk).contents())
                            &&& match self.discard_write_zeroes_seg {
                                None => true,
                                Some(seg) => seg.flags & !(if self.request_type
                                    == RequestType::WriteZeroes {
                                    VIRTIO_BLK_DISCARD_WRITE_ZEROES_FLAG_UNMAP
                                } else {
                                    0u32
                                }) == 0,
                            }
                        },
                        Err(e) => {
                            &&& ((e matches ExecuteError::Seek { .. }) || (
                            e matches ExecuteError::DiscardWriteZeroes { .. }))
                            &&& match self.discard_write_zeroes_seg {
                                None => false,
                                Some(seg) => {
                                    let valid_flags = if self.request_type
                                        == RequestType::WriteZeroes {
                                        VIRTIO_BLK_DISCARD_WRITE_ZEROES_FLAG_UNMAP
                                    } else {
                                        0u32
                                    };
                                    seg.flags & !valid_flags != 0 ==> {
                                        &&& final(disk).contents() == old(disk).contents()
                                        &&& e == (ExecuteError::DiscardWriteZeroes {
                                            sector: seg.sector,
                                            num_sectors: seg.num_sectors,
                                            flags: seg.flags,
                                        })
                                    }
                                },
                            }
                        },
                    }
                },
                RequestType::Unsupported(t) => {
                    &&& final(mem)@ == old(mem)@
                    &&& final(disk).contents() == old(disk).contents()
                    &&& *final(flush_timer) == *old(flush_timer)
                    &&& r == Err::<u32, ExecuteError>(ExecuteError::Unsupported(t))
                },
            },
    {
        match self.request_type {
            RequestType::In => {
                if self.sector > u64::MAX / 512 {
                    return Err(ExecuteError::Seek { sector: self.sector });
                }
                let off = self.sector * 512;
                match disk.read_at(off, self.data_len) {
                    Ok(data) => {
                        match mem.write_bytes(self.data_addr, data.as_slice()) {
                            Ok(u) => Ok(self.data_len),
                            Err(e) => Err(
                                ExecuteError::Read {
                                    addr: self.data_addr,
                                    length: self.data_len,
                                    sector: self.sector,
                                },
                            ),
                        }
                    },
                    Err(e) => Err(
                        ExecuteError::Read {
                            addr: self.data_addr,
                            length: self.data_len,
                            sector: self.sector,
                        },
                    ),
                }
            },
            RequestType::Out => {
                if self.sector > u64::MAX / 512 {
                    return Err(ExecuteError::Seek { sector: self.sector });
                }
                let off = self.sector * 512;
                match mem.read_bytes(self.data_addr, self.data_len) {
                    Ok(data) => {
                        match disk.write_at(off, data.as_slice()) {
                            Ok(u) => {
                                flush_timer.armed = true;
                                Ok(1)
                            },
                            Err(e) => Err(
                                ExecuteError::Write {
                                    addr: self.data_addr,
                                    length: self.data_len,
                                    sector: self.sector,
                                },
                            ),
                        }
                    },
                    Err(e) => Err(
                        ExecuteError::Write {
                            addr: self.data_addr,
                            length: self.data_len,
                            sector: self.sector,
                        },
                    ),
                }
            },
            RequestType::Flush => {
                match disk.flush() {
                    Ok(u) => {
                        flush_timer.armed = false;
                        Ok(1)
                    },
                    Err(e) => Err(ExecuteError::Flush),
                }
            },
            RequestType::Discard | RequestType::WriteZeroes => {
                match self.discard_write_zeroes_seg {
                    None => Ok(1),
                    Some(seg) => {
                        let valid_flags = if self.request_type == RequestType::WriteZeroes {
                            VIRTIO_BLK_DISCARD_WRITE_ZEROES_FLAG_UNMAP
                        } else {
                            0u32
                        };
                        if seg.flags & !valid_flags != 0 {
                            return Err(
                                ExecuteError::DiscardWriteZeroes {
                                    sector: seg.sector,
                                    num_sectors: seg.num_sectors,
                                    flags: seg.flags,
                                },
                            );
                        }
                        if seg.sector > u64::MAX / 512 {
                            return Err(ExecuteError::Seek { sector: seg.sector });
                        }
                        let off = seg.sector * 512;
                        let nbytes = (seg.num_sectors as u64) * 512;
                        match disk.write_zeroes_at(off, nbytes) {
                            Ok(u) => Ok(1),
                            Err(e) => Err(
                                ExecuteError::DiscardWriteZeroes {
                                    sector: seg.sector,
                                    num_sectors: seg.num_sectors,
                                    flags: seg.flags,
                                },
                            ),
                        }
                    },
                }
            },
            RequestType::Unsupported(t) => Err(ExecuteError::Unsupported(t)),
        }
    }
}

/// A write that succeeded and was flushed stays on the disk: reading the
/// same range back yields exactly the written bytes. A successful OUT
/// request leaves `overwrite(disk, sector * 512, data)` as the contents, a
/// FLUSH leaves the contents unchanged, and a subsequent IN of the same
/// range returns this subrange.
pub proof fn lemma_out_then_flush_read_back(disk0: Seq<u8>, sector: u64, data: Seq<u8>)
    requires
        sector * 512 + data.len() <= disk0.len(),
    ensures
        overwrite(disk0, sector * 512, data).subrange(
            sector * 512,
            sector * 512 + data.len(),
        ) == data,
{
    lemma_overwrite_read_back(disk0, sector * 512, data);
}

/// The per-device worker state: the queue it serves, guest memory, the disk
/// image it exclusively owns, and the deferred-flush timer.
#[verifier::ext_equal]
pub struct Worker<T: DiskFile> {
    pub queue: Queue,
    pub mem: GuestMemory,
    pub disk_image: T,
    pub flush_timer: FlushTimer,
}

/// One handled chain of a batch: the worker state before the chain's ring
/// slot was consumed, the state after the chain was handled, the chain,
/// and the length reported for it.
pub struct ChainRecord<T: DiskFile> {
    pub pre: Worker<T>,
    pub post: Worker<T>,
    pub chain: DescriptorChain,
    pub reported: u32,
}

/// The exact effect of handling one chain (`Worker::handle_chain`): a chain
/// that fails to parse reports zero and changes nothing; a parsed request
/// is executed with the per-type effect of `Request::execute` and its
/// status byte is written last.
pub open spec fn spec_handle_post<T: DiskFile>(
    pre: Worker<T>,
    chain: DescriptorChain,
    post: Worker<T>,
    reported: u32,
) -> bool {
    &&& post.wf()
    &&& post.queue == pre.queue
    &&& post.mem.spec_base() == pre.mem.spec_base()
    &&& post.mem@.len() == pre.mem@.len()
    &&& post.disk_image.contents().len() == pre.disk_image.contents().len()
    &&& match spec_parse(pre.mem, chain) {
        Err(e) => {
            &&& reported == 0
            &&& post.mem@ == pre.mem@
            &&& post.disk_image.contents() == pre.disk_image.contents()
            &&& post.flush_timer == pre.flush_timer
        },
        Ok(req) => {
            let st = post.mem.byte_at(req.status_addr.0 as int);
            let data_idx = pre.mem.idx_of(req.data_addr.0 as int);
            let status_idx = pre.mem.idx_of(req.status_addr.0 as int);
            &&& (st == VIRTIO_BLK_S_OK || st == VIRTIO_BLK_S_IOERR || st == VIRTIO_BLK_S_UNSUPP)
            &&& ((req.request_type matches RequestType::Unsupported(_)) <==> st
                == VIRTIO_BLK_S_UNSUPP)
            &&& (st != VIRTIO_BLK_S_OK ==> {
                &&& reported == 1
                &&& post.mem@ == overwrite(pre.mem@, status_idx, seq![st])
                &&& post.flush_timer == pre.flush_timer
            })
            &&& (st == VIRTIO_BLK_S_OK ==> match req.request_type {
                RequestType::In => {
                    &&& reported == req.data_len
                    &&& req.sector * 512 + req.data_len <= pre.disk_image.contents().len()
                    &&& post.mem@ == overwrite(
                        overwrite(
                            pre.mem@,
                            data_idx,
                            pre.disk_image.contents().subrange(
                                req.sector * 512,
                                req.sector * 512 + req.data_len,
                            ),
                        ),
                        status_idx,
                        seq![VIRTIO_BLK_S_OK],
                    )
                    &&& post.disk_image.contents() == pre.disk_image.contents()
                    &&& post.flush_timer == pre.flush_timer
                },
                RequestType::Out => {
                    &&& reported == 1
                    &&& req.sector * 512 + req.data_len <= pre.disk_image.contents().len()
                    &&& post.disk_image.contents() == overwrite(
                        pre.disk_image.contents(),
                        req.sector * 512,
                        pre.mem@.subrange(data_idx, data_idx + req.data_len),
                    )
                    &&& post.mem@ == overwrite(pre.mem@, status_idx, seq![VIRTIO_BLK_S_OK])
                    &&& post.flush_timer.armed
                },
                RequestType::Flush => {
                    &&& reported == 1
                    &&& post.disk_image.contents() == pre.disk_image.contents()
                    &&& post.mem@ == overwrite(pre.mem@, status_idx, seq![VIRTIO_BLK_S_OK])
                    &&& !post.flush_timer.armed
                },
                RequestType::Discard => {
                    &&& reported == 1
                    &&& spec_dwz_ok_contents(
                        req,
                        pre.disk_image.contents(),
                        post.disk_image.contents(),
                    )
                    &&& post.mem@ == overwrite(pre.mem@, status_idx, seq![VIRTIO_BLK_S_OK])
                    &&& post.flush_timer == pre.flush_timer
                },
                RequestType::WriteZeroes => {
                    &&& reported == 1
                    &&& spec_dwz_ok_contents(
                        req,
                        pre.disk_image.contents(),
                        post.disk_image.contents(),
                    )
                    &&& post.mem@ == overwrite(pre.mem@, status_idx, seq![VIRTIO_BLK_S_OK])
                    &&& post.flush_timer == pre.flush_timer
                },
                RequestType::Unsupported(t) => false,
            })
        },
    }
}

/// One batch step: a ring slot was available, the chain is the one at the
/// cursor, its head was well formed, and consuming the slot then handling
/// the chain has exactly `handle_chain`'s effect.
pub open spec fn spec_record_ok<T: DiskFile>(rec: ChainRecord<T>) -> bool {
    &&& rec.pre.spec_ring_nonempty()
    &&& rec.pre.spec_head_ok()
    &&& rec.chain == rec.pre.spec_current_chain()
    &&& spec_handle_post(rec.pre.spec_popped(), rec.chain, rec.post, rec.reported)
}

/// The batch contract of `Worker::process_queue`: `records` lists the
/// handled chains in order, each consuming one available-ring slot with
/// exactly `handle_chain`'s effect; the batch ends when a full ring was
/// handled, the ring emptied, or a malformed head consumed one further
/// slot; `pub_start` is the state the publication pass started from; the
/// final state publishes exactly one used-ring entry `(head, reported)`
/// per handled chain, in order, and `r` holds iff at least one was
/// published.
pub open spec fn spec_process_post<T: DiskFile>(
    pre: Worker<T>,
    post: Worker<T>,
    r: bool,
    records: Seq<ChainRecord<T>>,
    pub_start: Worker<T>,
) -> bool {
    let n = records.len() as int;
    let mid = if n == 0 {
        pre
    } else {
        records[n - 1].post
    };
    let entries = Seq::new(records.len(), |i: int| (records[i].chain.index, records[i].reported));
    &&& n <= pre.queue.spec_actual_size()
    &&& (r <==> n > 0)
    &&& (n > 0 ==> records[0].pre == pre)
    &&& (forall|i: int| 0 <= i < n ==> #[trigger] spec_record_ok(records[i]))
    &&& (forall|i: int| 0 <= i < n - 1 ==> (#[trigger] records[i]).post == records[i + 1].pre)
    &&& (pub_start == mid || (mid.spec_ring_nonempty() && !mid.spec_head_ok() && pub_start
        == mid.spec_popped()))
    &&& (n < pre.queue.spec_actual_size() ==> (!mid.spec_ring_nonempty() || pub_start
        == mid.spec_popped()))
    &&& post.disk_image == pub_start.disk_image
    &&& post.flush_timer == pub_start.flush_timer
    &&& post.queue == spec_used_advanced(pub_start.queue, n)
    &&& post.mem.spec_base() == pre.mem.spec_base()
    &&& post.mem@ == spec_publish_entries(pre.mem, pub_start.queue, pub_start.mem@, entries)
}

impl<T: DiskFile> Worker<T> {
    /// Well-formed: guest memory and disk are sound and the queue's regions
    /// lie inside guest memory.
    pub open spec fn wf(&self) -> bool {
        &&& self.mem.wf()
        &&& self.disk_image.inv()
        &&& self.queue.spec_valid(self.mem)
    }

    /// The available ring holds a slot the device has not consumed.
    pub open spec fn spec_ring_nonempty(&self) -> bool {
        self.queue.spec_avail_idx(self.mem) != self.queue.next_avail
    }

    /// The head index at the current available-ring slot.
    pub open spec fn spec_current_head(&self) -> u16 {
        self.queue.spec_avail_entry(
            self.mem,
            self.queue.next_avail as int % self.queue.spec_actual_size() as int,
        )
    }

    /// The current slot's head descriptor is well formed.
    pub open spec fn spec_head_ok(&self) -> bool {
        crate::queue::spec_desc_ok(
            self.mem,
            self.queue.desc_table,
            self.queue.spec_actual_size(),
            self.spec_current_head(),
        )
    }

    /// The chain at the current slot, with a full walk budget.
    pub open spec fn spec_current_chain(&self) -> DescriptorChain {
        crate::queue::spec_desc_at(
            self.mem,
            self.queue.desc_table,
            self.queue.spec_actual_size(),
            self.spec_current_head(),
            self.queue.spec_actual_size(),
        )
    }

    /// This worker with the available-ring cursor advanced one slot.
    pub open spec fn spec_popped(&self) -> Worker<T> {
        Worker {
            queue: Queue {
                next_avail: ((self.queue.next_avail + 1) % 0x10000) as u16,
                ..self.queue
            },
            ..*self
        }
    }

    /// Parses and executes one descriptor chain and writes the status byte;
    /// returns the length to publish to the used ring. A chain that fails
    /// to parse reports length zero and leaves guest memory, the disk and
    /// the timer untouched.
    pub fn handle_chain(&mut self, chain: &DescriptorChain) -> (r: u32)
        requires
            old(self).wf(),
            chain.wf_for(old(self).mem),
        ensures
            final(self).wf(),
            spec_handle_post(*old(self), *chain, *final(self), r),
    {
        match Request::parse(chain, &self.mem) {
            Ok(request) => {
                let mut len: u32 = 0;
                let mut status: u8 = VIRTIO_BLK_S_OK;
                match request.execute(&mut self.disk_image, &mut self.flush_timer, &mut self.mem) {
                    Ok(l) => {
                        len = l;
                        status = VIRTIO_BLK_S_OK;
                    },
                    Err(e) => {
                        len = 1;
                        status = e.status();
                    },
                }
                match self.mem.write_u8(request.status_addr, status) {
                    Ok(u) => {},
                    Err(e) => {
                        proof {
                            assert(false);
                        }
                    },
                }
                len
            },
            Err(e) => 0,
        }
    }

    /// Processes every currently available descriptor chain (bounded by one
    /// full ring per call), publishes each completion to the used ring, and
    /// reports whether any completion was published — in which case the
    /// caller raises the used-ring interrupt, once for the whole batch. The
    /// handled chains and the state the publication started from come back
    /// as ghost data, pinned by `spec_process_post`.
    pub fn process_queue(&mut self) -> (r: (bool, Ghost<Seq<ChainRecord<T>>>, Ghost<Worker<T>>))
        requires
            old(self).wf(),
        ensures
            final(self).wf(),
            spec_process_post(*old(self), *final(self), r.0, r.1@, r.2@),
            final(self).mem.spec_base() == old(self).mem.spec_base(),
            final(self).mem@.len() == old(self).mem@.len(),
            final(self).disk_image.contents().len() == old(self).disk_image.contents().len(),
            final(self).queue.max_size == old(self).queue.max_size,
            final(self).queue.size == old(self).queue.size,
            final(self).queue.ready == old(self).queue.ready,
            final(self).queue.desc_table == old(self).queue.desc_table,
            final(self).queue.avail_ring == old(self).queue.avail_ring,
            final(self).queue.used_ring == old(self).queue.used_ring,
            old(self).queue.spec_avail_idx(old(self).mem) == old(self).queue.next_avail ==> {
                &&& !r.0
                &&& *final(self) == *old(self)
            },
            !r.0 ==> final(self).queue.next_used == old(self).queue.next_used,
    {
        let qs = self.queue.actual_size();
        let mut used: Vec<(u16, u32)> = Vec::new();
        let mut count: u16 = 0;
        let mut done = false;
        let ghost mut records: Seq<ChainRecord<T>> = Seq::empty();
        while !done && count < qs
            invariant
                self.wf(),
                self.mem.spec_base() == old(self).mem.spec_base(),
                self.mem@.len() == old(self).mem@.len(),
                self.disk_image.contents().len() == old(self).disk_image.contents().len(),
                self.queue.max_size == old(self).queue.max_size,
                self.queue.size == old(self).queue.size,
                self.queue.ready == old(self).queue.ready,
                self.queue.desc_table == old(self).queue.desc_table,
                self.queue.avail_ring == old(self).queue.avail_ring,
                self.queue.used_ring == old(self).queue.used_ring,
                self.queue.next_used == old(self).queue.next_used,
                qs == self.queue.spec_actual_size(),
                qs == old(self).queue.spec_actual_size(),
                count <= qs,
                used@.len() == count,
                records.len() == count,
                forall|i: int| 0 <= i < count ==> #[trigger] spec_record_ok(records[i]),
                forall|i: int|
                    0 <= i < count - 1 ==> (#[trigger] records[i]).post == records[i + 1].pre,
                forall|i: int|
                    0 <= i < count ==> (#[trigger] used@[i]) == (
                    records[i].chain.index,
                    records[i].reported,
                ),
                forall|i: int|
                    0 <= i < count ==> (#[trigger] used@[i]).0 < old(
                        self,
                    ).queue.spec_actual_size(),
                count > 0 ==> records[0].pre == *old(self),
                !done && count > 0 ==> records[count - 1].post == *self,
                !done && count == 0 ==> *self == *old(self),
                done ==> ({
                    let mid = if count == 0 {
                        *old(self)
                    } else {
                        records[count - 1].post
                    };
                    ||| (!mid.spec_ring_nonempty() && *self == mid)
                    ||| (mid.spec_ring_nonempty() && !mid.spec_head_ok() && *self
                        == mid.spec_popped())
                }),
                old(self).queue.spec_avail_idx(old(self).mem) == old(self).queue.next_avail ==> (
                count == 0 && *self == *old(self)),
            decreases qs - count + (if done { 0int } else { 1int }),
        {
            let ghost pre_state = *self;
            match self.queue.pop_avail(&self.mem) {
                Some(chain) => {
                    proof {
                        assert(*self =~= pre_state.spec_popped());
                    }
                    let ghost popped_state = *self;
                    let len = self.handle_chain(&chain);
                    proof {
                        let rec = ChainRecord { pre: pre_state, post: *self, chain, reported: len };
                        assert(spec_handle_post(popped_state, chain, *self, len));
                        assert(spec_record_ok(rec));
                        records = records.push(rec);
                        assert(records[count as int] == rec);
                    }
                    used.push((chain.index, len));
                    count = count + 1;
                },
                None => {
                    done = true;
                },
            }
        }
        let ghost pub_start = *self;
        proof {
            assert(used@.subrange(0, 0) =~= Seq::<(u16, u32)>::empty());
            assert(self.queue =~= spec_used_advanced(pub_start.queue, 0));
        }
        let mut i: usize = 0;
        while i < used.len()
            invariant
                self.wf(),
                self.mem.spec_base() == old(self).mem.spec_base(),
                self.mem@.len() == old(self).mem@.len(),
                i <= used@.len(),
                used@.len() == records.len(),
                used@.len() <= old(self).queue.spec_actual_size(),
                old(self).queue.spec_actual_size() <= 0xffff,
                forall|j: int|
                    0 <= j < used@.len() ==> (#[trigger] used@[j]) == (
                    records[j].chain.index,
                    records[j].reported,
                ),
                forall|j: int|
                    0 <= j < used@.len() ==> (#[trigger] used@[j]).0 < old(
                        self,
                    ).queue.spec_actual_size(),
                pub_start.wf(),
                pub_start.mem.spec_base() == old(self).mem.spec_base(),
                pub_start.queue.spec_actual_size() == old(self).queue.spec_actual_size(),
                pub_start.queue.next_used == old(self).queue.next_used,
                self.queue == spec_used_advanced(pub_start.queue, i as int),
                self.disk_image == pub_start.disk_image,
                self.flush_timer == pub_start.flush_timer,
                self.mem@ == spec_publish_entries(
                    old(self).mem,
                    pub_start.queue,
                    pub_start.mem@,
                    used@.subrange(0, i as int),
                ),
                self.disk_image.contents().len() == old(self).disk_image.contents().len(),
                old(self).queue.spec_avail_idx(old(self).mem) == old(self).queue.next_avail ==> (
                used@.len() == 0 && *self == *old(self)),
            decreases used@.len() - i,
        {
            let entry = used[i];
            let ghost pre_q = self.queue;
            let ghost pre_mem = self.mem;
            self.queue.add_used(&mut self.mem, entry.0, entry.1);
            proof {
                crate::queue::lemma_publish_entries_snoc(
                    old(self).mem,
                    pub_start.queue,
                    pub_start.mem@,
                    used@.subrange(0, i as int),
                    entry,
                );
                assert(used@.subrange(0, i + 1) =~= used@.subrange(0, i as int).push(entry));
                assert(seq![entry].drop_first() =~= Seq::<(u16, u32)>::empty());
                reveal_with_fuel(crate::queue::spec_publish_entries, 3);
                assert(self.mem@ == pre_q.spec_after_add_used(pre_mem, entry.0, entry.1));
                assert(self.mem@ =~= spec_publish_entries(
                    old(self).mem,
                    pre_q,
                    pre_mem@,
                    seq![entry],
                ));
                assert(self.mem@ =~= spec_publish_entries(
                    old(self).mem,
                    pub_start.queue,
                    pub_start.mem@,
                    used@.subrange(0, i + 1),
                ));
                vstd::arithmetic::div_mod::lemma_add_mod_noop(
                    pub_start.queue.next_used + i,
                    1,
                    0x10000,
                );
                vstd::arithmetic::div_mod::lemma_small_mod(1nat, 0x10000);
                assert(self.queue =~= spec_used_advanced(pub_start.queue, i + 1));
            }
            i = i + 1;
        }
        proof {
            assert(used@.subrange(0, used@.len() as int) =~= used@);
            assert(used@ =~= Seq::new(
                records.len(),
                |j: int| (records[j].chain.index, records[j].reported),
            ));
        }
        (used.len() > 0, Ghost(records), Ghost(pub_start))
    }

    /// The deferred-flush timer fired: the timer is spent, flush the disk.
    /// The flush's own result comes back; a failure is fatal to the worker.
    pub fn on_flush_timer(&mut self) -> (r: Result<(), DiskError>)
        requires
            old(self).wf(),
        ensures
            final(self).wf(),
            final(self).mem == old(self).mem,
            final(self).queue == old(self).queue,
            final(self).disk_image.contents() == old(self).disk_image.contents(),
            !final(self).flush_timer.armed,
    {
        self.flush_timer.armed = false;
        self.disk_image.flush()
    }
}

/// A virtio block device backed by a disk image. Once activated, the
/// device's worker state owns the disk.
pub struct Block<T: DiskFile> {
    pub disk_image: Option<T>,
    pub config_space: VirtioBlkConfig,
    pub avail_features: u64,
    pub acked_features: u64,
    pub read_only: bool,
    pub worker: Option<Worker<T>>,
}

impl<T: DiskFile> Block<T> {
    /// Creates a new virtio block device operating on the given disk image.
    pub fn new(disk_image: T, read_only: bool) -> (r: Block<T>)
        requires
            disk_image.inv(),
        ensures
            r.wf(),
            r.read_only == read_only,
            r.avail_features == (if read_only {
                (1u64 << VIRTIO_BLK_F_FLUSH) | (1u64 << VIRTIO_BLK_F_RO)
            } else {
                (1u64 << VIRTIO_BLK_F_FLUSH) | (1u64 << VIRTIO_BLK_F_DISCARD) | (1u64
                    << VIRTIO_BLK_F_WRITE_ZEROES)
            }),
            r.acked_features == 0,
            r.config_space == spec_build_config(disk_image.contents().len() as u64),
            r.worker is None,
            r.disk_image == Some(disk_image),
    {
        let disk_size = disk_image.disk_size();
        let avail_features: u64 = if read_only {
            (1u64 << VIRTIO_BLK_F_FLUSH) | (1u64 << VIRTIO_BLK_F_RO)
        } else {
            (1u64 << VIRTIO_BLK_F_FLUSH) | (1u64 << VIRTIO_BLK_F_DISCARD) | (1u64
                << VIRTIO_BLK_F_WRITE_ZEROES)
        };
        proof {
            assert(0u64 & !avail_features == 0) by (bit_vector);
        }
        Block {
            disk_image: Some(disk_image),
            config_space: build_config_space(disk_size),
            avail_features,
            acked_features: 0,
            read_only,
            worker: None,
        }
    }

    /// Well-formed: the disk and worker are sound, the device holds the
    /// disk on exactly one side of activation, and only offered features
    /// are acked.
    pub open spec fn wf(&self) -> bool {
        &&& match self.worker {
            Some(w) => w.wf(),
            None => true,
        }
        &&& match self.disk_image {
            Some(d) => d.inv(),
            None => true,
        }
        &&& (self.disk_image is Some ==> self.worker is None)
        &&& self.acked_features & !self.avail_features == 0
    }
}

impl<T: DiskFile> VirtioDevice for Block<T> {
    open spec fn spec_avail_features(&self) -> u64 {
        self.avail_features
    }

    open spec fn spec_acked_features(&self) -> u64 {
        self.acked_features
    }

    open spec fn spec_config_bytes(&self) -> Seq<u8> {
        spec_config_space_bytes(self.config_space)
    }

    open spec fn spec_activated(&self) -> bool {
        self.disk_image is None
    }

    open spec fn spec_accepts(&self, mem: GuestMemory, queues: Seq<Queue>) -> bool {
        &&& self.disk_image is Some
        &&& queues.len() == 1
        &&& mem.wf()
        &&& queues[0].spec_valid(mem)
    }

    open spec fn spec_notify_rel(&self, queue_index: u32, post: Block<T>, r: bool) -> bool {
        match self.worker {
            Some(w0) => match post.worker {
                Some(w1) => {
                    &&& post.disk_image == self.disk_image
                    &&& post.config_space == self.config_space
                    &&& post.avail_features == self.avail_features
                    &&& post.acked_features == self.acked_features
                    &&& post.read_only == self.read_only
                    &&& exists|records: Seq<ChainRecord<T>>, pub_start: Worker<T>|
                        spec_process_post(w0, w1, r, records, pub_start)
                },
                None => false,
            },
            None => {
                &&& post == *self
                &&& !r
            },
        }
    }

    open spec fn spec_after_activate(&self, mem: GuestMemory, queues: Seq<Queue>) -> Block<T> {
        Block {
            disk_image: None,
            worker: Some(
                Worker {
                    queue: queues[0],
                    mem,
                    disk_image: self.disk_image.unwrap(),
                    flush_timer: FlushTimer { armed: false },
                },
            ),
            config_space: self.config_space,
            avail_features: self.avail_features,
            acked_features: self.acked_features,
            read_only: self.read_only,
        }
    }

    open spec fn inv(&self) -> bool {
        self.wf()
    }

    open spec fn spec_device_type(&self) -> u32 {
        TYPE_BLOCK
    }

    open spec fn spec_queue_max_sizes(&self) -> Seq<u16> {
        seq![QUEUE_SIZE]
    }

    fn features(&self, page: u32) -> (r: u32) {
        if page == 0 {
            (self.avail_features & 0xffff_ffff) as u32
        } else if page == 1 {
            (self.avail_features >> 32) as u32
        } else {
            0
        }
    }

    fn acked_features_page(&self, page: u32) -> (r: u32) {
        if page == 0 {
            (self.acked_features & 0xffff_ffff) as u32
        } else if page == 1 {
            (self.acked_features >> 32) as u32
        } else {
            0
        }
    }

    fn ack_features(&mut self, page: u32, value: u32) {
        let ghost avail = self.avail_features;
        let ghost acked = self.acked_features;
        if page == 0 {
            self.acked_features = self.acked_features | ((value as u64) & self.avail_features);
            proof {
                let v: u64 = value as u64;
                assert(acked & !avail == 0 ==> (acked | (v & avail)) & !avail == 0)
                    by (bit_vector);
            }
        } else if page == 1 {
            self.acked_features = self.acked_features | (((value as u64) << 32)
                & self.avail_features);
            proof {
                let v: u64 = value as u64;
                assert(acked & !avail == 0 ==> (acked | ((v << 32) & avail)) & !avail == 0)
                    by (bit_vector);
            }
        }
    }

    fn device_type(&self) -> (r: u32) {
        TYPE_BLOCK
    }

    fn queue_max_sizes(&self) -> (r: Vec<u16>) {
        let mut v: Vec<u16> = Vec::new();
        v.push(QUEUE_SIZE);
        proof {
            assert(v@ =~= seq![QUEUE_SIZE]);
        }
        v
    }

    fn read_config(&self, offset: u64, data: &mut Vec<u8>) {
        let bytes = config_space_to_bytes(&self.config_space);
        let n = data.len();
        let mut i: usize = 0;
        while i < n
            invariant
                n == data@.len(),
                i <= n,
                bytes@ == spec_config_space_bytes(self.config_space),
                bytes@.len() == CONFIG_SPACE_LEN,
                forall|j: int|
                    0 <= j < i ==> data@[j] == spec_read_window(
                        spec_config_space_bytes(self.config_space),
                        offset as int,
                        n as nat,
                    )[j],
                forall|j: int| i <= j < n ==> data@[j] == old(data)@[j],
            decreases n - i,
        {
            let v: u8 = if offset < CONFIG_SPACE_LEN && (i as u64) < CONFIG_SPACE_LEN - offset {
                bytes[(offset + i as u64) as usize]
            } else {
                0
            };
            data[i] = v;
            i = i + 1;
        }
        proof {
            assert(data@ =~= spec_read_window(
                spec_config_space_bytes(self.config_space),
                offset as int,
                old(data)@.len() as nat,
            ));
        }
    }

    fn write_config(&mut self, offset: u64, data: &[u8]) {
    }

    fn activate(&mut self, mem: GuestMemory, queues: Vec<Queue>) {
        if queues.len() != 1 {
            return ;
        }
        if !mem.is_wf() {
            return ;
        }
        let q = queues[0];
        if !q.is_valid(&mem) {
            return ;
        }
        match self.disk_image.take() {
            Some(disk) => {
                self.worker = Some(
                    Worker { queue: q, mem, disk_image: disk, flush_timer: FlushTimer {
                        armed: false,
                    } },
                );
            },
            None => {},
        }
    }

    #[verifier::rlimit(60)]
    fn queue_notify(&mut self, queue_index: u32) -> (r: bool) {
        match self.worker.take() {
            Some(mut w) => {
                let ghost w0 = w;
                let step = w.process_queue();
                let ghost w1 = w;
                self.worker = Some(w);
                proof {
                    assert(old(self).worker.unwrap() == w0);
                    assert(self.worker.unwrap() == w1);
                    assert(spec_process_post(w0, w1, step.0, step.1@, step.2@));
                    assert(exists|records: Seq<ChainRecord<T>>, pub_start: Worker<T>|
                        spec_process_post(
                            old(self).worker.unwrap(),
                            self.worker.unwrap(),
                            step.0,
                            records,
                            pub_start,
                        ));
                }
                step.0
            },
            None => false,
        }
    }
}

} // verus!
