//! PCI configuration space: a 256-byte register file with standard header
//! fields, guest-writable bits controlled by per-byte masks, BAR assignment
//! with size-probing masks, and a bump allocator for vendor capabilities.

use vstd::prelude::*;
use vstd::slice::slice_subrange;
use vstd::bytes::u32_from_le_bytes;
use vstd::bytes::spec_u16_to_le_bytes;
use vstd::bytes::spec_u32_to_le_bytes;
use crate::bytes_model::overwrite;

verus! {

/// Error of placing a device on the bus.
#[derive(Clone, Copy, Debug, PartialEq, Eq, Structural)]
pub enum Error {
    /// Allocating space for an IO BAR failed; carries the requested size.
    IoAllocationFailed(u64),
    /// Registering an IO BAR failed; carries the address.
    IoRegistrationFailed(u64),
}

/// Identifier of a PCI capability.
#[derive(Clone, Copy, Debug, PartialEq, Eq, Structural)]
pub enum PciCapabilityID {
    VendorSpecific,
}

impl PciCapabilityID {
    /// The one-byte capability identifier.
    pub fn to_byte(&self) -> (r: u8)
        ensures
            r == spec_cap_id_byte(*self),
    {
        match self {
            PciCapabilityID::VendorSpecific => 0x09,
        }
    }
}

/// The one-byte identifier of a capability kind.
pub open spec fn spec_cap_id_byte(id: PciCapabilityID) -> u8 {
    match id {
        PciCapabilityID::VendorSpecific => 0x09,
    }
}

/// A capability to be appended to a configuration space: an identifier and
/// the body bytes that follow the two-byte `{id, next}` header.
pub trait PciCapability: Sized {
    /// The serialized body.
    spec fn spec_bytes(&self) -> Seq<u8>;

    /// The capability kind.
    spec fn spec_id(&self) -> PciCapabilityID;

    /// The serialized body.
    fn bytes(&self) -> (r: Vec<u8>)
        ensures
            r@ == self.spec_bytes(),
    ;

    /// The capability kind.
    fn id(&self) -> (r: PciCapabilityID)
        ensures
            r == self.spec_id(),
    ;
}

/// PCI class of a device.
#[derive(Clone, Copy, Debug, PartialEq, Eq, Structural)]
pub enum PciClassCode {
    Other,
}

impl PciClassCode {
    /// The class byte.
    pub fn get_register_value(&self) -> (r: u8)
        ensures
            r == spec_class_byte(*self),
    {
        match self {
            PciClassCode::Other => 0xff,
        }
    }
}

/// The class byte of a class code.
pub open spec fn spec_class_byte(c: PciClassCode) -> u8 {
    match c {
        PciClassCode::Other => 0xff,
    }
}

/// A device-class-specific subclass; each device class defines its own.
pub trait PciSubclass: Sized {
    /// The subclass byte.
    spec fn spec_register_value(&self) -> u8;

    /// The subclass byte.
    fn get_register_value(&self) -> (r: u8)
        ensures
            r == self.spec_register_value(),
    ;
}

/// Layout of the configuration space header.
#[derive(Clone, Copy, Debug, PartialEq, Eq, Structural)]
pub enum PciHeaderType {
    Device,
    Bridge,
}

/// The header-type byte.
pub open spec fn spec_header_byte(h: PciHeaderType) -> u8 {
    match h {
        PciHeaderType::Device => 0x00,
        PciHeaderType::Bridge => 0x01,
    }
}

/// A legacy PCI interrupt pin.
#[derive(Clone, Copy, Debug, PartialEq, Eq, Structural)]
pub enum PciInterruptPin {
    IntA,
    IntB,
    IntC,
    IntD,
}

/// The interrupt-pin register value (INTA# is 1).
pub open spec fn spec_pin_byte(p: PciInterruptPin) -> u8 {
    match p {
        PciInterruptPin::IntA => 1,
        PciInterruptPin::IntB => 2,
        PciInterruptPin::IntC => 3,
        PciInterruptPin::IntD => 4,
    }
}

/// Total size of the configuration space in bytes.
pub const CONFIG_SPACE_SIZE: usize = 256;

/// Offset of the first allocated capability body.
pub const FIRST_CAPABILITY_OFFSET: usize = 0x40;

/// Offset of the capabilities pointer in the header.
pub const CAPABILITY_POINTER_OFFSET: usize = 0x34;

/// The initial content of a configuration space.
pub open spec fn spec_initial_cfg_bytes(
    vendor_id: u16,
    device_id: u16,
    class: u8,
    subclass: u8,
    header: u8,
    subsystem_vendor_id: u16,
    subsystem_id: u16,
) -> Seq<u8> {
    Seq::new(
        256,
        |i: int|
            if i == 0 {
                (vendor_id & 0xff) as u8
            } else if i == 1 {
                (vendor_id >> 8) as u8
            } else if i == 2 {
                (device_id & 0xff) as u8
            } else if i == 3 {
                (device_id >> 8) as u8
            } else if i == 0x0a {
                subclass
            } else if i == 0x0b {
                class
            } else if i == 0x0e {
                header
            } else if i == 0x2c {
                (subsystem_vendor_id & 0xff) as u8
            } else if i == 0x2d {
                (subsystem_vendor_id >> 8) as u8
            } else if i == 0x2e {
                (subsystem_id & 0xff) as u8
            } else if i == 0x2f {
                (subsystem_id >> 8) as u8
            } else {
                0u8
            },
    )
}

/// The initial per-byte guest-writable masks: the command register's I/O and
/// memory enable bits, and the interrupt-line byte.
pub open spec fn spec_initial_writable() -> Seq<u8> {
    Seq::new(
        256,
        |i: int|
            if i == 4 {
                0x03u8
            } else if i == 0x3c {
                0xffu8
            } else {
                0u8
            },
    )
}

/// A masked guest write of `data` at `off`: each written byte keeps the old
/// value where its writable mask is clear.
pub open spec fn spec_masked_write(
    bytes: Seq<u8>,
    writable: Seq<u8>,
    off: int,
    data: Seq<u8>,
) -> Seq<u8> {
    Seq::new(
        bytes.len(),
        |i: int|
            if off <= i < off + data.len() {
                (bytes[i] & !writable[i]) | (data[i - off] & writable[i])
            } else {
                bytes[i]
            },
    )
}

/// The 256-byte configuration space of one PCI device, with its writable
/// masks and the bookkeeping for BAR and capability allocation.
pub struct PciConfiguration {
    /// The configuration bytes the guest reads.
    pub bytes: Vec<u8>,
    /// Per-byte guest-writable mask.
    pub writable: Vec<u8>,
    /// Number of BAR slots used (a 64-bit memory region uses two).
    pub num_bars: usize,
    /// Offset of the most recently added capability, 0 when none.
    pub latest_cap: usize,
    /// Next free offset of the capability bump area.
    pub cap_free: usize,
}

impl PciConfiguration {
    /// Well-formed: the two arrays span the space and the capability bump
    /// area stays inside it.
    pub open spec fn wf(&self) -> bool {
        &&& self.bytes@.len() == CONFIG_SPACE_SIZE
        &&& self.writable@.len() == CONFIG_SPACE_SIZE
        &&& self.num_bars <= 6
        &&& FIRST_CAPABILITY_OFFSET <= self.cap_free <= 256 + 3
        &&& self.latest_cap < 255
    }

    /// Builds a configuration space with the standard header fields set and
    /// everything else zero.
    pub fn new<S: PciSubclass>(
        vendor_id: u16,
        device_id: u16,
        class_code: PciClassCode,
        subclass: &S,
        header_type: PciHeaderType,
        subsystem_vendor_id: u16,
        subsystem_id: u16,
    ) -> (r: PciConfiguration)
        ensures
            r.wf(),
            r.bytes@ == spec_initial_cfg_bytes(
                vendor_id,
                device_id,
                spec_class_byte(class_code),
                subclass.spec_register_value(),
                spec_header_byte(header_type),
                subsystem_vendor_id,
                subsystem_id,
            ),
            r.writable@ == spec_initial_writable(),
            r.num_bars == 0,
            r.latest_cap == 0,
            r.cap_free == FIRST_CAPABILITY_OFFSET,
    {
        let mut bytes: Vec<u8> = vec![0u8; 256];
        bytes[0] = (vendor_id & 0xff) as u8;
        bytes[1] = (vendor_id >> 8) as u8;
        bytes[2] = (device_id & 0xff) as u8;
        bytes[3] = (device_id >> 8) as u8;
        bytes[0x0a] = subclass.get_register_value();
        bytes[0x0b] = class_code.get_register_value();
        bytes[0x0e] = match header_type {
            PciHeaderType::Device => 0x00,
            PciHeaderType::Bridge => 0x01,
        };
        bytes[0x2c] = (subsystem_vendor_id & 0xff) as u8;
        bytes[0x2d] = (subsystem_vendor_id >> 8) as u8;
        bytes[0x2e] = (subsystem_id & 0xff) as u8;
        bytes[0x2f] = (subsystem_id >> 8) as u8;
        let mut writable: Vec<u8> = vec![0u8; 256];
        writable[4] = 0x03;
        writable[0x3c] = 0xff;
        proof {
            assert(bytes@ =~= spec_initial_cfg_bytes(
                vendor_id,
                device_id,
                spec_class_byte(class_code),
                subclass.spec_register_value(),
                spec_header_byte(header_type),
                subsystem_vendor_id,
                subsystem_id,
            ));
            assert(writable@ =~= spec_initial_writable());
        }
        PciConfiguration { bytes, writable, num_bars: 0, latest_cap: 0, cap_free: 0x40 }
    }

    /// Reads 32-bit register `reg_idx` (little-endian), zero for an index
    /// outside the space.
    pub fn read_reg(&self, reg_idx: usize) -> (r: u32)
        requires
            self.wf(),
        ensures
            reg_idx < 64 ==> r == vstd::bytes::spec_u32_from_le_bytes(
                self.bytes@.subrange(4 * reg_idx, 4 * reg_idx + 4),
            ),
            reg_idx >= 64 ==> r == 0,
    {
        if reg_idx < 64 {
            u32_from_le_bytes(slice_subrange(self.bytes.as_slice(), 4 * reg_idx, 4 * reg_idx + 4))
        } else {
            0
        }
    }

    /// A guest write of `data` at byte offset `off`, honoring the writable
    /// masks; out-of-range writes are ignored.
    fn masked_write(&mut self, off: usize, data: &[u8])
        requires
            old(self).wf(),
        ensures
            final(self).wf(),
            final(self).writable == old(self).writable,
            final(self).num_bars == old(self).num_bars,
            final(self).latest_cap == old(self).latest_cap,
            final(self).cap_free == old(self).cap_free,
            off + data@.len() <= 256 ==> final(self).bytes@ == spec_masked_write(
                old(self).bytes@,
                old(self).writable@,
                off as int,
                data@,
            ),
            off + data@.len() > 256 ==> final(self).bytes@ == old(self).bytes@,
    {
        if data.len() > 256 || off > 256 - data.len() {
            return ;
        }
        let mut i: usize = 0;
        while i < data.len()
            invariant
                self.wf(),
                self.writable == old(self).writable,
                self.num_bars == old(self).num_bars,
                self.latest_cap == old(self).latest_cap,
                self.cap_free == old(self).cap_free,
                off + data@.len() <= 256,
                i <= data@.len(),
                self.bytes@ =~= spec_masked_write(
                    old(self).bytes@,
                    old(self).writable@,
                    off as int,
                    data@.subrange(0, i as int),
                ),
            decreases data@.len() - i,
        {
            let b = (self.bytes[off + i] & !self.writable[off + i]) | (data[i] & self.writable[off
                + i]);
            self.bytes[off + i] = b;
            i = i + 1;
            proof {
                assert(self.bytes@ =~= spec_masked_write(
                    old(self).bytes@,
                    old(self).writable@,
                    off as int,
                    data@.subrange(0, i as int),
                ));
            }
        }
        proof {
            assert(data@.subrange(0, data@.len() as int) =~= data@);
        }
    }

    /// Guest write of one byte.
    pub fn write_byte(&mut self, offset: usize, value: u8)
        requires
            old(self).wf(),
        ensures
            final(self).wf(),
            final(self).writable == old(self).writable,
            final(self).num_bars == old(self).num_bars,
            final(self).latest_cap == old(self).latest_cap,
            final(self).cap_free == old(self).cap_free,
            offset < 256 ==> final(self).bytes@ == spec_masked_write(
                old(self).bytes@,
                old(self).writable@,
                offset as int,
                seq![value],
            ),
            offset >= 256 ==> final(self).bytes@ == old(self).bytes@,
    {
        let data: Vec<u8> = vec![value];
        proof {
            assert(data@ =~= seq![value]);
        }
        self.masked_write(offset, data.as_slice());
    }

    /// Guest write of a 16-bit word; an unaligned offset is ignored.
    pub fn write_word(&mut self, offset: usize, value: u16)
        requires
            old(self).wf(),
        ensures
            final(self).wf(),
            final(self).writable == old(self).writable,
            final(self).num_bars == old(self).num_bars,
            final(self).latest_cap == old(self).latest_cap,
            final(self).cap_free == old(self).cap_free,
            offset % 2 == 0 && offset + 2 <= 256 ==> final(self).bytes@ == spec_masked_write(
                old(self).bytes@,
                old(self).writable@,
                offset as int,
                spec_u16_to_le_bytes(value),
            ),
            !(offset % 2 == 0 && offset + 2 <= 256) ==> final(self).bytes@ == old(self).bytes@,
    {
        if offset % 2 != 0 {
            return ;
        }
        let data = vstd::bytes::u16_to_le_bytes(value);
        self.masked_write(offset, data.as_slice());
    }

    /// Guest write of 32-bit register `reg_idx`.
    pub fn write_reg(&mut self, reg_idx: usize, value: u32)
        requires
            old(self).wf(),
        ensures
            final(self).wf(),
            final(self).writable == old(self).writable,
            final(self).num_bars == old(self).num_bars,
            final(self).latest_cap == old(self).latest_cap,
            final(self).cap_free == old(self).cap_free,
            reg_idx < 64 ==> final(self).bytes@ == spec_masked_write(
                old(self).bytes@,
                old(self).writable@,
                4 * reg_idx,
                spec_u32_to_le_bytes(value),
            ),
            reg_idx >= 64 ==> final(self).bytes@ == old(self).bytes@,
    {
        if reg_idx >= 64 {
            return ;
        }
        let data = vstd::bytes::u32_to_le_bytes(value);
        self.masked_write(4 * reg_idx, data.as_slice());
    }

    /// Device-side write of `data` at `off`, ignoring the writable masks.
    fn set_bytes(&mut self, off: usize, data: &[u8])
        requires
            old(self).wf(),
            off + data@.len() <= 256,
        ensures
            final(self).wf(),
            final(self).writable == old(self).writable,
            final(self).num_bars == old(self).num_bars,
            final(self).latest_cap == old(self).latest_cap,
            final(self).cap_free == old(self).cap_free,
            final(self).bytes@ == overwrite(old(self).bytes@, off as int, data@),
    {
        let mut i: usize = 0;
        while i < data.len()
            invariant
                self.wf(),
                self.writable == old(self).writable,
                self.num_bars == old(self).num_bars,
                self.latest_cap == old(self).latest_cap,
                self.cap_free == old(self).cap_free,
                off + data@.len() <= 256,
                i <= data@.len(),
                self.bytes@ =~= overwrite(old(self).bytes@, off as int, data@.subrange(0, i as int)),
            decreases data@.len() - i,
        {
            self.bytes[off + i] = data[i];
            i = i + 1;
            proof {
                assert(self.bytes@ =~= overwrite(
                    old(self).bytes@,
                    off as int,
                    data@.subrange(0, i as int),
                ));
            }
        }
        proof {
            assert(data@.subrange(0, data@.len() as int) =~= data@);
        }
    }

    /// Sets the interrupt line and pin of the header.
    pub fn set_irq(&mut self, line: u8, pin: PciInterruptPin)
        requires
            old(self).wf(),
        ensures
            final(self).wf(),
            final(self).writable == old(self).writable,
            final(self).num_bars == old(self).num_bars,
            final(self).latest_cap == old(self).latest_cap,
            final(self).cap_free == old(self).cap_free,
            final(self).bytes@ == overwrite(
                old(self).bytes@,
                0x3c,
                seq![line, spec_pin_byte(pin)],
            ),
    {
        let pin_byte: u8 = match pin {
            PciInterruptPin::IntA => 1,
            PciInterruptPin::IntB => 2,
            PciInterruptPin::IntC => 3,
            PciInterruptPin::IntD => 4,
        };
        let data: Vec<u8> = vec![line, pin_byte];
        proof {
            assert(data@ =~= seq![line, spec_pin_byte(pin)]);
        }
        self.set_bytes(0x3c, data.as_slice());
    }

    /// The configuration bytes after appending a capability with identifier
    /// byte `id` and body `body` at `off`, with `ptr_pos` patched to point
    /// at it and the capabilities-list status bit set.
    pub open spec fn spec_after_add_capability(
        bytes: Seq<u8>,
        off: int,
        id: u8,
        body: Seq<u8>,
        ptr_pos: int,
    ) -> Seq<u8> {
        let with_cap = overwrite(bytes, off, seq![id, 0u8] + body);
        let with_ptr = overwrite(with_cap, ptr_pos, seq![off as u8]);
        overwrite(with_ptr, 6, seq![(with_ptr[6] | 0x10) as u8])
    }

    /// Appends a capability into the bump area, patches the previous
    /// capability's `next` field (or the header's capabilities pointer for
    /// the first), sets the capabilities-list status bit, and returns the
    /// new capability's offset; fails when the body does not fit.
    pub fn add_capability<C: PciCapability>(&mut self, cap_data: &C) -> (r: Option<usize>)
        requires
            old(self).wf(),
        ensures
            final(self).wf(),
            final(self).writable == old(self).writable,
            final(self).num_bars == old(self).num_bars,
            r is Some <==> old(self).cap_free + 2 + cap_data.spec_bytes().len() <= 256,
            match r {
                Some(off) => {
                    &&& off == old(self).cap_free
                    &&& final(self).latest_cap == off
                    &&& final(self).cap_free == off + ((2 + cap_data.spec_bytes().len() + 3) / 4)
                        * 4
                    &&& final(self).bytes@ == PciConfiguration::spec_after_add_capability(
                        old(self).bytes@,
                        off as int,
                        spec_cap_id_byte(cap_data.spec_id()),
                        cap_data.spec_bytes(),
                        if old(self).latest_cap == 0 {
                            CAPABILITY_POINTER_OFFSET as int
                        } else {
                            old(self).latest_cap + 1
                        },
                    )
                },
                None => *final(self) == *old(self),
            },
    {
        let body = cap_data.bytes();
        if body.len() > 254 {
            return None;
        }
        let total_len = 2 + body.len();
        if self.cap_free > 256 - total_len {
            return None;
        }
        let off = self.cap_free;
        let id_byte = cap_data.id().to_byte();
        let mut data: Vec<u8> = Vec::new();
        data.push(id_byte);
        data.push(0);
        let mut j: usize = 0;
        while j < body.len()
            invariant
                j <= body@.len(),
                body@ == cap_data.spec_bytes(),
                data@ =~= seq![
                    spec_cap_id_byte(cap_data.spec_id()),
                    0u8,
                ] + body@.subrange(0, j as int),
            decreases body@.len() - j,
        {
            data.push(body[j]);
            j = j + 1;
            proof {
                assert(data@ =~= seq![
                    spec_cap_id_byte(cap_data.spec_id()),
                    0u8,
                ] + body@.subrange(0, j as int));
            }
        }
        proof {
            assert(body@.subrange(0, body@.len() as int) =~= body@);
        }
        self.set_bytes(off, data.as_slice());
        let ptr_pos: usize = if self.latest_cap == 0 {
            CAPABILITY_POINTER_OFFSET
        } else {
            self.latest_cap + 1
        };
        let ptr_data: Vec<u8> = vec![off as u8];
        proof {
            assert(ptr_data@ =~= seq![off as u8]);
        }
        self.set_bytes(ptr_pos, ptr_data.as_slice());
        let status = self.bytes[6] | 0x10;
        let status_data: Vec<u8> = vec![status];
        proof {
            assert(status_data@ =~= seq![status]);
        }
        self.set_bytes(6, status_data.as_slice());
        self.latest_cap = off;
        self.cap_free = off + ((total_len + 3) / 4) * 4;
        Some(off)
    }

    /// The configuration bytes after assigning a 64-bit memory BAR at
    /// `bar_idx`: the low register holds `addr | 0x04` (64-bit memory
    /// type), the high register `addr >> 32`.
    pub open spec fn spec_after_add_memory_region(bytes: Seq<u8>, bar_idx: int, addr: u64) -> Seq<
        u8,
    > {
        overwrite(
            bytes,
            0x10 + 4 * bar_idx,
            spec_u32_to_le_bytes((((addr & 0xffff_fff0) & 0xffff_ffff) as u32) | 0x04)
                + spec_u32_to_le_bytes(((addr >> 32) & 0xffff_ffff) as u32),
        )
    }

    /// Assigns the next free BAR pair to a 64-bit memory region of `size`
    /// bytes at `addr`, and installs the writable mask that lets the guest
    /// probe the region size. Fails when the BARs are used up or `size` is
    /// not a power of two.
    pub fn add_memory_region(&mut self, addr: u64, size: u64) -> (r: Option<usize>)
        requires
            old(self).wf(),
        ensures
            final(self).wf(),
            final(self).latest_cap == old(self).latest_cap,
            final(self).cap_free == old(self).cap_free,
            r is Some <==> (old(self).num_bars + 2 <= 6 && size > 0 && (size & (size - 1) as u64)
                == 0),
            match r {
                Some(bar_idx) => {
                    &&& bar_idx == old(self).num_bars
                    &&& final(self).num_bars == old(self).num_bars + 2
                    &&& final(self).bytes@ == PciConfiguration::spec_after_add_memory_region(
                        old(self).bytes@,
                        bar_idx as int,
                        addr,
                    )
                    &&& final(self).writable@ == overwrite(
                        old(self).writable@,
                        0x10 + 4 * bar_idx,
                        spec_u32_to_le_bytes(
                            (!((((size - 1) as u64) & 0xffff_ffff) as u32)) & 0xffff_fff0,
                        )
                            + spec_u32_to_le_bytes(0xffff_ffffu32),
                    )
                },
                None => *final(self) == *old(self),
            },
    {
        if self.num_bars + 2 > 6 {
            return None;
        }
        if size == 0 || (size & (size - 1)) != 0 {
            return None;
        }
        let bar_idx = self.num_bars;
        let off = 0x10 + 4 * bar_idx;
        let sm1: u64 = size - 1;
        proof {
            assert((addr & 0xffff_fff0) & 0xffff_ffff <= 0xffff_ffff) by (bit_vector);
            assert((addr >> 32) & 0xffff_ffff <= 0xffff_ffff) by (bit_vector);
            assert(sm1 & 0xffff_ffff <= 0xffff_ffff) by (bit_vector);
        }
        let low: u32 = (((addr & 0xffff_fff0) & 0xffff_ffff) as u32) | 0x04;
        let high: u32 = ((addr >> 32) & 0xffff_ffff) as u32;
        let mut data = vstd::bytes::u32_to_le_bytes(low);
        let mut high_bytes = vstd::bytes::u32_to_le_bytes(high);
        data.append(&mut high_bytes);
        self.set_bytes(off, data.as_slice());
        let mask_low: u32 = (!((sm1 & 0xffff_ffff) as u32)) & 0xffff_fff0;
        let mut mask = vstd::bytes::u32_to_le_bytes(mask_low);
        let mut mask_high = vstd::bytes::u32_to_le_bytes(0xffff_ffffu32);
        mask.append(&mut mask_high);
        let ghost old_writable = self.writable@;
        let mut i: usize = 0;
        while i < mask.len()
            invariant
                self.bytes@.len() == 256,
                self.writable@.len() == 256,
                self.num_bars <= 6,
                FIRST_CAPABILITY_OFFSET <= self.cap_free <= 256 + 3,
                self.latest_cap < 255,
                self.bytes@ == PciConfiguration::spec_after_add_memory_region(
                    old(self).bytes@,
                    old(self).num_bars as int,
                    addr,
                ),
                self.num_bars == old(self).num_bars,
                self.latest_cap == old(self).latest_cap,
                self.cap_free == old(self).cap_free,
                off == 0x10 + 4 * old(self).num_bars,
                off + mask@.len() <= 256,
                i <= mask@.len(),
                self.writable@ =~= overwrite(old_writable, off as int, mask@.subrange(0, i as int)),
            decreases mask@.len() - i,
        {
            self.writable[off + i] = mask[i];
            i = i + 1;
            proof {
                assert(self.writable@ =~= overwrite(
                    old_writable,
                    off as int,
                    mask@.subrange(0, i as int),
                ));
            }
        }
        proof {
            assert(mask@.subrange(0, mask@.len() as int) =~= mask@);
        }
        self.num_bars = bar_idx + 2;
        Some(bar_idx)
    }

    /// The low 32 bits of the address a BAR was assigned, with the type
    /// bits masked off; zero for an unassigned BAR index.
    pub fn get_bar_addr(&self, bar_num: usize) -> (r: u32)
        requires
            self.wf(),
        ensures
            bar_num < 6 ==> r == (vstd::bytes::spec_u32_from_le_bytes(
                self.bytes@.subrange(0x10 + 4 * bar_num, 0x10 + 4 * bar_num + 4),
            ) & 0xffff_fff0),
            bar_num >= 6 ==> r == 0,
    {
        if bar_num < 6 {
            let off = 0x10 + 4 * bar_num;
            u32_from_le_bytes(slice_subrange(self.bytes.as_slice(), off, off + 4)) & 0xffff_fff0
        } else {
            0
        }
    }

    /// Dispatches a guest write of 1, 2 or 4 bytes at `offset` within
    /// register `reg_idx`; anything else is ignored.
    pub fn config_register_write(&mut self, reg_idx: usize, offset: usize, data: &[u8])
        requires
            old(self).wf(),
        ensures
            final(self).wf(),
            final(self).writable == old(self).writable,
            final(self).num_bars == old(self).num_bars,
            final(self).latest_cap == old(self).latest_cap,
            final(self).cap_free == old(self).cap_free,
            offset + data@.len() > 4 || reg_idx >= 64 || !(data@.len() == 1 || data@.len() == 2
                || data@.len() == 4) ==> final(self).bytes@ == old(self).bytes@,
            (reg_idx < 64 && offset + data@.len() <= 4 && (data@.len() == 1 || (data@.len() == 2
                && offset % 2 == 0) || data@.len() == 4)) ==> final(self).bytes@
                == spec_masked_write(
                old(self).bytes@,
                old(self).writable@,
                4 * reg_idx + offset,
                data@,
            ),
    {
        if offset > 4 || data.len() > 4 - offset || reg_idx >= 64 {
            return ;
        }
        let base = reg_idx * 4 + offset;
        if data.len() == 1 {
            self.write_byte(base, data[0]);
            proof {
                assert(seq![data@[0]] =~= data@);
            }
        } else if data.len() == 2 {
            let v = vstd::bytes::u16_from_le_bytes(slice_subrange(data, 0, 2));
            self.write_word(base, v);
            proof {
                vstd::bytes::lemma_auto_spec_u16_to_from_le_bytes();
                assert(data@.subrange(0, 2) =~= data@);
            }
        } else if data.len() == 4 {
            let v = u32_from_le_bytes(slice_subrange(data, 0, 4));
            self.write_reg(reg_idx, v);
            proof {
                vstd::bytes::lemma_auto_spec_u32_to_from_le_bytes();
                assert(data@.subrange(0, 4) =~= data@);
            }
        }
    }

    /// Reads 32-bit register `reg_idx`.
    pub fn config_register_read(&self, reg_idx: usize) -> (r: u32)
        requires
            self.wf(),
        ensures
            reg_idx < 64 ==> r == vstd::bytes::spec_u32_from_le_bytes(
                self.bytes@.subrange(4 * reg_idx, 4 * reg_idx + 4),
            ),
            reg_idx >= 64 ==> r == 0,
    {
        self.read_reg(reg_idx)
    }
}

} // verus!
