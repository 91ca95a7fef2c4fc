//! The virtio-over-PCI transport: vendor capabilities describing the four
//! windows of the device BAR, the common configuration register window, and
//! the transport that wraps a back-end, dispatches BAR accesses, and drives
//! the activation handshake as the guest writes status bits.

use vstd::prelude::*;
use vstd::bytes::u16_from_le_bytes;
use vstd::bytes::u16_to_le_bytes;
use vstd::bytes::u32_from_le_bytes;
use vstd::bytes::u32_to_le_bytes;
use vstd::bytes::spec_u16_from_le_bytes;
use vstd::bytes::spec_u16_to_le_bytes;
use vstd::bytes::spec_u32_from_le_bytes;
use vstd::bytes::spec_u32_to_le_bytes;
use crate::guest_mem::GuestMemory;
use crate::pci::Error;
use crate::pci::PciCapability;
use crate::pci::PciCapabilityID;
use crate::pci::PciClassCode;
use crate::pci::PciConfiguration;
use crate::pci::PciHeaderType;
use crate::pci::PciInterruptPin;
use crate::pci::PciSubclass;
use crate::pci::spec_cap_id_byte;
use crate::pci::spec_initial_cfg_bytes;
use crate::pci::spec_initial_writable;
use crate::pci::CAPABILITY_POINTER_OFFSET;
use crate::queue::Queue;
use crate::system_allocator::SystemAllocator;
use crate::virtio::spec_acked_after;
use crate::virtio::spec_features_page;
use crate::virtio::spec_read_window;
use crate::virtio::VirtioDevice;
use crate::virtio::INTERRUPT_STATUS_USED_RING;
use crate::address_allocator::spec_allocate;

verus! {

/// Driver-status bit: the guest found the device.
pub const DEVICE_ACKNOWLEDGE: u8 = 1;

/// Driver-status bit: the guest knows how to drive the device.
pub const DEVICE_DRIVER: u8 = 2;

/// Driver-status bit: the driver is set up and ready.
pub const DEVICE_DRIVER_OK: u8 = 4;

/// Driver-status bit: feature negotiation is complete.
pub const DEVICE_FEATURES_OK: u8 = 8;

/// Driver-status bit: the device needs a reset.
pub const DEVICE_NEEDS_RESET: u8 = 0x40;

/// Driver-status bit: the guest has given up on the device.
pub const DEVICE_FAILED: u8 = 0x80;

/// Offset of the common configuration window in the BAR.
pub const COMMON_CONFIG_BAR_OFFSET: u64 = 0x0000;

/// Size of the common configuration window.
pub const COMMON_CONFIG_SIZE: u64 = 56;

/// Offset of the interrupt-status byte in the BAR.
pub const ISR_CONFIG_BAR_OFFSET: u64 = 0x1000;

/// Size of the interrupt-status window.
pub const ISR_CONFIG_SIZE: u64 = 1;

/// Offset of the device-specific window in the BAR.
pub const DEVICE_CONFIG_BAR_OFFSET: u64 = 0x2000;

/// Size of the device-specific window.
pub const DEVICE_CONFIG_SIZE: u64 = 0x1000;

/// Offset of the notification window in the BAR.
pub const NOTIFICATION_BAR_OFFSET: u64 = 0x3000;

/// Size of the notification window.
pub const NOTIFICATION_SIZE: u64 = 0x1000;

/// Size of the one BAR holding all four windows.
pub const CAPABILITY_BAR_SIZE: u64 = 0x4000;

/// A dword per notification address: queue N is notified at
/// `NOTIFICATION_BAR_OFFSET + N * 4`.
pub const NOTIFY_OFF_MULTIPLIER: u32 = 4;

/// Which of the transport's windows a vendor capability describes.
#[derive(Clone, Copy, Debug, PartialEq, Eq, Structural)]
pub enum PciCapabilityType {
    CommonConfig,
    NotifyConfig,
    IsrConfig,
    DeviceConfig,
    PciConfig,
}

/// The configuration-structure type byte of a capability kind.
pub open spec fn spec_cfg_type_byte(t: PciCapabilityType) -> u8 {
    match t {
        PciCapabilityType::CommonConfig => 1,
        PciCapabilityType::NotifyConfig => 2,
        PciCapabilityType::IsrConfig => 3,
        PciCapabilityType::DeviceConfig => 4,
        PciCapabilityType::PciConfig => 5,
    }
}

impl PciCapabilityType {
    /// The configuration-structure type byte.
    pub fn to_byte(&self) -> (r: u8)
        ensures
            r == spec_cfg_type_byte(*self),
    {
        match self {
            PciCapabilityType::CommonConfig => 1,
            PciCapabilityType::NotifyConfig => 2,
            PciCapabilityType::IsrConfig => 3,
            PciCapabilityType::DeviceConfig => 4,
            PciCapabilityType::PciConfig => 5,
        }
    }
}

/// A virtio vendor capability: points the guest at one window of the BAR.
#[derive(Clone, Copy, Debug, PartialEq, Eq, Structural)]
pub struct VirtioPciCap {
    /// Capability length, including the two-byte `{id, next}` header.
    pub cap_len: u8,
    /// Which structure this capability describes.
    pub cfg_type: u8,
    /// The BAR holding the structure.
    pub bar: u8,
    /// Offset of the structure within the BAR.
    pub offset: u32,
    /// Length of the structure in bytes.
    pub length: u32,
}

/// Body length of a plain virtio capability, header included.
pub const VIRTIO_PCI_CAPABILITY_BYTES: u8 = 16;

/// The serialized body of a plain virtio capability.
pub open spec fn spec_virtio_cap_bytes(c: VirtioPciCap) -> Seq<u8> {
    seq![c.cap_len, c.cfg_type, c.bar, 0u8, 0u8, 0u8] + spec_u32_to_le_bytes(c.offset)
        + spec_u32_to_le_bytes(c.length)
}

impl VirtioPciCap {
    /// A capability describing `length` bytes at `offset` of `bar`.
    pub fn new(cfg_type: PciCapabilityType, bar: u8, offset: u32, length: u32) -> (r: VirtioPciCap)
        ensures
            r == (VirtioPciCap {
                cap_len: VIRTIO_PCI_CAPABILITY_BYTES,
                cfg_type: spec_cfg_type_byte(cfg_type),
                bar,
                offset,
                length,
            }),
    {
        VirtioPciCap {
            cap_len: VIRTIO_PCI_CAPABILITY_BYTES,
            cfg_type: cfg_type.to_byte(),
            bar,
            offset,
            length,
        }
    }
}

impl PciCapability for VirtioPciCap {
    open spec fn spec_bytes(&self) -> Seq<u8> {
        spec_virtio_cap_bytes(*self)
    }

    open spec fn spec_id(&self) -> PciCapabilityID {
        PciCapabilityID::VendorSpecific
    }

    fn bytes(&self) -> (r: Vec<u8>) {
        let mut out: Vec<u8> = Vec::new();
        out.push(self.cap_len);
        out.push(self.cfg_type);
        out.push(self.bar);
        out.push(0);
        out.push(0);
        out.push(0);
        let mut t = u32_to_le_bytes(self.offset);
        out.append(&mut t);
        let mut t = u32_to_le_bytes(self.length);
        out.append(&mut t);
        proof {
            assert(out@ =~= spec_virtio_cap_bytes(*self));
        }
        out
    }

    fn id(&self) -> (r: PciCapabilityID) {
        PciCapabilityID::VendorSpecific
    }
}

/// The notify capability: a plain capability plus the multiplier that maps a
/// queue index to its notification address.
#[derive(Clone, Copy, Debug, PartialEq, Eq, Structural)]
pub struct VirtioPciNotifyCap {
    pub cap: VirtioPciCap,
    pub notify_off_multiplier: u32,
}

/// Body length of the notify capability, header included.
pub const VIRTIO_PCI_NOTIFY_CAPABILITY_BYTES: u8 = 18;

/// The serialized body of the notify capability.
pub open spec fn spec_virtio_notify_cap_bytes(c: VirtioPciNotifyCap) -> Seq<u8> {
    spec_virtio_cap_bytes(c.cap) + spec_u32_to_le_bytes(c.notify_off_multiplier)
}

impl VirtioPciNotifyCap {
    /// A notify capability for `length` bytes at `offset` of `bar` with the
    /// given notify-offset multiplier.
    pub fn new(
        cfg_type: PciCapabilityType,
        bar: u8,
        offset: u32,
        length: u32,
        multiplier: u32,
    ) -> (r: VirtioPciNotifyCap)
        ensures
            r == (VirtioPciNotifyCap {
                cap: VirtioPciCap {
                    cap_len: VIRTIO_PCI_NOTIFY_CAPABILITY_BYTES,
                    cfg_type: spec_cfg_type_byte(cfg_type),
                    bar,
                    offset,
                    length,
                },
                notify_off_multiplier: multiplier,
            }),
    {
        VirtioPciNotifyCap {
            cap: VirtioPciCap {
                cap_len: VIRTIO_PCI_NOTIFY_CAPABILITY_BYTES,
                cfg_type: cfg_type.to_byte(),
                bar,
                offset,
                length,
            },
            notify_off_multiplier: multiplier,
        }
    }
}

impl PciCapability for VirtioPciNotifyCap {
    open spec fn spec_bytes(&self) -> Seq<u8> {
        spec_virtio_notify_cap_bytes(*self)
    }

    open spec fn spec_id(&self) -> PciCapabilityID {
        PciCapabilityID::VendorSpecific
    }

    fn bytes(&self) -> (r: Vec<u8>) {
        let mut out = self.cap.bytes();
        let mut t = u32_to_le_bytes(self.notify_off_multiplier);
        out.append(&mut t);
        out
    }

    fn id(&self) -> (r: PciCapabilityID) {
        PciCapabilityID::VendorSpecific
    }
}

/// Subclasses for virtio PCI devices.
#[derive(Clone, Copy, Debug, PartialEq, Eq, Structural)]
pub enum PciVirtioSubclass {
    NonTransitionalBase,
}

impl PciSubclass for PciVirtioSubclass {
    open spec fn spec_register_value(&self) -> u8 {
        0xff
    }

    fn get_register_value(&self) -> (r: u8) {
        0xff
    }
}

/// `x` with its low 32 bits replaced by `v`.
pub open spec fn spec_set_low32(x: u64, v: u32) -> u64 {
    (x & 0xffff_ffff_0000_0000) | (v as u64)
}

/// `x` with its high 32 bits replaced by `v`.
pub open spec fn spec_set_high32(x: u64, v: u32) -> u64 {
    (x & 0xffff_ffff) | ((v as u64) << 32)
}

/// The low 32 bits of `x`.
pub open spec fn spec_low32(x: u64) -> u32 {
    (x & 0xffff_ffff) as u32
}

/// The high 32 bits of `x`.
pub open spec fn spec_high32(x: u64) -> u32 {
    (x >> 32) as u32
}

/// The top-level registers of the common configuration window.
#[derive(Clone, Copy, Debug, PartialEq, Eq, Structural)]
pub struct VirtioPciCommonConfig {
    /// The driver-status byte the guest writes.
    pub driver_status: u8,
    /// Incremented by the device on every device-initiated config change.
    pub config_generation: u8,
    /// Which 32-bit page of the device features is read.
    pub device_feature_select: u32,
    /// Which 32-bit page of the driver features is written.
    pub driver_feature_select: u32,
    /// Which queue the queue registers address.
    pub queue_select: u16,
}

/// The queue the common window's queue registers currently address.
pub open spec fn spec_selected_queue(cc: VirtioPciCommonConfig, queues: Seq<Queue>) -> Option<
    Queue,
> {
    if cc.queue_select < queues.len() {
        Some(queues[cc.queue_select as int])
    } else {
        None
    }
}

/// The bytes a read of the common window returns: the register selected by
/// `(offset, data0.len())`, or `data0` unchanged when no register matches.
pub open spec fn spec_common_read(
    cc: VirtioPciCommonConfig,
    queues: Seq<Queue>,
    avail: u64,
    acked: u64,
    offset: int,
    data0: Seq<u8>,
) -> Seq<u8> {
    let n = data0.len();
    let q = spec_selected_queue(cc, queues);
    if offset == 0x00 && n == 4 {
        spec_u32_to_le_bytes(cc.device_feature_select)
    } else if offset == 0x04 && n == 4 {
        spec_u32_to_le_bytes(spec_features_page(avail, cc.device_feature_select))
    } else if offset == 0x08 && n == 4 {
        spec_u32_to_le_bytes(cc.driver_feature_select)
    } else if offset == 0x0c && n == 4 {
        spec_u32_to_le_bytes(spec_features_page(acked, cc.driver_feature_select))
    } else if offset == 0x10 && n == 2 {
        spec_u16_to_le_bytes(0)
    } else if offset == 0x12 && n == 2 {
        spec_u16_to_le_bytes(queues.len() as u16)
    } else if offset == 0x14 && n == 1 {
        seq![cc.driver_status]
    } else if offset == 0x15 && n == 1 {
        seq![cc.config_generation]
    } else if offset == 0x16 && n == 2 {
        spec_u16_to_le_bytes(cc.queue_select)
    } else if offset == 0x18 && n == 2 {
        spec_u16_to_le_bytes(
            match q {
                Some(qq) => qq.size,
                None => 0,
            },
        )
    } else if offset == 0x1a && n == 2 {
        spec_u16_to_le_bytes(0)
    } else if offset == 0x1c && n == 2 {
        spec_u16_to_le_bytes(
            match q {
                Some(qq) => if qq.ready {
                    1
                } else {
                    0
                },
                None => 0,
            },
        )
    } else if offset == 0x1e && n == 2 {
        spec_u16_to_le_bytes(cc.queue_select)
    } else if offset == 0x20 && n == 4 {
        spec_u32_to_le_bytes(
            match q {
                Some(qq) => spec_low32(qq.desc_table.0),
                None => 0,
            },
        )
    } else if offset == 0x24 && n == 4 {
        spec_u32_to_le_bytes(
            match q {
                Some(qq) => spec_high32(qq.desc_table.0),
                None => 0,
            },
        )
    } else if offset == 0x28 && n == 4 {
        spec_u32_to_le_bytes(
            match q {
                Some(qq) => spec_low32(qq.avail_ring.0),
                None => 0,
            },
        )
    } else if offset == 0x2c && n == 4 {
        spec_u32_to_le_bytes(
            match q {
                Some(qq) => spec_high32(qq.avail_ring.0),
                None => 0,
            },
        )
    } else if offset == 0x30 && n == 4 {
        spec_u32_to_le_bytes(
            match q {
                Some(qq) => spec_low32(qq.used_ring.0),
                None => 0,
            },
        )
    } else if offset == 0x34 && n == 4 {
        spec_u32_to_le_bytes(
            match q {
                Some(qq) => spec_high32(qq.used_ring.0),
                None => 0,
            },
        )
    } else {
        data0
    }
}

/// The selected queue updated by `f`-like replacement; the queue list is
/// unchanged when the selector is out of range.
pub open spec fn spec_update_selected(
    cc: VirtioPciCommonConfig,
    queues: Seq<Queue>,
    q2: Queue,
) -> Seq<Queue> {
    if cc.queue_select < queues.len() {
        queues.update(cc.queue_select as int, q2)
    } else {
        queues
    }
}

/// The effect of a write to the common window: the new top-level registers,
/// the new queue list, and the feature-ack `(page, value)` forwarded to the
/// device, if any.
pub open spec fn spec_common_write(
    cc: VirtioPciCommonConfig,
    queues: Seq<Queue>,
    offset: int,
    data: Seq<u8>,
) -> (VirtioPciCommonConfig, Seq<Queue>, Option<(u32, u32)>) {
    let n = data.len();
    let v32 = spec_u32_from_le_bytes(data);
    let v16 = spec_u16_from_le_bytes(data);
    let q = spec_selected_queue(cc, queues);
    if offset == 0x00 && n == 4 {
        (VirtioPciCommonConfig { device_feature_select: v32, ..cc }, queues, None)
    } else if offset == 0x08 && n == 4 {
        (VirtioPciCommonConfig { driver_feature_select: v32, ..cc }, queues, None)
    } else if offset == 0x0c && n == 4 {
        (cc, queues, Some((cc.driver_feature_select, v32)))
    } else if offset == 0x14 && n == 1 {
        (VirtioPciCommonConfig { driver_status: data[0], ..cc }, queues, None)
    } else if offset == 0x16 && n == 2 {
        (VirtioPciCommonConfig { queue_select: v16, ..cc }, queues, None)
    } else if offset == 0x18 && n == 2 {
        (
            cc,
            match q {
                Some(qq) => spec_update_selected(cc, queues, Queue { size: v16, ..qq }),
                None => queues,
            },
            None,
        )
    } else if offset == 0x1c && n == 2 {
        (
            cc,
            match q {
                Some(qq) => spec_update_selected(cc, queues, Queue { ready: v16 == 1, ..qq }),
                None => queues,
            },
            None,
        )
    } else if offset == 0x20 && n == 4 {
        (
            cc,
            match q {
                Some(qq) => spec_update_selected(
                    cc,
                    queues,
                    Queue {
                        desc_table: crate::guest_mem::GuestAddress(
                            spec_set_low32(qq.desc_table.0, v32),
                        ),
                        ..qq
                    },
                ),
                None => queues,
            },
            None,
        )
    } else if offset == 0x24 && n == 4 {
        (
            cc,
            match q {
                Some(qq) => spec_update_selected(
                    cc,
                    queues,
                    Queue {
                        desc_table: crate::guest_mem::GuestAddress(
                            spec_set_high32(qq.desc_table.0, v32),
                        ),
                        ..qq
                    },
                ),
                None => queues,
            },
            None,
        )
    } else if offset == 0x28 && n == 4 {
        (
            cc,
            match q {
                Some(qq) => spec_update_selected(
                    cc,
                    queues,
                    Queue {
                        avail_ring: crate::guest_mem::GuestAddress(
                            spec_set_low32(qq.avail_ring.0, v32),
                        ),
                        ..qq
                    },
                ),
                None => queues,
            },
            None,
        )
    } else if offset == 0x2c && n == 4 {
        (
            cc,
            match q {
                Some(qq) => spec_update_selected(
                    cc,
                    queues,
                    Queue {
                        avail_ring: crate::guest_mem::GuestAddress(
                            spec_set_high32(qq.avail_ring.0, v32),
                        ),
                        ..qq
                    },
                ),
                None => queues,
            },
            None,
        )
    } else if offset == 0x30 && n == 4 {
        (
            cc,
            match q {
                Some(qq) => spec_update_selected(
                    cc,
                    queues,
                    Queue {
                        used_ring: crate::guest_mem::GuestAddress(
                            spec_set_low32(qq.used_ring.0, v32),
                        ),
                        ..qq
                    },
                ),
                None => queues,
            },
            None,
        )
    } else if offset == 0x34 && n == 4 {
        (
            cc,
            match q {
                Some(qq) => spec_update_selected(
                    cc,
                    queues,
                    Queue {
                        used_ring: crate::guest_mem::GuestAddress(
                            spec_set_high32(qq.used_ring.0, v32),
                        ),
                        ..qq
                    },
                ),
                None => queues,
            },
            None,
        )
    } else {
        (cc, queues, None)
    }
}

/// Copies `src` over `data`; both must have the same length.
fn copy_into(data: &mut Vec<u8>, src: &Vec<u8>)
    requires
        old(data)@.len() == src@.len(),
    ensures
        final(data)@ == src@,
{
    let mut i: usize = 0;
    while i < src.len()
        invariant
            data@.len() == src@.len(),
            i <= src@.len(),
            forall|j: int| 0 <= j < i ==> data@[j] == src@[j],
        decreases src@.len() - i,
    {
        data[i] = src[i];
        i = i + 1;
    }
    proof {
        assert(data@ =~= src@);
    }
}

impl VirtioPciCommonConfig {
    /// Reads the register selected by `offset` and the access width into
    /// `data`; an unmatched access leaves `data` untouched.
    pub fn read<B: VirtioDevice>(
        &self,
        offset: u64,
        data: &mut Vec<u8>,
        queues: &Vec<Queue>,
        device: &B,
    )
        requires
            device.inv(),
            queues@.len() <= 0xffff,
        ensures
            final(data)@ == spec_common_read(
                *self,
                queues@,
                device.spec_avail_features(),
                device.spec_acked_features(),
                offset as int,
                old(data)@,
            ),
    {
        let n = data.len();
        if offset == 0x00 && n == 4 {
            let src = u32_to_le_bytes(self.device_feature_select);
            copy_into(data, &src);
        } else if offset == 0x04 && n == 4 {
            let src = u32_to_le_bytes(device.features(self.device_feature_select));
            copy_into(data, &src);
        } else if offset == 0x08 && n == 4 {
            let src = u32_to_le_bytes(self.driver_feature_select);
            copy_into(data, &src);
        } else if offset == 0x0c && n == 4 {
            let src = u32_to_le_bytes(device.acked_features_page(self.driver_feature_select));
            copy_into(data, &src);
        } else if offset == 0x10 && n == 2 {
            let src = u16_to_le_bytes(0);
            copy_into(data, &src);
        } else if offset == 0x12 && n == 2 {
            let src = u16_to_le_bytes(queues.len() as u16);
            copy_into(data, &src);
        } else if offset == 0x14 && n == 1 {
            data[0] = self.driver_status;
            proof {
                assert(data@ =~= seq![self.driver_status]);
            }
        } else if offset == 0x15 && n == 1 {
            data[0] = self.config_generation;
            proof {
                assert(data@ =~= seq![self.config_generation]);
            }
        } else if offset == 0x16 && n == 2 {
            let src = u16_to_le_bytes(self.queue_select);
            copy_into(data, &src);
        } else if offset == 0x18 && n == 2 {
            let v: u16 = if (self.queue_select as usize) < queues.len() {
                queues[self.queue_select as usize].size
            } else {
                0
            };
            let src = u16_to_le_bytes(v);
            copy_into(data, &src);
        } else if offset == 0x1a && n == 2 {
            let src = u16_to_le_bytes(0);
            copy_into(data, &src);
        } else if offset == 0x1c && n == 2 {
            let v: u16 = if (self.queue_select as usize) < queues.len() {
                if queues[self.queue_select as usize].ready {
                    1
                } else {
                    0
                }
            } else {
                0
            };
            let src = u16_to_le_bytes(v);
            copy_into(data, &src);
        } else if offset == 0x1e && n == 2 {
            let src = u16_to_le_bytes(self.queue_select);
            copy_into(data, &src);
        } else if offset == 0x20 && n == 4 {
            let v: u32 = if (self.queue_select as usize) < queues.len() {
                (queues[self.queue_select as usize].desc_table.0 & 0xffff_ffff) as u32
            } else {
                0
            };
            let src = u32_to_le_bytes(v);
            copy_into(data, &src);
        } else if offset == 0x24 && n == 4 {
            let v: u32 = if (self.queue_select as usize) < queues.len() {
                (queues[self.queue_select as usize].desc_table.0 >> 32) as u32
            } else {
                0
            };
            let src = u32_to_le_bytes(v);
            copy_into(data, &src);
        } else if offset == 0x28 && n == 4 {
            let v: u32 = if (self.queue_select as usize) < queues.len() {
                (queues[self.queue_select as usize].avail_ring.0 & 0xffff_ffff) as u32
            } else {
                0
            };
            let src = u32_to_le_bytes(v);
            copy_into(data, &src);
        } else if offset == 0x2c && n == 4 {
            let v: u32 = if (self.queue_select as usize) < queues.len() {
                (queues[self.queue_select as usize].avail_ring.0 >> 32) as u32
            } else {
                0
            };
            let src = u32_to_le_bytes(v);
            copy_into(data, &src);
        } else if offset == 0x30 && n == 4 {
            let v: u32 = if (self.queue_select as usize) < queues.len() {
                (queues[self.queue_select as usize].used_ring.0 & 0xffff_ffff) as u32
            } else {
                0
            };
            let src = u32_to_le_bytes(v);
            copy_into(data, &src);
        } else if offset == 0x34 && n == 4 {
            let v: u32 = if (self.queue_select as usize) < queues.len() {
                (queues[self.queue_select as usize].used_ring.0 >> 32) as u32
            } else {
                0
            };
            let src = u32_to_le_bytes(v);
            copy_into(data, &src);
        }
    }

    /// Applies a write to the register selected by `offset` and the access
    /// width; a feature-ack write is forwarded to the device, writes to
    /// read-only registers and unmatched accesses are ignored.
    pub fn write<B: VirtioDevice>(
        &mut self,
        offset: u64,
        data: &[u8],
        queues: &mut Vec<Queue>,
        device: &mut B,
    )
        requires
            old(device).inv(),
        ensures
            final(device).inv(),
            *final(self) == spec_common_write(*old(self), old(queues)@, offset as int, data@).0,
            final(queues)@ == spec_common_write(*old(self), old(queues)@, offset as int, data@).1,
            final(device).spec_avail_features() == old(device).spec_avail_features(),
            final(device).spec_config_bytes() == old(device).spec_config_bytes(),
            final(device).spec_activated() == old(device).spec_activated(),
            match spec_common_write(*old(self), old(queues)@, offset as int, data@).2 {
                Some(ack) => final(device).spec_acked_features() == spec_acked_after(
                    old(device).spec_avail_features(),
                    old(device).spec_acked_features(),
                    ack.0,
                    ack.1,
                ),
                None => *final(device) == *old(device),
            },
    {
        let n = data.len();
        if offset == 0x00 && n == 4 {
            self.device_feature_select = u32_from_le_bytes(data);
        } else if offset == 0x08 && n == 4 {
            self.driver_feature_select = u32_from_le_bytes(data);
        } else if offset == 0x0c && n == 4 {
            device.ack_features(self.driver_feature_select, u32_from_le_bytes(data));
        } else if offset == 0x14 && n == 1 {
            self.driver_status = data[0];
        } else if offset == 0x16 && n == 2 {
            self.queue_select = u16_from_le_bytes(data);
        } else if offset == 0x18 && n == 2 {
            let sel = self.queue_select as usize;
            if sel < queues.len() {
                let mut q = queues[sel];
                q.size = u16_from_le_bytes(data);
                queues[sel] = q;
            }
        } else if offset == 0x1c && n == 2 {
            let sel = self.queue_select as usize;
            if sel < queues.len() {
                let mut q = queues[sel];
                q.ready = u16_from_le_bytes(data) == 1;
                queues[sel] = q;
            }
        } else if offset == 0x20 && n == 4 {
            let sel = self.queue_select as usize;
            if sel < queues.len() {
                let mut q = queues[sel];
                q.desc_table = crate::guest_mem::GuestAddress(
                    set_low32(q.desc_table.0, u32_from_le_bytes(data)),
                );
                queues[sel] = q;
            }
        } else if offset == 0x24 && n == 4 {
            let sel = self.queue_select as usize;
            if sel < queues.len() {
                let mut q = queues[sel];
                q.desc_table = crate::guest_mem::GuestAddress(
                    set_high32(q.desc_table.0, u32_from_le_bytes(data)),
                );
                queues[sel] = q;
            }
        } else if offset == 0x28 && n == 4 {
            let sel = self.queue_select as usize;
            if sel < queues.len() {
                let mut q = queues[sel];
                q.avail_ring = crate::guest_mem::GuestAddress(
                    set_low32(q.avail_ring.0, u32_from_le_bytes(data)),
                );
                queues[sel] = q;
            }
        } else if offset == 0x2c && n == 4 {
            let sel = self.queue_select as usize;
            if sel < queues.len() {
                let mut q = queues[sel];
                q.avail_ring = crate::guest_mem::GuestAddress(
                    set_high32(q.avail_ring.0, u32_from_le_bytes(data)),
                );
                queues[sel] = q;
            }
        } else if offset == 0x30 && n == 4 {
            let sel = self.queue_select as usize;
            if sel < queues.len() {
                let mut q = queues[sel];
                q.used_ring = crate::guest_mem::GuestAddress(
                    set_low32(q.used_ring.0, u32_from_le_bytes(data)),
                );
                queues[sel] = q;
            }
        } else if offset == 0x34 && n == 4 {
            let sel = self.queue_select as usize;
            if sel < queues.len() {
                let mut q = queues[sel];
                q.used_ring = crate::guest_mem::GuestAddress(
                    set_high32(q.used_ring.0, u32_from_le_bytes(data)),
                );
                queues[sel] = q;
            }
        }
    }
}

/// `x` with its low 32 bits replaced by `v`.
fn set_low32(x: u64, v: u32) -> (r: u64)
    ensures
        r == spec_set_low32(x, v),
{
    (x & 0xffff_ffff_0000_0000) | (v as u64)
}

/// `x` with its high 32 bits replaced by `v`.
fn set_high32(x: u64, v: u32) -> (r: u64)
    ensures
        r == spec_set_high32(x, v),
{
    (x & 0xffff_ffff) | ((v as u64) << 32)
}

/// A fresh host-side queue of maximal size `max`.
pub open spec fn spec_new_queue(max: u16) -> Queue {
    Queue {
        max_size: max,
        size: max,
        ready: false,
        desc_table: crate::guest_mem::GuestAddress(0),
        avail_ring: crate::guest_mem::GuestAddress(0),
        used_ring: crate::guest_mem::GuestAddress(0),
        next_avail: 0,
        next_used: 0,
    }
}

/// The PCI device identifier of a virtio device of type `dt`.
pub open spec fn spec_virtio_pci_device_id(dt: u32) -> u16 {
    (((0x1040 + (dt & 0xffff)) as u32) & 0xffff) as u16
}

/// The configuration bytes after the transport appended its five vendor
/// capabilities: common, ISR, device-specific, notify (with the multiplier)
/// and the PCI-config access stub, in that order.
pub open spec fn spec_after_virtio_caps(bytes: Seq<u8>, bar: u8) -> Seq<u8> {
    let common = spec_virtio_cap_bytes(
        VirtioPciCap {
            cap_len: VIRTIO_PCI_CAPABILITY_BYTES,
            cfg_type: 1,
            bar,
            offset: 0,
            length: 56,
        },
    );
    let isr = spec_virtio_cap_bytes(
        VirtioPciCap {
            cap_len: VIRTIO_PCI_CAPABILITY_BYTES,
            cfg_type: 3,
            bar,
            offset: 0x1000,
            length: 1,
        },
    );
    let dev = spec_virtio_cap_bytes(
        VirtioPciCap {
            cap_len: VIRTIO_PCI_CAPABILITY_BYTES,
            cfg_type: 4,
            bar,
            offset: 0x2000,
            length: 0x1000,
        },
    );
    let notify = spec_virtio_notify_cap_bytes(
        VirtioPciNotifyCap {
            cap: VirtioPciCap {
                cap_len: VIRTIO_PCI_NOTIFY_CAPABILITY_BYTES,
                cfg_type: 2,
                bar,
                offset: 0x3000,
                length: 0x1000,
            },
            notify_off_multiplier: NOTIFY_OFF_MULTIPLIER,
        },
    );
    let cfg = spec_virtio_cap_bytes(
        VirtioPciCap { cap_len: VIRTIO_PCI_CAPABILITY_BYTES, cfg_type: 5, bar: 0, offset: 0, length: 0 },
    );
    let b1 = PciConfiguration::spec_after_add_capability(bytes, 0x40, 0x09, common, 0x34);
    let b2 = PciConfiguration::spec_after_add_capability(b1, 0x50, 0x09, isr, 0x41);
    let b3 = PciConfiguration::spec_after_add_capability(b2, 0x60, 0x09, dev, 0x51);
    let b4 = PciConfiguration::spec_after_add_capability(b3, 0x70, 0x09, notify, 0x61);
    PciConfiguration::spec_after_add_capability(b4, 0x84, 0x09, cfg, 0x71)
}

/// Whether all queues lie validly inside the given guest memory.
pub open spec fn spec_queues_valid(mem: Option<GuestMemory>, queues: Seq<Queue>) -> bool {
    match mem {
        Some(m) => forall|i: int| 0 <= i < queues.len() ==> queues[i].spec_valid(m),
        None => false,
    }
}

/// The activation condition: not yet activated, the driver wrote exactly
/// the ready status bits (so `FAILED` is clear), an interrupt event was
/// assigned, guest memory is present and every queue is valid in it.
pub open spec fn spec_ready_for_activate(
    activated: bool,
    irq_assigned: bool,
    cc: VirtioPciCommonConfig,
    mem: Option<GuestMemory>,
    queues: Seq<Queue>,
) -> bool {
    &&& !activated
    &&& cc.driver_status == (DEVICE_ACKNOWLEDGE | DEVICE_DRIVER | DEVICE_DRIVER_OK
        | DEVICE_FEATURES_OK)
    &&& irq_assigned
    &&& spec_queues_valid(mem, queues)
}

/// Copies a queue list.
fn clone_queues(qs: &Vec<Queue>) -> (r: Vec<Queue>)
    ensures
        r@ == qs@,
{
    let mut out: Vec<Queue> = Vec::new();
    let mut i: usize = 0;
    while i < qs.len()
        invariant
            i <= qs@.len(),
            out@ =~= qs@.subrange(0, i as int),
        decreases qs@.len() - i,
    {
        out.push(qs[i]);
        i = i + 1;
        proof {
            assert(out@ =~= qs@.subrange(0, i as int));
        }
    }
    proof {
        assert(qs@.subrange(0, qs@.len() as int) =~= qs@);
    }
    out
}

/// The PCI transport for a virtio device: one 16 KiB BAR with four windows,
/// a register file on the PCI bus, and the activation handshake.
pub struct VirtioPciDevice<B: VirtioDevice> {
    /// The PCI configuration space.
    pub config_regs: PciConfiguration,
    /// The wrapped back-end.
    pub device: B,
    /// The back-end has been handed its resources.
    pub device_activated: bool,
    /// The shared interrupt-status word; the ISR window reads and clears it.
    pub interrupt_status: u32,
    /// An interrupt event has been assigned.
    pub irq_assigned: bool,
    /// The host-side queue states the guest configures.
    pub queues: Vec<Queue>,
    /// Guest memory, present until it moves into the back-end at activation.
    pub mem: Option<GuestMemory>,
    /// Index of the BAR holding the four windows.
    pub settings_bar: u8,
    /// The common configuration window's top-level registers.
    pub common_config: VirtioPciCommonConfig,
}

impl<B: VirtioDevice> VirtioPciDevice<B> {
    /// Well-formed: the register file and back-end are sound, the queue
    /// count fits the `num_queues` register, and guest memory is sound.
    pub open spec fn wf(&self) -> bool {
        &&& self.config_regs.wf()
        &&& self.device.inv()
        &&& self.queues@.len() <= 0xffff
        &&& self.settings_bar < 6
        &&& match self.mem {
            Some(m) => m.wf(),
            None => true,
        }
    }

    /// The guest address the settings BAR was placed at (its low 32 bits).
    pub open spec fn spec_bar0(&self) -> int {
        (spec_u32_from_le_bytes(
            self.config_regs.bytes@.subrange(
                0x10 + 4 * (self.settings_bar as int),
                0x10 + 4 * (self.settings_bar as int) + 4,
            ),
        ) & 0xffff_fff0) as int
    }

    /// Constructs a new PCI transport for the given back-end.
    pub fn new(device: B) -> (r: VirtioPciDevice<B>)
        requires
            device.inv(),
            device.spec_queue_max_sizes().len() <= 0xffff,
        ensures
            r.wf(),
            r.device == device,
            !r.device_activated,
            r.interrupt_status == 0,
            !r.irq_assigned,
            r.mem is None,
            r.settings_bar == 0,
            r.queues@.len() == device.spec_queue_max_sizes().len(),
            forall|i: int|
                0 <= i < r.queues@.len() ==> r.queues@[i] == spec_new_queue(
                    device.spec_queue_max_sizes()[i],
                ),
            r.common_config == (VirtioPciCommonConfig {
                driver_status: 0,
                config_generation: 0,
                device_feature_select: 0,
                driver_feature_select: 0,
                queue_select: 0,
            }),
            r.config_regs.bytes@ == spec_initial_cfg_bytes(
                0x1af4,
                spec_virtio_pci_device_id(device.spec_device_type()),
                0xff,
                0xff,
                0x00,
                0x1af4,
                spec_virtio_pci_device_id(device.spec_device_type()),
            ),
            r.config_regs.writable@ == spec_initial_writable(),
            r.config_regs.num_bars == 0,
            r.config_regs.latest_cap == 0,
            r.config_regs.cap_free == crate::pci::FIRST_CAPABILITY_OFFSET,
    {
        let sizes = device.queue_max_sizes();
        let mut queues: Vec<Queue> = Vec::new();
        let mut i: usize = 0;
        while i < sizes.len()
            invariant
                i <= sizes@.len(),
                sizes@ == device.spec_queue_max_sizes(),
                queues@.len() == i,
                forall|j: int| 0 <= j < i ==> queues@[j] == spec_new_queue(sizes@[j]),
            decreases sizes@.len() - i,
        {
            queues.push(Queue::new(sizes[i]));
            i = i + 1;
        }
        let dt = device.device_type();
        proof {
            assert(dt & 0xffff <= 0xffff) by (bit_vector);
        }
        let pci_device_id = ((0x1040u32 + (dt & 0xffff)) & 0xffff) as u16;
        let config_regs = PciConfiguration::new(
            0x1af4,
            pci_device_id,
            PciClassCode::Other,
            &PciVirtioSubclass::NonTransitionalBase,
            PciHeaderType::Device,
            0x1af4,
            pci_device_id,
        );
        VirtioPciDevice {
            config_regs,
            device,
            device_activated: false,
            interrupt_status: 0,
            irq_assigned: false,
            queues,
            mem: None,
            settings_bar: 0,
            common_config: VirtioPciCommonConfig {
                driver_status: 0,
                config_generation: 0,
                device_feature_select: 0,
                driver_feature_select: 0,
                queue_select: 0,
            },
        }
    }

    /// Assigns a legacy PCI IRQ to this device; the embedding program owns
    /// the interrupt event itself.
    pub fn assign_irq(&mut self, irq_num: u32, irq_pin: PciInterruptPin)
        requires
            old(self).wf(),
        ensures
            final(self).wf(),
            final(self).config_regs.bytes@ == crate::bytes_model::overwrite(
                old(self).config_regs.bytes@,
                0x3c,
                seq![(irq_num & 0xff) as u8, crate::pci::spec_pin_byte(irq_pin)],
            ),
            final(self).config_regs.writable == old(self).config_regs.writable,
            final(self).config_regs.num_bars == old(self).config_regs.num_bars,
            final(self).config_regs.latest_cap == old(self).config_regs.latest_cap,
            final(self).config_regs.cap_free == old(self).config_regs.cap_free,
            final(self).irq_assigned,
            final(self).device == old(self).device,
            final(self).device_activated == old(self).device_activated,
            final(self).interrupt_status == old(self).interrupt_status,
            final(self).queues == old(self).queues,
            final(self).mem == old(self).mem,
            final(self).settings_bar == old(self).settings_bar,
            final(self).common_config == old(self).common_config,
    {
        proof {
            assert(irq_num & 0xff <= 0xff) by (bit_vector);
        }
        self.config_regs.set_irq((irq_num & 0xff) as u8, irq_pin);
        self.irq_assigned = true;
    }

    /// Gives the device guest memory.
    pub fn set_guest_memory(&mut self, mem: GuestMemory)
        requires
            old(self).wf(),
            mem.wf(),
        ensures
            final(self).wf(),
            final(self).mem == Some(mem),
            final(self).config_regs == old(self).config_regs,
            final(self).device == old(self).device,
            final(self).device_activated == old(self).device_activated,
            final(self).interrupt_status == old(self).interrupt_status,
            final(self).irq_assigned == old(self).irq_assigned,
            final(self).queues == old(self).queues,
            final(self).settings_bar == old(self).settings_bar,
            final(self).common_config == old(self).common_config,
    {
        self.mem = Some(mem);
    }

    /// The driver wrote exactly the ready status bits and `FAILED` is clear.
    fn is_driver_ready(&self) -> (r: bool)
        ensures
            r == (self.common_config.driver_status == (DEVICE_ACKNOWLEDGE | DEVICE_DRIVER
                | DEVICE_DRIVER_OK | DEVICE_FEATURES_OK)),
    {
        let ready_bits = DEVICE_ACKNOWLEDGE | DEVICE_DRIVER | DEVICE_DRIVER_OK | DEVICE_FEATURES_OK;
        proof {
            assert((1u8 | 2 | 4 | 8) & 0x80u8 == 0) by (bit_vector);
        }
        self.common_config.driver_status == ready_bits && self.common_config.driver_status
            & DEVICE_FAILED == 0
    }

    /// Guest memory is present and every queue is valid in it.
    fn are_queues_valid(&self) -> (r: bool)
        requires
            self.wf(),
        ensures
            r == spec_queues_valid(self.mem, self.queues@),
    {
        match self.mem.as_ref() {
            Some(m) => {
                let mut i: usize = 0;
                let mut ok = true;
                while i < self.queues.len()
                    invariant
                        i <= self.queues@.len(),
                        m.wf(),
                        *m == self.mem.unwrap(),
                        ok == (forall|j: int|
                            0 <= j < i ==> self.queues@[j].spec_valid(self.mem.unwrap())),
                    decreases self.queues@.len() - i,
                {
                    ok = ok && self.queues[i].is_valid(m);
                    i = i + 1;
                }
                ok
            },
            None => false,
        }
    }

    /// Adds the five vendor capabilities that describe the BAR's windows.
    fn add_pci_capabilities(&mut self, settings_bar: u8)
        requires
            old(self).wf(),
            old(self).config_regs.cap_free == crate::pci::FIRST_CAPABILITY_OFFSET,
            old(self).config_regs.latest_cap == 0,
            settings_bar < 6,
        ensures
            final(self).wf(),
            final(self).config_regs.bytes@ == spec_after_virtio_caps(
                old(self).config_regs.bytes@,
                settings_bar,
            ),
            final(self).config_regs.writable == old(self).config_regs.writable,
            final(self).config_regs.num_bars == old(self).config_regs.num_bars,
            final(self).config_regs.latest_cap == 0x84,
            final(self).config_regs.cap_free == 0x94,
            final(self).settings_bar == settings_bar,
            final(self).device == old(self).device,
            final(self).device_activated == old(self).device_activated,
            final(self).interrupt_status == old(self).interrupt_status,
            final(self).irq_assigned == old(self).irq_assigned,
            final(self).queues == old(self).queues,
            final(self).mem == old(self).mem,
            final(self).common_config == old(self).common_config,
    {
        proof {
            vstd::bytes::lemma_auto_spec_u32_to_from_le_bytes();
        }
        let common_cap = VirtioPciCap::new(
            PciCapabilityType::CommonConfig,
            settings_bar,
            COMMON_CONFIG_BAR_OFFSET as u32,
            COMMON_CONFIG_SIZE as u32,
        );
        let r1 = self.config_regs.add_capability(&common_cap);
        let isr_cap = VirtioPciCap::new(
            PciCapabilityType::IsrConfig,
            settings_bar,
            ISR_CONFIG_BAR_OFFSET as u32,
            ISR_CONFIG_SIZE as u32,
        );
        let r2 = self.config_regs.add_capability(&isr_cap);
        let device_cap = VirtioPciCap::new(
            PciCapabilityType::DeviceConfig,
            settings_bar,
            DEVICE_CONFIG_BAR_OFFSET as u32,
            DEVICE_CONFIG_SIZE as u32,
        );
        let r3 = self.config_regs.add_capability(&device_cap);
        let notify_cap = VirtioPciNotifyCap::new(
            PciCapabilityType::NotifyConfig,
            settings_bar,
            NOTIFICATION_BAR_OFFSET as u32,
            NOTIFICATION_SIZE as u32,
            NOTIFY_OFF_MULTIPLIER,
        );
        let r4 = self.config_regs.add_capability(&notify_cap);
        let configuration_cap = VirtioPciCap::new(PciCapabilityType::PciConfig, 0, 0, 0);
        let r5 = self.config_regs.add_capability(&configuration_cap);
        self.settings_bar = settings_bar;
    }

    /// Allocates the one 16 KiB MMIO BAR holding the four windows, then
    /// publishes the capabilities that describe them. Returns the allocated
    /// `(address, length)` ranges.
    pub fn allocate_io_bars(&mut self, resources: &mut SystemAllocator) -> (r: Result<
        Vec<(u64, u64)>,
        Error,
    >)
        requires
            old(self).wf(),
            old(resources).wf(),
            old(self).config_regs.num_bars == 0,
            old(self).config_regs.cap_free == crate::pci::FIRST_CAPABILITY_OFFSET,
            old(self).config_regs.latest_cap == 0,
        ensures
            final(self).wf(),
            final(resources).wf(),
            final(resources).io_address_space == old(resources).io_address_space,
            final(resources).device_address_space == old(resources).device_address_space,
            final(resources).next_irq == old(resources).next_irq,
            final(resources).mmio_address_space == spec_allocate(
                old(resources).mmio_address_space,
                CAPABILITY_BAR_SIZE,
            ).1,
            r is Ok <==> spec_allocate(
                old(resources).mmio_address_space,
                CAPABILITY_BAR_SIZE,
            ).0 is Some,
            match r {
                Ok(ranges) => {
                    let addr = spec_allocate(
                        old(resources).mmio_address_space,
                        CAPABILITY_BAR_SIZE,
                    ).0.unwrap();
                    &&& ranges@ == seq![(addr, CAPABILITY_BAR_SIZE)]
                    &&& final(self).settings_bar == 0
                    &&& final(self).config_regs.bytes@ == spec_after_virtio_caps(
                        PciConfiguration::spec_after_add_memory_region(
                            old(self).config_regs.bytes@,
                            0,
                            addr,
                        ),
                        0,
                    )
                    &&& final(self).device == old(self).device
                    &&& final(self).device_activated == old(self).device_activated
                    &&& final(self).queues == old(self).queues
                    &&& final(self).mem == old(self).mem
                    &&& final(self).common_config == old(self).common_config
                },
                Err(e) => {
                    &&& e == Error::IoAllocationFailed(CAPABILITY_BAR_SIZE)
                    &&& *final(self) == *old(self)
                },
            },
    {
        let settings_config_addr = match resources.allocate_mmio_addresses(CAPABILITY_BAR_SIZE) {
            Some(a) => a,
            None => {
                return Err(Error::IoAllocationFailed(CAPABILITY_BAR_SIZE));
            },
        };
        proof {
            assert(0x4000u64 & (0x4000u64 - 1) as u64 == 0) by (bit_vector);
        }
        let settings_bar = match self.config_regs.add_memory_region(
            settings_config_addr,
            CAPABILITY_BAR_SIZE,
        ) {
            Some(b) => b,
            None => {
                return Err(Error::IoRegistrationFailed(settings_config_addr));
            },
        };
        self.add_pci_capabilities(settings_bar as u8);
        let mut ranges: Vec<(u64, u64)> = Vec::new();
        ranges.push((settings_config_addr, CAPABILITY_BAR_SIZE));
        proof {
            assert(ranges@ =~= seq![(settings_config_addr, CAPABILITY_BAR_SIZE)]);
        }
        Ok(ranges)
    }

    /// Reads from the BAR: the common window per its register map, the ISR
    /// byte (read-to-clear), the device-specific window, zeros from the
    /// write-only notify window, and nothing elsewhere.
    pub fn read_bar(&mut self, addr: u64, data: &mut Vec<u8>)
        requires
            old(self).wf(),
        ensures
            final(self).wf(),
            final(self).config_regs == old(self).config_regs,
            final(self).device == old(self).device,
            final(self).device_activated == old(self).device_activated,
            final(self).irq_assigned == old(self).irq_assigned,
            final(self).queues == old(self).queues,
            final(self).mem == old(self).mem,
            final(self).settings_bar == old(self).settings_bar,
            final(self).common_config == old(self).common_config,
            ({
                let o = addr - old(self).spec_bar0();
                if 0 <= o < COMMON_CONFIG_SIZE {
                    &&& final(data)@ == spec_common_read(
                        old(self).common_config,
                        old(self).queues@,
                        old(self).device.spec_avail_features(),
                        old(self).device.spec_acked_features(),
                        o,
                        old(data)@,
                    )
                    &&& final(self).interrupt_status == old(self).interrupt_status
                } else if ISR_CONFIG_BAR_OFFSET <= o < ISR_CONFIG_BAR_OFFSET + ISR_CONFIG_SIZE {
                    if old(data)@.len() >= 1 {
                        &&& final(data)@ == old(data)@.update(
                            0,
                            (old(self).interrupt_status & 0xff) as u8,
                        )
                        &&& final(self).interrupt_status == 0
                    } else {
                        &&& final(data)@ == old(data)@
                        &&& final(self).interrupt_status == old(self).interrupt_status
                    }
                } else if DEVICE_CONFIG_BAR_OFFSET <= o < DEVICE_CONFIG_BAR_OFFSET
                    + DEVICE_CONFIG_SIZE {
                    &&& final(data)@ == spec_read_window(
                        old(self).device.spec_config_bytes(),
                        o - DEVICE_CONFIG_BAR_OFFSET,
                        old(data)@.len() as nat,
                    )
                    &&& final(self).interrupt_status == old(self).interrupt_status
                } else if NOTIFICATION_BAR_OFFSET <= o < NOTIFICATION_BAR_OFFSET
                    + NOTIFICATION_SIZE {
                    &&& final(data)@ == Seq::new(old(data)@.len(), |i: int| 0u8)
                    &&& final(self).interrupt_status == old(self).interrupt_status
                } else {
                    &&& final(data)@ == old(data)@
                    &&& final(self).interrupt_status == old(self).interrupt_status
                }
            }),
    {
        let bar0 = self.config_regs.get_bar_addr(self.settings_bar as usize) as u64;
        if addr < bar0 {
            return ;
        }
        let o = addr - bar0;
        if o < COMMON_CONFIG_SIZE {
            self.common_config.read(o, data, &self.queues, &self.device);
        } else if o >= ISR_CONFIG_BAR_OFFSET && o < ISR_CONFIG_BAR_OFFSET + ISR_CONFIG_SIZE {
            if data.len() >= 1 {
                let status = self.interrupt_status;
                proof {
                    assert(status & 0xff <= 0xff) by (bit_vector);
                }
                data[0] = (status & 0xff) as u8;
                self.interrupt_status = 0;
            }
        } else if o >= DEVICE_CONFIG_BAR_OFFSET && o < DEVICE_CONFIG_BAR_OFFSET
            + DEVICE_CONFIG_SIZE {
            self.device.read_config(o - DEVICE_CONFIG_BAR_OFFSET, data);
        } else if o >= NOTIFICATION_BAR_OFFSET && o < NOTIFICATION_BAR_OFFSET + NOTIFICATION_SIZE {
            let n = data.len();
            let mut i: usize = 0;
            while i < n
                invariant
                    n == data@.len(),
                    i <= n,
                    forall|j: int| 0 <= j < i ==> data@[j] == 0u8,
                decreases n - i,
            {
                data[i] = 0;
                i = i + 1;
            }
            proof {
                assert(data@ =~= Seq::new(old(data)@.len(), |i: int| 0u8));
            }
        }
    }

    /// Writes to the BAR: the common window per its register map (feature
    /// acks forwarded to the back-end), write-to-clear on the ISR byte, the
    /// device-specific window, and nothing on the write-only notify window
    /// (notifications arrive out of band). After every write the activation
    /// condition is re-evaluated; on its rising edge guest memory and the
    /// queues move into the back-end, exactly once.
    pub fn write_bar(&mut self, addr: u64, data: &[u8]) -> (dev_mid: Ghost<B>)
        requires
            old(self).wf(),
        ensures
            final(self).wf(),
            final(self).config_regs == old(self).config_regs,
            final(self).irq_assigned == old(self).irq_assigned,
            final(self).settings_bar == old(self).settings_bar,
            final(self).device.spec_avail_features() == old(self).device.spec_avail_features(),
            ({
                let o = addr - old(self).spec_bar0();
                let eff = spec_common_write(
                    old(self).common_config,
                    old(self).queues@,
                    o,
                    data@,
                );
                let in_common = 0 <= o < COMMON_CONFIG_SIZE;
                let in_isr = ISR_CONFIG_BAR_OFFSET <= o < ISR_CONFIG_BAR_OFFSET + ISR_CONFIG_SIZE;
                let in_device = DEVICE_CONFIG_BAR_OFFSET <= o < DEVICE_CONFIG_BAR_OFFSET
                    + DEVICE_CONFIG_SIZE;
                let mid_cc = if in_common {
                    eff.0
                } else {
                    old(self).common_config
                };
                let mid_q = if in_common {
                    eff.1
                } else {
                    old(self).queues@
                };
                let act = spec_ready_for_activate(
                    old(self).device_activated,
                    old(self).irq_assigned,
                    mid_cc,
                    old(self).mem,
                    mid_q,
                );
                &&& final(self).common_config == mid_cc
                &&& final(self).queues@ == mid_q
                &&& final(self).device_activated == (old(self).device_activated || act)
                &&& (act ==> final(self).mem is None)
                &&& (!act ==> final(self).mem == old(self).mem)
                &&& final(self).interrupt_status == (if in_isr && data@.len() >= 1 {
                    old(self).interrupt_status & !(data@[0] as u32)
                } else {
                    old(self).interrupt_status
                })
                &&& final(self).device.spec_acked_features() == (if in_common && eff.2 is Some {
                    spec_acked_after(
                        old(self).device.spec_avail_features(),
                        old(self).device.spec_acked_features(),
                        eff.2.unwrap().0,
                        eff.2.unwrap().1,
                    )
                } else {
                    old(self).device.spec_acked_features()
                })
                &&& (!in_device ==> final(self).device.spec_config_bytes() == old(
                    self,
                ).device.spec_config_bytes())
                &&& (!act ==> final(self).device.spec_activated() == old(
                    self,
                ).device.spec_activated())
                // `dev_mid` is the back-end exactly as the window dispatch
                // left it; the dispatch itself never activates.
                &&& dev_mid@.inv()
                &&& dev_mid@.spec_activated() == old(self).device.spec_activated()
                &&& dev_mid@.spec_avail_features() == old(self).device.spec_avail_features()
                &&& dev_mid@.spec_acked_features() == final(self).device.spec_acked_features()
                &&& (!in_device ==> dev_mid@.spec_config_bytes() == old(
                    self,
                ).device.spec_config_bytes())
                &&& (!act ==> final(self).device == dev_mid@)
                // On the rising edge the back-end receives guest memory and
                // the configured queues through its activation contract,
                // exactly once.
                &&& (act ==> final(self).device == (if dev_mid@.spec_activated() {
                    dev_mid@
                } else if dev_mid@.spec_accepts(old(self).mem.unwrap(), mid_q) {
                    dev_mid@.spec_after_activate(old(self).mem.unwrap(), mid_q)
                } else {
                    dev_mid@
                }))
                &&& (act ==> final(self).device.spec_activated() == (dev_mid@.spec_activated()
                    || dev_mid@.spec_accepts(old(self).mem.unwrap(), mid_q)))
            }),
    {
        let bar0 = self.config_regs.get_bar_addr(self.settings_bar as usize) as u64;
        if addr >= bar0 {
            let o = addr - bar0;
            if o < COMMON_CONFIG_SIZE {
                self.common_config.write(o, data, &mut self.queues, &mut self.device);
            } else if o >= ISR_CONFIG_BAR_OFFSET && o < ISR_CONFIG_BAR_OFFSET + ISR_CONFIG_SIZE {
                if data.len() >= 1 {
                    self.interrupt_status = self.interrupt_status & !(data[0] as u32);
                }
            } else if o >= DEVICE_CONFIG_BAR_OFFSET && o < DEVICE_CONFIG_BAR_OFFSET
                + DEVICE_CONFIG_SIZE {
                self.device.write_config(o - DEVICE_CONFIG_BAR_OFFSET, data);
            }
        }
        let ghost dev_mid = self.device;
        if !self.device_activated && self.is_driver_ready() && self.irq_assigned
            && self.are_queues_valid() {
            match self.mem.take() {
                Some(m) => {
                    let qs = clone_queues(&self.queues);
                    self.device.activate(m, qs);
                    self.device_activated = true;
                },
                None => {
                    proof {
                        assert(false);
                    }
                },
            }
        }
        Ghost(dev_mid)
    }

    /// The driver notified queue `queue_index`: the back-end processes it,
    /// and if completions were published the used-ring interrupt bit is
    /// raised — the caller then signals the interrupt event.
    pub fn on_queue_notify(&mut self, queue_index: u32) -> (r: bool)
        requires
            old(self).wf(),
        ensures
            final(self).wf(),
            final(self).config_regs == old(self).config_regs,
            final(self).device_activated == old(self).device_activated,
            final(self).irq_assigned == old(self).irq_assigned,
            final(self).queues == old(self).queues,
            final(self).mem == old(self).mem,
            final(self).settings_bar == old(self).settings_bar,
            final(self).common_config == old(self).common_config,
            final(self).device.spec_avail_features() == old(self).device.spec_avail_features(),
            final(self).device.spec_acked_features() == old(self).device.spec_acked_features(),
            final(self).device.spec_config_bytes() == old(self).device.spec_config_bytes(),
            final(self).device.spec_activated() == old(self).device.spec_activated(),
            old(self).device.spec_notify_rel(queue_index, final(self).device, r),
            r ==> final(self).interrupt_status == (old(self).interrupt_status
                | INTERRUPT_STATUS_USED_RING),
            !r ==> final(self).interrupt_status == old(self).interrupt_status,
    {
        let r = self.device.queue_notify(queue_index);
        if r {
            self.interrupt_status = self.interrupt_status | INTERRUPT_STATUS_USED_RING;
        }
        r
    }

    /// The guest addresses whose writes notify the queues: queue `i` is
    /// notified at `notify window + i * NOTIFY_OFF_MULTIPLIER`. The
    /// embedding program registers its queue event descriptors at these
    /// addresses with the hypervisor.
    pub fn notify_addresses(&self) -> (r: Vec<u64>)
        requires
            self.wf(),
        ensures
            r@.len() == self.queues@.len(),
            forall|i: int|
                0 <= i < r@.len() ==> r@[i] == self.spec_bar0() + NOTIFICATION_BAR_OFFSET + i
                    * NOTIFY_OFF_MULTIPLIER,
    {
        let bar0 = self.config_regs.get_bar_addr(self.settings_bar as usize) as u64;
        let mut out: Vec<u64> = Vec::new();
        let mut i: usize = 0;
        while i < self.queues.len()
            invariant
                i <= self.queues@.len(),
                bar0 == self.spec_bar0(),
                self.queues@.len() <= 0xffff,
                out@.len() == i,
                forall|j: int|
                    0 <= j < i ==> out@[j] == bar0 + NOTIFICATION_BAR_OFFSET + j
                        * NOTIFY_OFF_MULTIPLIER,
            decreases self.queues@.len() - i,
        {
            out.push(bar0 + NOTIFICATION_BAR_OFFSET + (i as u64) * (NOTIFY_OFF_MULTIPLIER as u64));
            i = i + 1;
        }
        out
    }

    /// Reads 32-bit register `reg_idx` of the PCI configuration space.
    pub fn config_register_read(&self, reg_idx: usize) -> (r: u32)
        requires
            self.wf(),
        ensures
            reg_idx < 64 ==> r == spec_u32_from_le_bytes(
                self.config_regs.bytes@.subrange(4 * reg_idx, 4 * reg_idx + 4),
            ),
            reg_idx >= 64 ==> r == 0,
    {
        self.config_regs.config_register_read(reg_idx)
    }

    /// Dispatches a guest write of 1, 2 or 4 bytes into the PCI
    /// configuration space.
    pub fn config_register_write(&mut self, reg_idx: usize, offset: usize, data: &[u8])
        requires
            old(self).wf(),
        ensures
            final(self).wf(),
            final(self).device == old(self).device,
            final(self).device_activated == old(self).device_activated,
            final(self).interrupt_status == old(self).interrupt_status,
            final(self).irq_assigned == old(self).irq_assigned,
            final(self).queues == old(self).queues,
            final(self).mem == old(self).mem,
            final(self).settings_bar == old(self).settings_bar,
            final(self).common_config == old(self).common_config,
            final(self).config_regs.writable == old(self).config_regs.writable,
            (reg_idx < 64 && offset + data@.len() <= 4 && (data@.len() == 1 || (data@.len() == 2
                && offset % 2 == 0) || data@.len() == 4)) ==> final(self).config_regs.bytes@
                == crate::pci::spec_masked_write(
                old(self).config_regs.bytes@,
                old(self).config_regs.writable@,
                4 * reg_idx + offset,
                data@,
            ),
    {
        self.config_regs.config_register_write(reg_idx, offset, data);
    }
}

} // verus!

