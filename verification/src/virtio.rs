//! The virtio back-end interface: what the PCI transport needs from any
//! device — feature negotiation, a device-specific configuration window,
//! the activation handshake and queue notifications.

use vstd::prelude::*;
use crate::guest_mem::GuestMemory;
use crate::queue::Queue;

verus! {

/// Device type of a virtio block device.
pub const TYPE_BLOCK: u32 = 2;

/// Interrupt-status bit: the device used some available descriptors.
pub const INTERRUPT_STATUS_USED_RING: u32 = 1;

/// One 32-bit page of a 64-bit feature bitmap: page 0 holds bits 0..31,
/// page 1 bits 32..63, every other page is empty.
pub open spec fn spec_features_page(features: u64, page: u32) -> u32 {
    if page == 0 {
        (features & 0xffff_ffff) as u32
    } else if page == 1 {
        (features >> 32) as u32
    } else {
        0
    }
}

/// The acked-features bitmap after the driver writes `value` to feature page
/// `page`: the written bits are added, restricted to bits the device offers.
pub open spec fn spec_acked_after(avail: u64, acked: u64, page: u32, value: u32) -> u64 {
    if page == 0 {
        acked | ((value as u64) & avail)
    } else if page == 1 {
        acked | (((value as u64) << 32) & avail)
    } else {
        acked
    }
}

/// Feature masking: whatever page the driver writes and whatever bits it
/// sets, a feature bit the device does not offer never enters the
/// acked-features bitmap.
pub proof fn lemma_feature_masking(avail: u64, acked: u64, page: u32, value: u32, b: u64)
    requires
        b < 64,
        avail & (1u64 << b) == 0,
        acked & (1u64 << b) == 0,
    ensures
        spec_acked_after(avail, acked, page, value) & (1u64 << b) == 0,
{
    if page == 0 {
        let v: u64 = value as u64;
        assert(avail & (1u64 << b) == 0 && acked & (1u64 << b) == 0 ==> (acked | (v & avail)) & (
        1u64 << b) == 0) by (bit_vector);
    } else if page == 1 {
        let v: u64 = value as u64;
        assert(avail & (1u64 << b) == 0 && acked & (1u64 << b) == 0 ==> (acked | ((v << 32)
            & avail)) & (1u64 << b) == 0) by (bit_vector);
    }
}

/// A read of `n` bytes at `offset` of the window `bytes`, zero-extended
/// past the end of the window.
pub open spec fn spec_read_window(bytes: Seq<u8>, offset: int, n: nat) -> Seq<u8> {
    Seq::new(n, |i: int| if 0 <= offset + i < bytes.len() { bytes[offset + i] } else { 0u8 })
}

/// A virtio device back-end. The transport drives feature negotiation and
/// the configuration window through this interface and hands the queues
/// over exactly once at activation.
pub trait VirtioDevice: Sized {
    /// The feature bitmap the device offers.
    spec fn spec_avail_features(&self) -> u64;

    /// The feature bits the driver has acked so far.
    spec fn spec_acked_features(&self) -> u64;

    /// The bytes of the device-specific configuration window.
    spec fn spec_config_bytes(&self) -> Seq<u8>;

    /// Whether the device has been activated.
    spec fn spec_activated(&self) -> bool;

    /// Whether a fresh activation with these resources takes effect: the
    /// device holds its resources to hand over and the queues fit it.
    spec fn spec_accepts(&self, mem: GuestMemory, queues: Seq<Queue>) -> bool;

    /// The device after a fresh activation that took effect.
    spec fn spec_after_activate(&self, mem: GuestMemory, queues: Seq<Queue>) -> Self;

    /// How a queue notification may change the device: `post` and `r` are a
    /// possible outcome of processing queue `queue_index` from this state.
    /// An implementor pins this down to its queue-processing contract.
    spec fn spec_notify_rel(&self, queue_index: u32, post: Self, r: bool) -> bool;

    /// Implementation-specific well-formedness.
    spec fn inv(&self) -> bool;

    /// The virtio device type.
    spec fn spec_device_type(&self) -> u32;

    /// The maximal sizes of the device's queues, one entry per queue.
    spec fn spec_queue_max_sizes(&self) -> Seq<u16>;

    /// One 32-bit page of the offered feature bitmap.
    fn features(&self, page: u32) -> (r: u32)
        requires
            self.inv(),
        ensures
            r == spec_features_page(self.spec_avail_features(), page),
    ;

    /// One 32-bit page of the acked feature bitmap.
    fn acked_features_page(&self, page: u32) -> (r: u32)
        requires
            self.inv(),
        ensures
            r == spec_features_page(self.spec_acked_features(), page),
    ;

    /// Acks the feature bits of `value` on page `page`, restricted to bits
    /// the device offers.
    fn ack_features(&mut self, page: u32, value: u32)
        requires
            old(self).inv(),
        ensures
            final(self).inv(),
            final(self).spec_acked_features() == spec_acked_after(
                old(self).spec_avail_features(),
                old(self).spec_acked_features(),
                page,
                value,
            ),
            final(self).spec_avail_features() == old(self).spec_avail_features(),
            final(self).spec_config_bytes() == old(self).spec_config_bytes(),
            final(self).spec_activated() == old(self).spec_activated(),
    ;

    /// The virtio device type.
    fn device_type(&self) -> (r: u32)
        ensures
            r == self.spec_device_type(),
    ;

    /// The maximal sizes of the device's queues, one entry per queue.
    fn queue_max_sizes(&self) -> (r: Vec<u16>)
        ensures
            r@ == self.spec_queue_max_sizes(),
    ;

    /// Reads from the device-specific configuration window into `data`,
    /// zero-extended past the end of the window.
    fn read_config(&self, offset: u64, data: &mut Vec<u8>)
        requires
            self.inv(),
        ensures
            final(data)@ == spec_read_window(
                self.spec_config_bytes(),
                offset as int,
                old(data)@.len() as nat,
            ),
    ;

    /// Writes to the device-specific configuration window.
    fn write_config(&mut self, offset: u64, data: &[u8])
        requires
            old(self).inv(),
        ensures
            final(self).inv(),
            final(self).spec_avail_features() == old(self).spec_avail_features(),
            final(self).spec_acked_features() == old(self).spec_acked_features(),
            final(self).spec_activated() == old(self).spec_activated(),
    ;

    /// Hands guest memory and the configured queues to the device, which
    /// starts its processing state. A fresh activation with acceptable
    /// resources leaves exactly `spec_after_activate`; one with
    /// unacceptable resources is a no-op; and activation is idempotent:
    /// once the device is activated, a further call changes nothing.
    fn activate(&mut self, mem: GuestMemory, queues: Vec<Queue>)
        requires
            old(self).inv(),
        ensures
            final(self).inv(),
            final(self).spec_avail_features() == old(self).spec_avail_features(),
            final(self).spec_acked_features() == old(self).spec_acked_features(),
            final(self).spec_config_bytes() == old(self).spec_config_bytes(),
            old(self).spec_activated() ==> *final(self) == *old(self),
            !old(self).spec_activated() ==> *final(self) == (if old(self).spec_accepts(
                mem,
                queues@,
            ) {
                old(self).spec_after_activate(mem, queues@)
            } else {
                *old(self)
            }),
            final(self).spec_activated() == (old(self).spec_activated() || old(self).spec_accepts(
                mem,
                queues@,
            )),
    ;

    /// The driver notified queue `queue_index`: process it. Returns whether
    /// the device put entries on a used ring, in which case the caller
    /// raises the used-ring interrupt.
    fn queue_notify(&mut self, queue_index: u32) -> (r: bool)
        requires
            old(self).inv(),
        ensures
            final(self).inv(),
            final(self).spec_avail_features() == old(self).spec_avail_features(),
            final(self).spec_acked_features() == old(self).spec_acked_features(),
            final(self).spec_config_bytes() == old(self).spec_config_bytes(),
            final(self).spec_activated() == old(self).spec_activated(),
            old(self).spec_notify_rel(queue_index, *final(self), r),
    ;
}

} // verus!
