//! Core of a user-space virtual machine monitor's paravirtualized device
//! stack: a virtio-over-PCI transport, a virtio block device back-end with
//! its split-ring virtqueue, the PCI configuration space it is published
//! through, the address allocator that places its BAR, and the wire codec of
//! the VM control socket.

pub mod address_allocator;
pub mod block;
pub mod bytes_model;
pub mod disk;
pub mod guest_mem;
pub mod pci;
pub mod queue;
pub mod system_allocator;
pub mod virtio;
pub mod vm_control;
pub mod virtio_pci;
