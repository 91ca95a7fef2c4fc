//! Manages allocating system resources: I/O-port space, device memory,
//! MMIO space, and monotonically increasing IRQ numbers.

use vstd::prelude::*;
use crate::address_allocator::AddressAllocator;
use crate::address_allocator::spec_allocate;
use crate::address_allocator::spec_allocator_wf;
use crate::address_allocator::spec_new_allocator;

verus! {

/// Page size the device and MMIO spaces are aligned to.
pub const PAGE_SIZE: u64 = 4096;

/// Alignment of I/O-port allocations.
pub const IO_ALIGNMENT: u64 = 0x400;

/// Hands out non-overlapping ranges of I/O-port space, device memory and
/// MMIO space, plus IRQ numbers.
#[derive(Clone, Copy, Debug, PartialEq, Eq, Structural)]
pub struct SystemAllocator {
    pub io_address_space: AddressAllocator,
    pub device_address_space: AddressAllocator,
    pub mmio_address_space: AddressAllocator,
    pub next_irq: u32,
}

impl SystemAllocator {
    /// All three range allocators are internally consistent.
    pub open spec fn wf(&self) -> bool {
        &&& spec_allocator_wf(self.io_address_space)
        &&& spec_allocator_wf(self.device_address_space)
        &&& spec_allocator_wf(self.mmio_address_space)
    }

    /// Creates a `SystemAllocator` over the three given ranges, handing out
    /// IRQs from `first_irq`. Fails when a range's end overflows or a size
    /// is zero.
    fn new(
        io_base: u64,
        io_size: u64,
        dev_base: u64,
        dev_size: u64,
        mmio_base: u64,
        mmio_size: u64,
        first_irq: u32,
    ) -> (r: Option<SystemAllocator>)
        ensures
            r is Some <==> (spec_new_allocator(io_base, io_size, IO_ALIGNMENT) is Some
                && spec_new_allocator(dev_base, dev_size, PAGE_SIZE) is Some && spec_new_allocator(
                mmio_base,
                mmio_size,
                PAGE_SIZE,
            ) is Some),
            match r {
                Some(s) => {
                    &&& s.wf()
                    &&& Some(s.io_address_space) == spec_new_allocator(
                        io_base,
                        io_size,
                        IO_ALIGNMENT,
                    )
                    &&& Some(s.device_address_space) == spec_new_allocator(
                        dev_base,
                        dev_size,
                        PAGE_SIZE,
                    )
                    &&& Some(s.mmio_address_space) == spec_new_allocator(
                        mmio_base,
                        mmio_size,
                        PAGE_SIZE,
                    )
                    &&& s.next_irq == first_irq
                },
                None => true,
            },
    {
        let io_address_space = match AddressAllocator::new(io_base, io_size, Some(IO_ALIGNMENT)) {
            Some(a) => a,
            None => {
                return None;
            },
        };
        let device_address_space = match AddressAllocator::new(dev_base, dev_size, Some(PAGE_SIZE)) {
            Some(a) => a,
            None => {
                return None;
            },
        };
        let mmio_address_space = match AddressAllocator::new(mmio_base, mmio_size, Some(PAGE_SIZE)) {
            Some(a) => a,
            None => {
                return None;
            },
        };
        Some(
            SystemAllocator {
                io_address_space,
                device_address_space,
                mmio_address_space,
                next_irq: first_irq,
            },
        )
    }

    /// Reserves the next available system IRQ number; fails when the IRQ
    /// counter would overflow.
    pub fn allocate_irq(&mut self) -> (r: Option<u32>)
        ensures
            final(self).io_address_space == old(self).io_address_space,
            final(self).device_address_space == old(self).device_address_space,
            final(self).mmio_address_space == old(self).mmio_address_space,
            r is Some <==> old(self).next_irq < u32::MAX,
            match r {
                Some(irq) => {
                    &&& irq == old(self).next_irq
                    &&& final(self).next_irq == old(self).next_irq + 1
                },
                None => final(self).next_irq == old(self).next_irq,
            },
    {
        if self.next_irq < u32::MAX {
            let irq = self.next_irq;
            self.next_irq = irq + 1;
            Some(irq)
        } else {
            None
        }
    }

    /// Reserves `size` bytes of I/O-port address space.
    pub fn allocate_io_addresses(&mut self, size: u64) -> (r: Option<u64>)
        requires
            old(self).wf(),
        ensures
            final(self).wf(),
            final(self).device_address_space == old(self).device_address_space,
            final(self).mmio_address_space == old(self).mmio_address_space,
            final(self).next_irq == old(self).next_irq,
            r == spec_allocate(old(self).io_address_space, size).0,
            final(self).io_address_space == spec_allocate(old(self).io_address_space, size).1,
    {
        self.io_address_space.allocate(size)
    }

    /// Reserves `size` bytes of device address space.
    pub fn allocate_device_addresses(&mut self, size: u64) -> (r: Option<u64>)
        requires
            old(self).wf(),
        ensures
            final(self).wf(),
            final(self).io_address_space == old(self).io_address_space,
            final(self).mmio_address_space == old(self).mmio_address_space,
            final(self).next_irq == old(self).next_irq,
            r == spec_allocate(old(self).device_address_space, size).0,
            final(self).device_address_space == spec_allocate(
                old(self).device_address_space,
                size,
            ).1,
    {
        self.device_address_space.allocate(size)
    }

    /// Reserves `size` bytes of MMIO address space.
    pub fn allocate_mmio_addresses(&mut self, size: u64) -> (r: Option<u64>)
        requires
            old(self).wf(),
        ensures
            final(self).wf(),
            final(self).io_address_space == old(self).io_address_space,
            final(self).device_address_space == old(self).device_address_space,
            final(self).next_irq == old(self).next_irq,
            r == spec_allocate(old(self).mmio_address_space, size).0,
            final(self).mmio_address_space == spec_allocate(old(self).mmio_address_space, size).1,
    {
        self.mmio_address_space.allocate(size)
    }
}

/// Builds a system address map for creating a `SystemAllocator`.
#[derive(Clone, Copy, Debug, PartialEq, Eq, Structural)]
pub struct AddressRanges {
    pub io_base: Option<u64>,
    pub io_size: Option<u64>,
    pub mmio_base: Option<u64>,
    pub mmio_size: Option<u64>,
    pub device_base: Option<u64>,
    pub device_size: Option<u64>,
}

impl AddressRanges {
    /// An address map with no ranges set.
    pub fn new() -> (r: AddressRanges)
        ensures
            r == (AddressRanges {
                io_base: None::<u64>,
                io_size: None::<u64>,
                mmio_base: None::<u64>,
                mmio_size: None::<u64>,
                device_base: None::<u64>,
                device_size: None::<u64>,
            }),
    {
        AddressRanges {
            io_base: None,
            io_size: None,
            mmio_base: None,
            mmio_size: None,
            device_base: None,
            device_size: None,
        }
    }

    /// Sets the I/O-port range.
    pub fn add_io_addresses(self, base: u64, size: u64) -> (r: AddressRanges)
        ensures
            r == (AddressRanges { io_base: Some(base), io_size: Some(size), ..self }),
    {
        AddressRanges { io_base: Some(base), io_size: Some(size), ..self }
    }

    /// Sets the MMIO range.
    pub fn add_mmio_addresses(self, base: u64, size: u64) -> (r: AddressRanges)
        ensures
            r == (AddressRanges { mmio_base: Some(base), mmio_size: Some(size), ..self }),
    {
        AddressRanges { mmio_base: Some(base), mmio_size: Some(size), ..self }
    }

    /// Sets the device memory range.
    pub fn add_device_addresses(self, base: u64, size: u64) -> (r: AddressRanges)
        ensures
            r == (AddressRanges { device_base: Some(base), device_size: Some(size), ..self }),
    {
        AddressRanges { device_base: Some(base), device_size: Some(size), ..self }
    }

    /// Creates the allocator, handing out IRQs from `first_irq`; fails when
    /// a range is missing or invalid.
    pub fn create_allocator(&self, first_irq: u32) -> (r: Option<SystemAllocator>)
        ensures
            (self.io_base is Some && self.io_size is Some && self.device_base is Some
                && self.device_size is Some && self.mmio_base is Some && self.mmio_size is Some)
                ==> {
                let io = spec_new_allocator(
                    self.io_base.unwrap(),
                    self.io_size.unwrap(),
                    IO_ALIGNMENT,
                );
                let dev = spec_new_allocator(
                    self.device_base.unwrap(),
                    self.device_size.unwrap(),
                    PAGE_SIZE,
                );
                let mmio = spec_new_allocator(
                    self.mmio_base.unwrap(),
                    self.mmio_size.unwrap(),
                    PAGE_SIZE,
                );
                &&& (r is Some <==> (io is Some && dev is Some && mmio is Some))
                &&& match r {
                    Some(s) => {
                        &&& s.wf()
                        &&& Some(s.io_address_space) == io
                        &&& Some(s.device_address_space) == dev
                        &&& Some(s.mmio_address_space) == mmio
                        &&& s.next_irq == first_irq
                    },
                    None => true,
                }
            },
            !(self.io_base is Some && self.io_size is Some && self.device_base is Some
                && self.device_size is Some && self.mmio_base is Some && self.mmio_size is Some)
                ==> r is None,
    {
        let io_base = match self.io_base {
            Some(v) => v,
            None => {
                return None;
            },
        };
        let io_size = match self.io_size {
            Some(v) => v,
            None => {
                return None;
            },
        };
        let device_base = match self.device_base {
            Some(v) => v,
            None => {
                return None;
            },
        };
        let device_size = match self.device_size {
            Some(v) => v,
            None => {
                return None;
            },
        };
        let mmio_base = match self.mmio_base {
            Some(v) => v,
            None => {
                return None;
            },
        };
        let mmio_size = match self.mmio_size {
            Some(v) => v,
            None => {
                return None;
            },
        };
        SystemAllocator::new(
            io_base,
            io_size,
            device_base,
            device_size,
            mmio_base,
            mmio_size,
            first_irq,
        )
    }
}

} // verus!
