//! An address-range allocator: hands out non-overlapping, aligned,
//! monotonically increasing sub-ranges of one address range. Nothing is
//! ever freed; the allocator lives as long as the process.

use vstd::prelude::*;

verus! {

/// Allocates aligned sub-ranges of `[base, end]`, never reusing space.
#[derive(Clone, Copy, Debug, PartialEq, Eq, Structural)]
pub struct AddressAllocator {
    /// First address of the range.
    pub base: u64,
    /// Last address of the range (inclusive).
    pub end: u64,
    /// Alignment of every returned address; a power of two.
    pub alignment: u64,
    /// Next candidate address.
    pub next: u64,
    /// The range is exhausted up to the very top of the address space.
    pub full: bool,
}

/// `x` rounded up to the next multiple of `align`.
pub open spec fn spec_align_up(x: int, align: int) -> int
    recommends
        align >= 1,
{
    if x % align == 0 {
        x
    } else {
        x + align - (x % align)
    }
}

/// The allocator `a` is internally consistent.
pub open spec fn spec_allocator_wf(a: AddressAllocator) -> bool {
    &&& a.alignment >= 1
    &&& (a.alignment & (a.alignment - 1) as u64) == 0
    &&& a.base <= a.next
}

/// The result of `AddressAllocator::new`.
pub open spec fn spec_new_allocator(base: u64, size: u64, alignment: u64) -> Option<
    AddressAllocator,
> {
    if size == 0 || alignment == 0 || (alignment & (alignment - 1) as u64) != 0 || base + size - 1
        > u64::MAX {
        None
    } else {
        Some(
            AddressAllocator {
                base,
                end: (base + size - 1) as u64,
                alignment,
                next: base,
                full: false,
            },
        )
    }
}

/// The result and successor state of `AddressAllocator::allocate`.
pub open spec fn spec_allocate(a: AddressAllocator, size: u64) -> (Option<u64>, AddressAllocator) {
    if size == 0 || a.full {
        (None::<u64>, a)
    } else {
        let aligned = spec_align_up(a.next as int, a.alignment as int);
        if aligned + size - 1 <= a.end {
            if aligned + size <= u64::MAX {
                (
                    Some(aligned as u64),
                    AddressAllocator {
                        base: a.base,
                        end: a.end,
                        alignment: a.alignment,
                        next: (aligned + size) as u64,
                        full: false,
                    },
                )
            } else {
                (
                    Some(aligned as u64),
                    AddressAllocator {
                        base: a.base,
                        end: a.end,
                        alignment: a.alignment,
                        next: u64::MAX,
                        full: true,
                    },
                )
            }
        } else {
            (None::<u64>, a)
        }
    }
}

impl AddressAllocator {
    /// Creates an allocator over `[base, base + size)` whose allocations are
    /// aligned to `alignment`; fails when the size is zero, the alignment is
    /// not a non-zero power of two, or the range's end overflows.
    pub fn new(base: u64, size: u64, alignment: Option<u64>) -> (r: Option<AddressAllocator>)
        ensures
            r == spec_new_allocator(base, size, alignment.unwrap_or(4)),
            match r {
                Some(a) => spec_allocator_wf(a),
                None => true,
            },
    {
        let alignment: u64 = match alignment {
            Some(a) => a,
            None => 4,
        };
        if size == 0 || alignment == 0 || (alignment & (alignment - 1)) != 0 {
            return None;
        }
        if size - 1 > u64::MAX - base {
            return None;
        }
        Some(AddressAllocator { base, end: base + (size - 1), alignment, next: base, full: false })
    }

    /// Returns the next aligned address whose `size` bytes fit in the
    /// remaining range, advancing past them; fails when `size` is zero, the
    /// aligned address overflows, or the range is exhausted.
    pub fn allocate(&mut self, size: u64) -> (r: Option<u64>)
        requires
            spec_allocator_wf(*old(self)),
        ensures
            spec_allocator_wf(*final(self)),
            r == spec_allocate(*old(self), size).0,
            *final(self) == spec_allocate(*old(self), size).1,
            match r {
                Some(addr) => {
                    &&& addr % old(self).alignment == 0
                    &&& old(self).next <= addr
                    &&& addr + size - 1 <= old(self).end
                },
                None => true,
            },
    {
        if size == 0 || self.full {
            return None;
        }
        let rem = self.next % self.alignment;
        let aligned: u64 = if rem == 0 {
            self.next
        } else {
            let pad = self.alignment - rem;
            if self.next > u64::MAX - pad {
                return None;
            }
            self.next + pad
        };
        if aligned > self.end || size - 1 > self.end - aligned {
            return None;
        }
        proof {
            let a = self.alignment as int;
            let n = old(self).next as int;
            if n % a != 0 {
                vstd::arithmetic::div_mod::lemma_fundamental_div_mod(n, a);
                assert((n / a + 1) * a == (n / a) * a + a) by (nonlinear_arith);
                vstd::arithmetic::div_mod::lemma_mod_multiples_basic(n / a + 1, a);
            }
        }
        if size > u64::MAX - aligned {
            self.next = u64::MAX;
            self.full = true;
        } else {
            self.next = aligned + size;
        }
        Some(aligned)
    }
}

} // verus!
