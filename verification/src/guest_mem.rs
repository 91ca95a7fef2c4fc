//! Guest physical memory, modelled as one contiguous region of bytes at a
//! base address. Every access is bounds-checked and returns a typed error on
//! failure; nothing ever indexes the region without a check.

use vstd::prelude::*;
use vstd::bytes::u16_from_le_bytes;
use vstd::bytes::u32_from_le_bytes;
use vstd::bytes::u64_from_le_bytes;
use vstd::bytes::u16_to_le_bytes;
use vstd::bytes::u32_to_le_bytes;
use vstd::bytes::u64_to_le_bytes;
use vstd::bytes::spec_u16_from_le_bytes;
use vstd::bytes::spec_u32_from_le_bytes;
use vstd::bytes::spec_u64_from_le_bytes;
use vstd::bytes::spec_u16_to_le_bytes;
use vstd::bytes::spec_u32_to_le_bytes;
use vstd::bytes::spec_u64_to_le_bytes;
use crate::bytes_model::overwrite;

verus! {

/// A guest physical address: a 64-bit opaque integer.
#[derive(Clone, Copy, Debug, PartialEq, Eq, Structural)]
pub struct GuestAddress(pub u64);

/// Error returned by a guest memory access whose range does not lie inside
/// guest memory.
#[derive(Clone, Copy, Debug, PartialEq, Eq, Structural)]
pub enum GuestMemoryError {
    /// The access touched `[addr, addr + len)` and some part of that range is
    /// outside guest memory; the offending start address is carried along.
    InvalidGuestAddress(GuestAddress),
}

/// Guest memory: `bytes.len()` bytes of guest-visible memory starting at
/// guest physical address `base`.
pub struct GuestMemory {
    base: u64,
    bytes: Vec<u8>,
}

impl View for GuestMemory {
    type V = Seq<u8>;

    closed spec fn view(&self) -> Seq<u8> {
        self.bytes@
    }
}

impl GuestMemory {
    /// The guest physical address of the first byte.
    pub closed spec fn spec_base(&self) -> u64 {
        self.base
    }

    /// Well-formed: the end address `base + len` is still expressible as a
    /// `u64`, so range arithmetic never overflows.
    pub open spec fn wf(&self) -> bool {
        self.spec_base() + self@.len() <= u64::MAX
    }

    /// The whole of `[addr, addr + n)` lies inside guest memory.
    pub open spec fn range_ok(&self, addr: int, n: int) -> bool {
        &&& self.spec_base() <= addr
        &&& addr - self.spec_base() + n <= self@.len()
    }

    /// Index into the byte sequence corresponding to address `addr`.
    pub open spec fn idx_of(&self, addr: int) -> int {
        addr - self.spec_base()
    }

    /// The byte at guest address `addr`.
    pub open spec fn byte_at(&self, addr: int) -> u8
        recommends
            self.range_ok(addr, 1),
    {
        self@[self.idx_of(addr)]
    }

    /// The little-endian 16-bit word at guest address `addr`.
    pub open spec fn u16_at(&self, addr: int) -> u16
        recommends
            self.range_ok(addr, 2),
    {
        spec_u16_from_le_bytes(self@.subrange(self.idx_of(addr), self.idx_of(addr) + 2))
    }

    /// The little-endian 32-bit word at guest address `addr`.
    pub open spec fn u32_at(&self, addr: int) -> u32
        recommends
            self.range_ok(addr, 4),
    {
        spec_u32_from_le_bytes(self@.subrange(self.idx_of(addr), self.idx_of(addr) + 4))
    }

    /// The little-endian 64-bit word at guest address `addr`.
    pub open spec fn u64_at(&self, addr: int) -> u64
        recommends
            self.range_ok(addr, 8),
    {
        spec_u64_from_le_bytes(self@.subrange(self.idx_of(addr), self.idx_of(addr) + 8))
    }

    /// Exec test for `wf`.
    pub fn is_wf(&self) -> (r: bool)
        ensures
            r == self.wf(),
    {
        self.bytes.len() as u64 <= u64::MAX - self.base
    }

    /// Exec test for `range_ok`.
    pub fn check_range(&self, addr: GuestAddress, n: u64) -> (r: bool)
        requires
            self.wf(),
        ensures
            r == self.range_ok(addr.0 as int, n as int),
    {
        let blen = self.bytes.len() as u64;
        addr.0 >= self.base && addr.0 - self.base <= blen && n <= blen - (addr.0 - self.base)
    }

    /// Creates `size` bytes of zeroed guest memory at `base`, unless the end
    /// address would overflow.
    pub fn new(base: u64, size: usize) -> (r: Option<GuestMemory>)
        ensures
            r is Some <==> base + size <= u64::MAX,
            match r {
                Some(m) => {
                    &&& m.wf()
                    &&& m.spec_base() == base
                    &&& m@ =~= Seq::new(size as nat, |i: int| 0u8)
                },
                None => true,
            },
    {
        if size as u64 <= u64::MAX - base {
            let bytes: Vec<u8> = vec![0u8; size];
            Some(GuestMemory { base, bytes })
        } else {
            None
        }
    }

    /// Number of bytes of guest memory.
    pub fn len(&self) -> (r: usize)
        ensures
            r == self@.len(),
    {
        self.bytes.len()
    }

    /// The guest physical address of the first byte.
    pub fn base_addr(&self) -> (r: u64)
        ensures
            r == self.spec_base(),
    {
        self.base
    }

    /// `addr + offset` if that is still the address of a byte of guest
    /// memory, `None` on overflow or escape from the region.
    pub fn checked_offset(&self, addr: GuestAddress, offset: u64) -> (r: Option<GuestAddress>)
        requires
            self.wf(),
        ensures
            r is Some <==> self.spec_base() <= addr.0 + offset < self.spec_base() + self@.len(),
            r is Some ==> r == Some(GuestAddress((addr.0 + offset) as u64)),
    {
        if offset <= u64::MAX - addr.0 {
            let a = addr.0 + offset;
            let end = self.base + self.bytes.len() as u64;
            if self.base <= a && a < end {
                Some(GuestAddress(a))
            } else {
                None
            }
        } else {
            None
        }
    }

    /// Copies the `len` bytes at `addr` out of guest memory; fails without
    /// reading anything if the range is not fully inside.
    pub fn read_bytes(&self, addr: GuestAddress, len: u32) -> (r: Result<Vec<u8>, GuestMemoryError>)
        requires
            self.wf(),
        ensures
            r is Ok <==> self.range_ok(addr.0 as int, len as int),
            match r {
                Ok(v) => v@ == self@.subrange(self.idx_of(addr.0 as int), self.idx_of(addr.0 as int) + len),
                Err(e) => e == GuestMemoryError::InvalidGuestAddress(addr),
            },
    {
        let blen = self.bytes.len() as u64;
        if addr.0 >= self.base && addr.0 - self.base <= blen && len as u64 <= blen - (addr.0
            - self.base) {
            let off = (addr.0 - self.base) as usize;
            let mut out: Vec<u8> = Vec::new();
            let mut i: usize = 0;
            while i < len as usize
                invariant
                    self.wf(),
                    off == self.idx_of(addr.0 as int),
                    self.range_ok(addr.0 as int, len as int),
                    off + len <= self.bytes@.len() <= usize::MAX,
                    i <= len,
                    out@ =~= self@.subrange(off as int, off + i),
                decreases len as usize - i,
            {
                out.push(self.bytes[off + i]);
                i = i + 1;
                proof {
                    assert(out@ =~= self@.subrange(off as int, off + i));
                }
            }
            Ok(out)
        } else {
            Err(GuestMemoryError::InvalidGuestAddress(addr))
        }
    }

    /// Overwrites the bytes at `addr` with `data`; fails without writing
    /// anything if the range is not fully inside.
    pub fn write_bytes(&mut self, addr: GuestAddress, data: &[u8]) -> (r: Result<
        (),
        GuestMemoryError,
    >)
        requires
            old(self).wf(),
        ensures
            final(self).wf(),
            final(self).spec_base() == old(self).spec_base(),
            final(self)@.len() == old(self)@.len(),
            r is Ok <==> old(self).range_ok(addr.0 as int, data@.len() as int),
            match r {
                Ok(u) => final(self)@ == overwrite(
                    old(self)@,
                    old(self).idx_of(addr.0 as int),
                    data@,
                ),
                Err(e) => {
                    &&& final(self)@ == old(self)@
                    &&& e == GuestMemoryError::InvalidGuestAddress(addr)
                },
            },
    {
        let blen = self.bytes.len() as u64;
        if addr.0 >= self.base && addr.0 - self.base <= blen && data.len() as u64 <= blen - (addr.0
            - self.base) {
            let off = (addr.0 - self.base) as usize;
            let mut i: usize = 0;
            while i < data.len()
                invariant
                    off + data@.len() <= self.bytes@.len() <= usize::MAX,
                    i <= data@.len(),
                    self.base == old(self).spec_base(),
                    self.bytes@.len() == old(self)@.len(),
                    self.bytes@ =~= overwrite(old(self)@, off as int, data@.subrange(0, i as int)),
                decreases data@.len() - i,
            {
                self.bytes[off + i] = data[i];
                i = i + 1;
                proof {
                    assert(self.bytes@ =~= overwrite(
                        old(self)@,
                        off as int,
                        data@.subrange(0, i as int),
                    ));
                }
            }
            proof {
                assert(data@.subrange(0, data@.len() as int) =~= data@);
            }
            Ok(())
        } else {
            Err(GuestMemoryError::InvalidGuestAddress(addr))
        }
    }

    /// Writes one byte.
    pub fn write_u8(&mut self, addr: GuestAddress, v: u8) -> (r: Result<(), GuestMemoryError>)
        requires
            old(self).wf(),
        ensures
            final(self).wf(),
            final(self).spec_base() == old(self).spec_base(),
            final(self)@.len() == old(self)@.len(),
            r is Ok <==> old(self).range_ok(addr.0 as int, 1),
            match r {
                Ok(u) => final(self)@ == overwrite(
                    old(self)@,
                    old(self).idx_of(addr.0 as int),
                    seq![v],
                ),
                Err(e) => {
                    &&& final(self)@ == old(self)@
                    &&& e == GuestMemoryError::InvalidGuestAddress(addr)
                },
            },
    {
        let data: Vec<u8> = vec![v];
        proof {
            assert(data@ =~= seq![v]);
        }
        self.write_bytes(addr, data.as_slice())
    }

    /// Reads one byte.
    pub fn read_u8(&self, addr: GuestAddress) -> (r: Result<u8, GuestMemoryError>)
        requires
            self.wf(),
        ensures
            r is Ok <==> self.range_ok(addr.0 as int, 1),
            match r {
                Ok(v) => v == self@[self.idx_of(addr.0 as int)],
                Err(e) => e == GuestMemoryError::InvalidGuestAddress(addr),
            },
    {
        match self.read_bytes(addr, 1) {
            Ok(v) => Ok(v[0]),
            Err(e) => Err(e),
        }
    }

    /// Reads a little-endian 16-bit word.
    pub fn read_u16(&self, addr: GuestAddress) -> (r: Result<u16, GuestMemoryError>)
        requires
            self.wf(),
        ensures
            r is Ok <==> self.range_ok(addr.0 as int, 2),
            match r {
                Ok(v) => v == spec_u16_from_le_bytes(
                    self@.subrange(self.idx_of(addr.0 as int), self.idx_of(addr.0 as int) + 2),
                ),
                Err(e) => e == GuestMemoryError::InvalidGuestAddress(addr),
            },
    {
        match self.read_bytes(addr, 2) {
            Ok(v) => Ok(u16_from_le_bytes(v.as_slice())),
            Err(e) => Err(e),
        }
    }

    /// Reads a little-endian 32-bit word.
    pub fn read_u32(&self, addr: GuestAddress) -> (r: Result<u32, GuestMemoryError>)
        requires
            self.wf(),
        ensures
            r is Ok <==> self.range_ok(addr.0 as int, 4),
            match r {
                Ok(v) => v == spec_u32_from_le_bytes(
                    self@.subrange(self.idx_of(addr.0 as int), self.idx_of(addr.0 as int) + 4),
                ),
                Err(e) => e == GuestMemoryError::InvalidGuestAddress(addr),
            },
    {
        match self.read_bytes(addr, 4) {
            Ok(v) => Ok(u32_from_le_bytes(v.as_slice())),
            Err(e) => Err(e),
        }
    }

    /// Reads a little-endian 64-bit word.
    pub fn read_u64(&self, addr: GuestAddress) -> (r: Result<u64, GuestMemoryError>)
        requires
            self.wf(),
        ensures
            r is Ok <==> self.range_ok(addr.0 as int, 8),
            match r {
                Ok(v) => v == spec_u64_from_le_bytes(
                    self@.subrange(self.idx_of(addr.0 as int), self.idx_of(addr.0 as int) + 8),
                ),
                Err(e) => e == GuestMemoryError::InvalidGuestAddress(addr),
            },
    {
        match self.read_bytes(addr, 8) {
            Ok(v) => Ok(u64_from_le_bytes(v.as_slice())),
            Err(e) => Err(e),
        }
    }

    /// Writes a little-endian 16-bit word.
    pub fn write_u16(&mut self, addr: GuestAddress, v: u16) -> (r: Result<(), GuestMemoryError>)
        requires
            old(self).wf(),
        ensures
            final(self).wf(),
            final(self).spec_base() == old(self).spec_base(),
            final(self)@.len() == old(self)@.len(),
            r is Ok <==> old(self).range_ok(addr.0 as int, 2),
            match r {
                Ok(u) => final(self)@ == overwrite(
                    old(self)@,
                    old(self).idx_of(addr.0 as int),
                    spec_u16_to_le_bytes(v),
                ),
                Err(e) => {
                    &&& final(self)@ == old(self)@
                    &&& e == GuestMemoryError::InvalidGuestAddress(addr)
                },
            },
    {
        let data = u16_to_le_bytes(v);
        self.write_bytes(addr, data.as_slice())
    }

    /// Writes a little-endian 32-bit word.
    pub fn write_u32(&mut self, addr: GuestAddress, v: u32) -> (r: Result<(), GuestMemoryError>)
        requires
            old(self).wf(),
        ensures
            final(self).wf(),
            final(self).spec_base() == old(self).spec_base(),
            final(self)@.len() == old(self)@.len(),
            r is Ok <==> old(self).range_ok(addr.0 as int, 4),
            match r {
                Ok(u) => final(self)@ == overwrite(
                    old(self)@,
                    old(self).idx_of(addr.0 as int),
                    spec_u32_to_le_bytes(v),
                ),
                Err(e) => {
                    &&& final(self)@ == old(self)@
                    &&& e == GuestMemoryError::InvalidGuestAddress(addr)
                },
            },
    {
        let data = u32_to_le_bytes(v);
        self.write_bytes(addr, data.as_slice())
    }

    /// Writes a little-endian 64-bit word.
    pub fn write_u64(&mut self, addr: GuestAddress, v: u64) -> (r: Result<(), GuestMemoryError>)
        requires
            old(self).wf(),
        ensures
            final(self).wf(),
            final(self).spec_base() == old(self).spec_base(),
            final(self)@.len() == old(self)@.len(),
            r is Ok <==> old(self).range_ok(addr.0 as int, 8),
            match r {
                Ok(u) => final(self)@ == overwrite(
                    old(self)@,
                    old(self).idx_of(addr.0 as int),
                    spec_u64_to_le_bytes(v),
                ),
                Err(e) => {
                    &&& final(self)@ == old(self)@
                    &&& e == GuestMemoryError::InvalidGuestAddress(addr)
                },
            },
    {
        let data = u64_to_le_bytes(v);
        self.write_bytes(addr, data.as_slice())
    }
}

} // verus!
