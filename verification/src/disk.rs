//! The disk beneath the block device: a small trait (read, write, flush,
//! write-zeroes) over the logical contents of the image, so that alternative
//! back-ends can be slotted in, and an in-memory implementation.

use vstd::prelude::*;
use crate::bytes_model::overwrite;

verus! {

/// Error returned by a disk operation.
#[derive(Clone, Copy, Debug, PartialEq, Eq, Structural)]
pub enum DiskError {
    /// The operation touched bytes beyond the end of the disk.
    OutOfRange,
    /// The underlying device failed.
    Io,
}

/// A seekable, readable, writable disk image supporting write-zeroes.
///
/// `contents` is the logical byte content of the image; its length never
/// changes. An operation may always fail (a real device may), but whenever it
/// succeeds it did exactly what its contract says.
pub trait DiskFile: Sized {
    /// The logical bytes of the disk image.
    spec fn contents(&self) -> Seq<u8>;

    /// Implementation-specific well-formedness.
    spec fn inv(&self) -> bool;

    /// The size of the image in bytes.
    fn disk_size(&self) -> (r: u64)
        requires
            self.inv(),
        ensures
            r == self.contents().len(),
    ;

    /// Reads the `len` bytes at byte offset `offset`.
    fn read_at(&mut self, offset: u64, len: u32) -> (r: Result<Vec<u8>, DiskError>)
        requires
            old(self).inv(),
        ensures
            final(self).inv(),
            final(self).contents() == old(self).contents(),
            match r {
                Ok(v) => {
                    &&& offset + len <= old(self).contents().len()
                    &&& v@ == old(self).contents().subrange(offset as int, offset + len)
                },
                Err(e) => true,
            },
    ;

    /// Overwrites the bytes at byte offset `offset` with `data`.
    fn write_at(&mut self, offset: u64, data: &[u8]) -> (r: Result<(), DiskError>)
        requires
            old(self).inv(),
        ensures
            final(self).inv(),
            final(self).contents().len() == old(self).contents().len(),
            match r {
                Ok(u) => {
                    &&& offset + data@.len() <= old(self).contents().len()
                    &&& final(self).contents() == overwrite(
                        old(self).contents(),
                        offset as int,
                        data@,
                    )
                },
                Err(e) => true,
            },
    ;

    /// Overwrites the `len` bytes at byte offset `offset` with zeroes.
    fn write_zeroes_at(&mut self, offset: u64, len: u64) -> (r: Result<(), DiskError>)
        requires
            old(self).inv(),
        ensures
            final(self).inv(),
            final(self).contents().len() == old(self).contents().len(),
            match r {
                Ok(u) => {
                    &&& offset + len <= old(self).contents().len()
                    &&& final(self).contents() == overwrite(
                        old(self).contents(),
                        offset as int,
                        Seq::new(len as nat, |i: int| 0u8),
                    )
                },
                Err(e) => true,
            },
    ;

    /// Commits outstanding writes to durable storage. The logical contents
    /// are unchanged.
    fn flush(&mut self) -> (r: Result<(), DiskError>)
        requires
            old(self).inv(),
        ensures
            final(self).inv(),
            final(self).contents() == old(self).contents(),
    ;
}

/// A disk image held entirely in memory. Every operation succeeds exactly
/// when its range lies inside the image.
pub struct RamDisk {
    data: Vec<u8>,
}

impl RamDisk {
    /// A zero-filled image of `size` bytes.
    pub fn new(size: usize) -> (r: RamDisk)
        ensures
            r.inv(),
            r.contents() =~= Seq::new(size as nat, |i: int| 0u8),
    {
        RamDisk { data: vec![0u8; size] }
    }

    /// An image holding exactly `data`.
    pub fn from_vec(data: Vec<u8>) -> (r: RamDisk)
        ensures
            r.inv(),
            r.contents() == data@,
    {
        RamDisk { data }
    }
}

impl DiskFile for RamDisk {
    closed spec fn contents(&self) -> Seq<u8> {
        self.data@
    }

    closed spec fn inv(&self) -> bool {
        true
    }

    fn disk_size(&self) -> (r: u64) {
        self.data.len() as u64
    }

    fn read_at(&mut self, offset: u64, len: u32) -> (r: Result<Vec<u8>, DiskError>) {
        let dlen = self.data.len() as u64;
        if offset <= dlen && len as u64 <= dlen - offset {
            let off = offset as usize;
            let mut out: Vec<u8> = Vec::new();
            let mut i: usize = 0;
            while i < len as usize
                invariant
                    off + len <= self.data@.len() <= usize::MAX,
                    i <= len,
                    out@ =~= self.data@.subrange(off as int, off + i),
                    self == old(self),
                decreases len as usize - i,
            {
                out.push(self.data[off + i]);
                i = i + 1;
                proof {
                    assert(out@ =~= self.data@.subrange(off as int, off + i));
                }
            }
            Ok(out)
        } else {
            Err(DiskError::OutOfRange)
        }
    }

    fn write_at(&mut self, offset: u64, data: &[u8]) -> (r: Result<(), DiskError>) {
        let dlen = self.data.len() as u64;
        if offset <= dlen && data.len() as u64 <= dlen - offset {
            let off = offset as usize;
            let mut i: usize = 0;
            while i < data.len()
                invariant
                    off + data@.len() <= self.data@.len() <= usize::MAX,
                    i <= data@.len(),
                    self.data@.len() == old(self).data@.len(),
                    self.data@ =~= overwrite(old(self).data@, off as int, data@.subrange(0, i as int)),
                decreases data@.len() - i,
            {
                self.data[off + i] = data[i];
                i = i + 1;
                proof {
                    assert(self.data@ =~= overwrite(
                        old(self).data@,
                        off as int,
                        data@.subrange(0, i as int),
                    ));
                }
            }
            proof {
                assert(data@.subrange(0, data@.len() as int) =~= data@);
            }
            Ok(())
        } else {
            Err(DiskError::OutOfRange)
        }
    }

    fn write_zeroes_at(&mut self, offset: u64, len: u64) -> (r: Result<(), DiskError>) {
        let dlen = self.data.len() as u64;
        if offset <= dlen && len <= dlen - offset {
            let off = offset as usize;
            let n = len as usize;
            let mut i: usize = 0;
            while i < n
                invariant
                    off + n <= self.data@.len() <= usize::MAX,
                    i <= n,
                    self.data@.len() == old(self).data@.len(),
                    self.data@ =~= overwrite(
                        old(self).data@,
                        off as int,
                        Seq::new(i as nat, |j: int| 0u8),
                    ),
                decreases n - i,
            {
                self.data[off + i] = 0;
                i = i + 1;
                proof {
                    assert(self.data@ =~= overwrite(
                        old(self).data@,
                        off as int,
                        Seq::new(i as nat, |j: int| 0u8),
                    ));
                }
            }
            Ok(())
        } else {
            Err(DiskError::OutOfRange)
        }
    }

    fn flush(&mut self) -> (r: Result<(), DiskError>) {
        Ok(())
    }
}

} // verus!
