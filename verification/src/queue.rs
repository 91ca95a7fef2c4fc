//! A split-ring virtqueue: validation of the three guest-memory regions, an
//! iterator over available descriptor chains with cycle protection, and the
//! used-ring sink that publishes completions back to the guest.

use vstd::prelude::*;
use vstd::slice::slice_subrange;
use vstd::bytes::u16_from_le_bytes;
use vstd::bytes::u32_from_le_bytes;
use vstd::bytes::u64_from_le_bytes;
use vstd::bytes::spec_u16_to_le_bytes;
use vstd::bytes::spec_u32_to_le_bytes;
use crate::bytes_model::overwrite;
use crate::guest_mem::GuestAddress;
use crate::guest_mem::GuestMemory;

verus! {

/// Descriptor flag: the `next` field links to a further descriptor.
pub const VIRTQ_DESC_F_NEXT: u16 = 1;

/// Descriptor flag: the buffer is device-writable (guest-readable only).
pub const VIRTQ_DESC_F_WRITE: u16 = 2;

/// One descriptor of a chain, read out of the descriptor table, together
/// with the cursor state (`ttl`) that bounds the remaining walk.
#[derive(Clone, Copy, Debug)]
pub struct DescriptorChain {
    /// Guest address of the descriptor table this chain lives in.
    pub desc_table: GuestAddress,
    /// Number of entries of the descriptor table.
    pub queue_size: u16,
    /// Descriptors that may still be yielded, this one included; walking
    /// decrements it, so no chain can exceed the queue size.
    pub ttl: u16,
    /// Index of this descriptor in the table.
    pub index: u16,
    /// Guest address of the buffer.
    pub addr: GuestAddress,
    /// Length of the buffer in bytes.
    pub len: u32,
    /// Descriptor flags.
    pub flags: u16,
    /// Index of the next descriptor, meaningful when `flags` has `NEXT`.
    pub next: u16,
}

/// The descriptor at `index` of the table at `table`, with cursor `ttl`, as
/// read from guest memory.
pub open spec fn spec_desc_at(
    mem: GuestMemory,
    table: GuestAddress,
    qsize: u16,
    index: u16,
    ttl: u16,
) -> DescriptorChain {
    DescriptorChain {
        desc_table: table,
        queue_size: qsize,
        ttl,
        index,
        addr: GuestAddress(mem.u64_at(table.0 + 16 * index)),
        len: mem.u32_at(table.0 + 16 * index + 8),
        flags: mem.u16_at(table.0 + 16 * index + 12),
        next: mem.u16_at(table.0 + 16 * index + 14),
    }
}

/// The descriptor at `index` exists and is usable: the table entry lies in
/// guest memory, the buffer it points at lies in guest memory, and a `next`
/// link stays inside the table.
pub open spec fn spec_desc_ok(
    mem: GuestMemory,
    table: GuestAddress,
    qsize: u16,
    index: u16,
) -> bool {
    &&& index < qsize
    &&& mem.range_ok(table.0 + 16 * index, 16)
    &&& mem.range_ok(
        mem.u64_at(table.0 + 16 * index) as int,
        mem.u32_at(table.0 + 16 * index + 8) as int,
    )
    &&& (mem.u16_at(table.0 + 16 * index + 12) & VIRTQ_DESC_F_NEXT != 0 ==> mem.u16_at(
        table.0 + 16 * index + 14,
    ) < qsize)
}

/// The indices of the descriptors a walk starting at `index` with `ttl`
/// steps of budget yields, following `NEXT` links while they last.
pub open spec fn spec_chain_indices(
    mem: GuestMemory,
    table: GuestAddress,
    qsize: u16,
    index: u16,
    ttl: nat,
) -> Seq<u16>
    decreases ttl,
{
    if ttl == 0 || !spec_desc_ok(mem, table, qsize, index) {
        Seq::empty()
    } else if mem.u16_at(table.0 + 16 * index + 12) & VIRTQ_DESC_F_NEXT != 0 && ttl > 1 {
        seq![index] + spec_chain_indices(
            mem,
            table,
            qsize,
            mem.u16_at(table.0 + 16 * index + 14),
            (ttl - 1) as nat,
        )
    } else {
        seq![index]
    }
}

/// Cycle protection: a walk with `ttl` steps of budget yields at most `ttl`
/// descriptors, however the guest links its descriptor table. Every chain
/// handed out by the available-ring iterator starts with `ttl` equal to the
/// queue size, so its length never exceeds the queue size.
pub proof fn lemma_chain_len_bounded(
    mem: GuestMemory,
    table: GuestAddress,
    qsize: u16,
    index: u16,
    ttl: nat,
)
    ensures
        spec_chain_indices(mem, table, qsize, index, ttl).len() <= ttl,
    decreases ttl,
{
    if ttl == 0 || !spec_desc_ok(mem, table, qsize, index) {
    } else if mem.u16_at(table.0 + 16 * index + 12) & VIRTQ_DESC_F_NEXT != 0 && ttl > 1 {
        lemma_chain_len_bounded(
            mem,
            table,
            qsize,
            mem.u16_at(table.0 + 16 * index + 14),
            (ttl - 1) as nat,
        );
    }
}

/// The chain headed by a descriptor the iterator yielded holds at most
/// queue-size descriptors: its walk budget starts at the queue size and
/// every step spends one.
pub proof fn lemma_yielded_chain_bounded(mem: GuestMemory, c: DescriptorChain)
    requires
        c.ttl <= c.queue_size,
    ensures
        spec_chain_indices(mem, c.desc_table, c.queue_size, c.index, c.ttl as nat).len()
            <= c.queue_size,
{
    lemma_chain_len_bounded(mem, c.desc_table, c.queue_size, c.index, c.ttl as nat);
}

impl DescriptorChain {
    /// The chain continues after this descriptor.
    pub open spec fn spec_has_next(&self) -> bool {
        self.flags & VIRTQ_DESC_F_NEXT != 0
    }

    /// The buffer is device-writable.
    pub open spec fn spec_write_only(&self) -> bool {
        self.flags & VIRTQ_DESC_F_WRITE != 0
    }

    /// The descriptor was read from guest memory and its buffer lies inside.
    pub open spec fn wf_for(&self, mem: GuestMemory) -> bool {
        &&& self.index < self.queue_size
        &&& 1 <= self.ttl <= self.queue_size
        &&& mem.range_ok(self.addr.0 as int, self.len as int)
        &&& (self.spec_has_next() ==> self.next < self.queue_size)
    }

    /// Reads descriptor `index` of the table at `desc_table`, checking that
    /// the entry and the buffer it describes lie inside guest memory.
    pub fn checked_new(
        mem: &GuestMemory,
        desc_table: GuestAddress,
        queue_size: u16,
        index: u16,
        ttl: u16,
    ) -> (r: Option<DescriptorChain>)
        requires
            mem.wf(),
            ttl <= queue_size,
        ensures
            r is Some <==> ttl >= 1 && spec_desc_ok(*mem, desc_table, queue_size, index),
            match r {
                Some(c) => {
                    &&& c == spec_desc_at(*mem, desc_table, queue_size, index, ttl)
                    &&& c.wf_for(*mem)
                },
                None => true,
            },
    {
        if ttl == 0 || index >= queue_size {
            return None;
        }
        let off = (index as u64) * 16;
        if off > u64::MAX - desc_table.0 {
            proof {
                assert(!mem.range_ok(desc_table.0 + 16 * index, 16));
            }
            return None;
        }
        let entry = desc_table.0 + off;
        match mem.read_bytes(GuestAddress(entry), 16) {
            Ok(block) => {
                let addr = u64_from_le_bytes(slice_subrange(block.as_slice(), 0, 8));
                let len = u32_from_le_bytes(slice_subrange(block.as_slice(), 8, 12));
                let flags = u16_from_le_bytes(slice_subrange(block.as_slice(), 12, 14));
                let next = u16_from_le_bytes(slice_subrange(block.as_slice(), 14, 16));
                proof {
                    let base = mem.idx_of(entry as int);
                    assert(block@.subrange(0, 8) =~= mem@.subrange(base, base + 8));
                    assert(block@.subrange(8, 12) =~= mem@.subrange(base + 8, base + 12));
                    assert(block@.subrange(12, 14) =~= mem@.subrange(base + 12, base + 14));
                    assert(block@.subrange(14, 16) =~= mem@.subrange(base + 14, base + 16));
                }
                if !mem.check_range(GuestAddress(addr), len as u64) {
                    return None;
                }
                if flags & VIRTQ_DESC_F_NEXT != 0 && next >= queue_size {
                    return None;
                }
                Some(
                    DescriptorChain {
                        desc_table,
                        queue_size,
                        ttl,
                        index,
                        addr: GuestAddress(addr),
                        len,
                        flags,
                        next,
                    },
                )
            },
            Err(e) => None,
        }
    }

    /// The chain continues after this descriptor.
    pub fn has_next(&self) -> (r: bool)
        ensures
            r == self.spec_has_next(),
    {
        self.flags & VIRTQ_DESC_F_NEXT != 0
    }

    /// The buffer is device-writable; the device must only read from a
    /// descriptor for which this is false.
    pub fn is_write_only(&self) -> (r: bool)
        ensures
            r == self.spec_write_only(),
    {
        self.flags & VIRTQ_DESC_F_WRITE != 0
    }

    /// The next descriptor of the chain, if this one links further and the
    /// walk budget is not exhausted.
    pub fn next_descriptor(&self, mem: &GuestMemory) -> (r: Option<DescriptorChain>)
        requires
            mem.wf(),
            self.ttl <= self.queue_size,
        ensures
            r is Some <==> self.spec_has_next() && self.ttl >= 2 && spec_desc_ok(
                *mem,
                self.desc_table,
                self.queue_size,
                self.next,
            ),
            match r {
                Some(c) => {
                    &&& c == spec_desc_at(
                        *mem,
                        self.desc_table,
                        self.queue_size,
                        self.next,
                        (self.ttl - 1) as u16,
                    )
                    &&& c.wf_for(*mem)
                },
                None => true,
            },
    {
        if self.has_next() && self.ttl >= 2 {
            DescriptorChain::checked_new(mem, self.desc_table, self.queue_size, self.next, self.ttl
                - 1)
        } else {
            None
        }
    }
}

/// A split-ring virtqueue's host-side state.
#[derive(Clone, Copy, Debug)]
#[verifier::ext_equal]
pub struct Queue {
    /// The maximal size in number of descriptors the device supports.
    pub max_size: u16,
    /// The queue size the driver selected.
    pub size: u16,
    /// Whether the driver enabled this queue.
    pub ready: bool,
    /// Guest address of the descriptor table.
    pub desc_table: GuestAddress,
    /// Guest address of the available (driver) ring.
    pub avail_ring: GuestAddress,
    /// Guest address of the used (device) ring.
    pub used_ring: GuestAddress,
    /// Index of the next available-ring slot the device will look at.
    pub next_avail: u16,
    /// Index of the next used-ring slot the device will fill.
    pub next_used: u16,
}

/// `q` with the used-ring cursor advanced `n` slots.
pub open spec fn spec_used_advanced(q: Queue, n: int) -> Queue
    recommends
        n >= 0,
{
    Queue { next_used: ((q.next_used + n) % 0x10000) as u16, ..q }
}

/// The guest-memory bytes after publishing `entries` to the used ring in
/// order, each entry `(head, len)` at the cursor's slot followed by an
/// advance of the published index; `memref` supplies the address base.
pub open spec fn spec_publish_entries(
    memref: GuestMemory,
    q: Queue,
    bytes: Seq<u8>,
    entries: Seq<(u16, u32)>,
) -> Seq<u8>
    decreases entries.len(),
{
    if entries.len() == 0 {
        bytes
    } else {
        let slot = q.next_used as int % q.spec_actual_size() as int;
        let entry = memref.idx_of(q.used_ring.0 + 4 + 8 * slot);
        let idx_pos = memref.idx_of(q.used_ring.0 + 2);
        let new_idx = ((q.next_used + 1) % 0x10000) as u16;
        let b1 = overwrite(
            overwrite(
                overwrite(bytes, entry, spec_u32_to_le_bytes(entries[0].0 as u32)),
                entry + 4,
                spec_u32_to_le_bytes(entries[0].1),
            ),
            idx_pos,
            spec_u16_to_le_bytes(new_idx),
        );
        spec_publish_entries(memref, Queue { next_used: new_idx, ..q }, b1, entries.drop_first())
    }
}

/// Publishing one further entry after a batch publishes it at the cursor
/// the batch left behind.
pub proof fn lemma_publish_entries_snoc(
    memref: GuestMemory,
    q: Queue,
    bytes: Seq<u8>,
    entries: Seq<(u16, u32)>,
    e: (u16, u32),
)
    requires
        entries.len() < 0x10000,
    ensures
        spec_publish_entries(memref, q, bytes, entries.push(e)) == spec_publish_entries(
            memref,
            spec_used_advanced(q, entries.len() as int),
            spec_publish_entries(memref, q, bytes, entries),
            seq![e],
        ),
    decreases entries.len(),
{
    if entries.len() == 0 {
        assert(entries.push(e) =~= seq![e]);
        assert(spec_used_advanced(q, 0) =~= q);
    } else {
        let q1 = Queue { next_used: ((q.next_used + 1) % 0x10000) as u16, ..q };
        let slot = q.next_used as int % q.spec_actual_size() as int;
        let entry = memref.idx_of(q.used_ring.0 + 4 + 8 * slot);
        let idx_pos = memref.idx_of(q.used_ring.0 + 2);
        let b1 = overwrite(
            overwrite(
                overwrite(bytes, entry, spec_u32_to_le_bytes(entries[0].0 as u32)),
                entry + 4,
                spec_u32_to_le_bytes(entries[0].1),
            ),
            idx_pos,
            spec_u16_to_le_bytes(q1.next_used),
        );
        assert((entries.push(e)).drop_first() =~= entries.drop_first().push(e));
        assert((entries.push(e))[0] == entries[0]);
        lemma_publish_entries_snoc(memref, q1, b1, entries.drop_first(), e);
        vstd::arithmetic::div_mod::lemma_add_mod_noop(
            q.next_used + 1,
            entries.len() - 1,
            0x10000,
        );
        vstd::arithmetic::div_mod::lemma_small_mod((entries.len() - 1) as nat, 0x10000);
        assert(spec_used_advanced(q1, entries.len() - 1) =~= spec_used_advanced(
            q,
            entries.len() as int,
        ));
    }
}

/// `x + 1` with 16-bit wrap-around.
fn wrapping_inc_u16(x: u16) -> (r: u16)
    ensures
        r == (x + 1) % 0x10000,
{
    if x == 0xffff {
        0
    } else {
        x + 1
    }
}

impl Queue {
    /// Constructs an empty, unready queue of maximal size `max_size`.
    pub fn new(max_size: u16) -> (r: Queue)
        ensures
            r.max_size == max_size,
            r.size == max_size,
            !r.ready,
            r.desc_table == GuestAddress(0),
            r.avail_ring == GuestAddress(0),
            r.used_ring == GuestAddress(0),
            r.next_avail == 0,
            r.next_used == 0,
    {
        Queue {
            max_size,
            size: max_size,
            ready: false,
            desc_table: GuestAddress(0),
            avail_ring: GuestAddress(0),
            used_ring: GuestAddress(0),
            next_avail: 0,
            next_used: 0,
        }
    }

    /// The queue size actually in effect.
    pub open spec fn spec_actual_size(&self) -> u16 {
        if self.size <= self.max_size {
            self.size
        } else {
            self.max_size
        }
    }

    /// The queue size actually in effect.
    pub fn actual_size(&self) -> (r: u16)
        ensures
            r == self.spec_actual_size(),
    {
        if self.size <= self.max_size {
            self.size
        } else {
            self.max_size
        }
    }

    /// The queue is ready, its size is a power of two within the supported
    /// maximum, and its three regions lie inside guest memory at their
    /// required alignments (16, 2 and 4 bytes).
    pub open spec fn spec_valid(&self, mem: GuestMemory) -> bool {
        let qs = self.spec_actual_size() as int;
        &&& self.ready
        &&& 1 <= self.size <= self.max_size
        &&& (self.size & (self.size - 1) as u16) == 0
        &&& mem.range_ok(self.desc_table.0 as int, 16 * qs)
        &&& self.desc_table.0 % 16 == 0
        &&& mem.range_ok(self.avail_ring.0 as int, 6 + 2 * qs)
        &&& self.avail_ring.0 % 2 == 0
        &&& mem.range_ok(self.used_ring.0 as int, 6 + 8 * qs)
        &&& self.used_ring.0 % 4 == 0
    }

    /// Exec test for `spec_valid`.
    pub fn is_valid(&self, mem: &GuestMemory) -> (r: bool)
        requires
            mem.wf(),
        ensures
            r == self.spec_valid(*mem),
    {
        if !self.ready {
            return false;
        }
        if self.size < 1 || self.size > self.max_size || (self.size & (self.size - 1)) != 0 {
            return false;
        }
        let qs = self.actual_size() as u64;
        mem.check_range(self.desc_table, 16 * qs) && self.desc_table.0 % 16 == 0
            && mem.check_range(self.avail_ring, 6 + 2 * qs) && self.avail_ring.0 % 2 == 0
            && mem.check_range(self.used_ring, 6 + 8 * qs) && self.used_ring.0 % 4 == 0
    }

    /// The index the driver last published to the available ring.
    pub open spec fn spec_avail_idx(&self, mem: GuestMemory) -> u16 {
        mem.u16_at(self.avail_ring.0 + 2)
    }

    /// Entry `slot` of the available ring.
    pub open spec fn spec_avail_entry(&self, mem: GuestMemory, slot: int) -> u16 {
        mem.u16_at(self.avail_ring.0 + 4 + 2 * slot)
    }

    /// Pops the next available descriptor chain, if the driver published one
    /// and its head descriptor is well formed. The cursor past the ring slot
    /// advances even when the head turns out malformed, exactly as a yielded
    /// chain's slot is consumed; a malformed head ends iteration for the
    /// caller, it never faults.
    pub fn pop_avail(&mut self, mem: &GuestMemory) -> (r: Option<DescriptorChain>)
        requires
            mem.wf(),
            old(self).spec_valid(*mem),
        ensures
            final(self).spec_valid(*mem),
            final(self).max_size == old(self).max_size,
            final(self).size == old(self).size,
            final(self).ready == old(self).ready,
            final(self).desc_table == old(self).desc_table,
            final(self).avail_ring == old(self).avail_ring,
            final(self).used_ring == old(self).used_ring,
            final(self).next_used == old(self).next_used,
            old(self).spec_avail_idx(*mem) == old(self).next_avail ==> {
                &&& r is None
                &&& *final(self) == *old(self)
            },
            old(self).spec_avail_idx(*mem) != old(self).next_avail ==> {
                let head = old(self).spec_avail_entry(
                    *mem,
                    old(self).next_avail as int % old(self).spec_actual_size() as int,
                );
                &&& final(self).next_avail == (old(self).next_avail + 1) % 0x10000
                &&& *final(self) == (Queue {
                    next_avail: ((old(self).next_avail + 1) % 0x10000) as u16,
                    ..*old(self)
                })
                &&& (r is Some <==> spec_desc_ok(
                    *mem,
                    old(self).desc_table,
                    old(self).spec_actual_size(),
                    head,
                ))
                &&& match r {
                    Some(c) => {
                        &&& c == spec_desc_at(
                            *mem,
                            old(self).desc_table,
                            old(self).spec_actual_size(),
                            head,
                            old(self).spec_actual_size(),
                        )
                        &&& c.wf_for(*mem)
                    },
                    None => true,
                }
            },
    {
        let qs = self.actual_size();
        let avail_idx = match mem.read_u16(GuestAddress(self.avail_ring.0 + 2)) {
            Ok(v) => v,
            Err(e) => {
                proof {
                    assert(false);
                }
                0
            },
        };
        if avail_idx == self.next_avail {
            return None;
        }
        let slot = self.next_avail % qs;
        let head = match mem.read_u16(GuestAddress(self.avail_ring.0 + 4 + 2 * (slot as u64))) {
            Ok(v) => v,
            Err(e) => {
                proof {
                    assert(false);
                }
                0
            },
        };
        self.next_avail = wrapping_inc_u16(self.next_avail);
        DescriptorChain::checked_new(mem, self.desc_table, qs, head, qs)
    }

    /// Guest memory after publishing `(desc_index, len)` to the used ring:
    /// the entry at the current used slot is written, then the published
    /// index is advanced by one.
    pub open spec fn spec_after_add_used(
        &self,
        mem: GuestMemory,
        desc_index: u16,
        len: u32,
    ) -> Seq<u8> {
        let slot = self.next_used as int % self.spec_actual_size() as int;
        let entry = mem.idx_of(self.used_ring.0 + 4 + 8 * slot);
        let idx_pos = mem.idx_of(self.used_ring.0 + 2);
        let new_idx = (self.next_used + 1) % 0x10000;
        overwrite(
            overwrite(
                overwrite(mem@, entry, spec_u32_to_le_bytes(desc_index as u32)),
                entry + 4,
                spec_u32_to_le_bytes(len),
            ),
            idx_pos,
            spec_u16_to_le_bytes(new_idx as u16),
        )
    }

    /// Publishes a completed chain `(desc_index, len)` to the used ring and
    /// advances the published index. A `desc_index` outside the table is
    /// ignored rather than echoed to the guest.
    pub fn add_used(&mut self, mem: &mut GuestMemory, desc_index: u16, len: u32)
        requires
            old(mem).wf(),
            old(self).spec_valid(*old(mem)),
        ensures
            final(mem).wf(),
            final(mem).spec_base() == old(mem).spec_base(),
            final(mem)@.len() == old(mem)@.len(),
            final(self).spec_valid(*final(mem)),
            final(self).max_size == old(self).max_size,
            final(self).size == old(self).size,
            final(self).ready == old(self).ready,
            final(self).desc_table == old(self).desc_table,
            final(self).avail_ring == old(self).avail_ring,
            final(self).used_ring == old(self).used_ring,
            final(self).next_avail == old(self).next_avail,
            desc_index >= old(self).spec_actual_size() ==> {
                &&& final(mem)@ == old(mem)@
                &&& final(self).next_used == old(self).next_used
            },
            desc_index < old(self).spec_actual_size() ==> {
                &&& final(mem)@ == old(self).spec_after_add_used(*old(mem), desc_index, len)
                &&& final(self).next_used == (old(self).next_used + 1) % 0x10000
            },
    {
        let qs = self.actual_size();
        if desc_index >= qs {
            return ;
        }
        let slot = self.next_used % qs;
        let entry = self.used_ring.0 + 4 + 8 * (slot as u64);
        match mem.write_u32(GuestAddress(entry), desc_index as u32) {
            Ok(u) => {},
            Err(e) => {
                proof {
                    assert(false);
                }
            },
        }
        match mem.write_u32(GuestAddress(entry + 4), len) {
            Ok(u) => {},
            Err(e) => {
                proof {
                    assert(false);
                }
            },
        }
        self.next_used = wrapping_inc_u16(self.next_used);
        match mem.write_u16(GuestAddress(self.used_ring.0 + 2), self.next_used) {
            Ok(u) => {},
            Err(e) => {
                proof {
                    assert(false);
                }
            },
        }
    }
}

} // verus!
