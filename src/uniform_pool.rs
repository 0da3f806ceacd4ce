//! A growable slab of fixed-size uniform buffers, one per drawn object.
use vstd::prelude::*;

verus! {

/// Names one buffer of the slab: the slab's generation and the slot index.
///
/// Every growth replaces the whole slab, so a handle of an older
/// generation names a buffer that is no longer written.
#[derive(Clone, Copy, Debug, PartialEq, Eq, Structural)]
pub struct SlotHandle {
    pub generation: u64,
    pub index: usize,
}

/// One upload of a record into one slot of the slab.
pub struct SlotWrite {
    pub slot: SlotHandle,
    pub data: Vec<u8>,
}

/// The slot count after a request for `count` slots: the pool only grows,
/// and when it grows it grows to exactly the request.
pub open spec fn ensured_len(len: nat, count: nat) -> nat {
    if len < count {
        count
    } else {
        len
    }
}

/// Book-keeping of the slab: how many slots it has, how large each one is,
/// and how many times it has been reallocated.
pub struct UniformPool {
    label: String,
    slot_size: u64,
    len: usize,
    generation: u64,
}

impl UniformPool {
    /// Each reallocation strictly grows the slab, so there are never more
    /// generations than slots.
    pub closed spec fn wf(&self) -> bool {
        self.generation as nat <= self.len as nat
    }

    pub closed spec fn spec_len(&self) -> nat {
        self.len as nat
    }

    pub closed spec fn spec_slot_size(&self) -> u64 {
        self.slot_size
    }

    pub closed spec fn spec_generation(&self) -> u64 {
        self.generation
    }

    pub closed spec fn spec_label(&self) -> Seq<char> {
        self.label@
    }

    /// An empty pool whose slots will each hold `size` bytes.
    pub fn new(label: &str, size: u64) -> (r: Self)
        ensures
            r.wf(),
            r.spec_len() == 0,
            r.spec_slot_size() == size,
            r.spec_generation() == 0,
            r.spec_label() == label@,
    {
        UniformPool { label: label.to_owned(), slot_size: size, len: 0, generation: 0 }
    }

    pub fn len(&self) -> (r: usize)
        ensures
            r == self.spec_len(),
    {
        self.len
    }

    pub fn is_empty(&self) -> (r: bool)
        ensures
            r == (self.spec_len() == 0),
    {
        self.len == 0
    }

    pub fn slot_size(&self) -> (r: u64)
        ensures
            r == self.spec_slot_size(),
    {
        self.slot_size
    }

    pub fn generation(&self) -> (r: u64)
        ensures
            r == self.spec_generation(),
    {
        self.generation
    }

    pub fn label(&self) -> (r: &str)
        ensures
            r@ == self.spec_label(),
    {
        self.label.as_str()
    }

    /// Replaces the whole slab by one of exactly `count` slots. What the old
    /// slots held is gone: every slot must be written again before use.
    pub fn alloc_buffers(&mut self, count: usize)
        requires
            old(self).wf(),
            old(self).spec_len() < count,
        ensures
            final(self).wf(),
            final(self).spec_len() == count,
            final(self).spec_generation() == old(self).spec_generation() + 1,
            final(self).spec_slot_size() == old(self).spec_slot_size(),
            final(self).spec_label() == old(self).spec_label(),
    {
        self.len = count;
        self.generation = self.generation + 1;
    }

    /// Makes sure that the slab has at least `count` slots, reallocating it to
    /// exactly `count` when it has fewer. Returns whether it was reallocated.
    pub fn ensure_capacity(&mut self, count: usize) -> (grew: bool)
        requires
            old(self).wf(),
        ensures
            final(self).wf(),
            grew == (old(self).spec_len() < count),
            final(self).spec_len() == ensured_len(old(self).spec_len(), count as nat),
            final(self).spec_generation() == if grew {
                old(self).spec_generation() + 1
            } else {
                old(self).spec_generation() as int
            },
            final(self).spec_slot_size() == old(self).spec_slot_size(),
            final(self).spec_label() == old(self).spec_label(),
    {
        if self.len < count {
            self.alloc_buffers(count);
            true
        } else {
            false
        }
    }

    /// The handle of slot `index` in the current slab.
    pub fn slot(&self, index: usize) -> (r: SlotHandle)
        requires
            index < self.spec_len(),
        ensures
            r == (SlotHandle { generation: self.spec_generation(), index }),
    {
        SlotHandle { generation: self.generation, index }
    }

    /// The upload of `data` into slot `index`; nothing when the pool is empty.
    pub fn update_uniform(&self, index: usize, data: Vec<u8>) -> (r: Option<SlotWrite>)
        requires
            self.spec_len() == 0 || index < self.spec_len(),
            data@.len() <= self.spec_slot_size(),
        ensures
            self.spec_len() == 0 <==> r is None,
            r matches Some(w) ==> w.slot == (SlotHandle {
                generation: self.spec_generation(),
                index,
            }) && w.data@ == data@,
    {
        if self.len == 0 {
            None
        } else {
            Some(SlotWrite { slot: self.slot(index), data })
        }
    }
}

/// A request for `n` slots followed by a request for `m` leaves exactly `m`
/// slots when `m` exceeds `n`, and exactly `n` otherwise: the pool never
/// shrinks.
pub proof fn lemma_capacity_monotone(pool: UniformPool, n: usize, m: usize)
    requires
        pool.wf(),
        pool.spec_len() <= n,
    ensures
        ensured_len(ensured_len(pool.spec_len(), n as nat), m as nat) == if n < m {
            m as nat
        } else {
            n as nat
        },
{
}

} // verus!
