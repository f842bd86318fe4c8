//! The state of a virtio queue as the guest configures it, and the ring
//! arithmetic of taking descriptor chains from it and returning them.
use vstd::prelude::*;

verus! {

/// A descriptor of a virtio ring.
#[derive(Debug, Clone, Copy, PartialEq, Eq, Structural)]
pub struct VirtRingDescr {
    pub addr: u64,
    pub length: u32,
    pub flags: u16,
    pub next: u16,
}

impl VirtRingDescr {
    /// Whether the chain goes on at `next`.
    pub fn has_next(&self) -> (r: bool)
        ensures
            r == (self.flags & 1 == 1),
    {
        (self.flags & 1) == 1
    }

    /// Whether the device writes the buffer.
    pub fn is_write(&self) -> (r: bool)
        ensures
            r == (self.flags & 2 == 2),
    {
        (self.flags & 2) == 2
    }

    /// Whether the buffer holds a table of descriptors.
    pub fn is_indirect(&self) -> (r: bool)
        ensures
            r == (self.flags & 4 == 4),
    {
        (self.flags & 4) == 4
    }
}

/// `value` with its low 32 bits replaced by `low`.
pub open spec fn with_low(value: u64, low: u32) -> u64 {
    (value & 0xffff_ffff_0000_0000) | (low as u64)
}

/// `value` with its high 32 bits replaced by `high`.
pub open spec fn with_high(value: u64, high: u32) -> u64 {
    (value & 0x0000_0000_ffff_ffff) | ((high as u64) << 32u64)
}

/// A virtio queue: its size, whether it is ready, the guest-physical
/// addresses of its descriptor table, available ring and used ring, and
/// how many chains have been taken from it.
pub struct VirtQueue {
    index: usize,
    ready: bool,
    queue_num: usize,
    descriptor_gpa: u64,
    available_gpa: u64,
    used_gpa: u64,
    prev_idx: u16,
}

impl VirtQueue {
    /// The queue's number among the device's queues.
    pub closed spec fn spec_index(&self) -> usize {
        self.index
    }

    /// Whether the queue is ready.
    pub closed spec fn spec_ready(&self) -> bool {
        self.ready
    }

    /// The number of entries of the queue.
    pub closed spec fn spec_num(&self) -> usize {
        self.queue_num
    }

    /// The guest-physical addresses of the descriptor table, the available
    /// ring and the used ring.
    pub closed spec fn spec_addresses(&self) -> (u64, u64, u64) {
        (self.descriptor_gpa, self.available_gpa, self.used_gpa)
    }

    /// The number of chains taken from the available ring.
    pub closed spec fn spec_prev_idx(&self) -> u16 {
        self.prev_idx
    }

    /// A queue that is not ready, of no entries, at address zero.
    pub fn new(index: usize) -> (r: VirtQueue)
        ensures
            r.spec_index() == index,
            !r.spec_ready(),
            r.spec_num() == 0,
            r.spec_addresses() == (0u64, 0u64, 0u64),
            r.spec_prev_idx() == 0,
    {
        VirtQueue { index, ready: false, queue_num: 0, descriptor_gpa: 0, available_gpa: 0, used_gpa: 0, prev_idx: 0 }
    }

    /// The queue's number among the device's queues.
    pub fn index(&self) -> (r: usize)
        ensures
            r == self.spec_index(),
    {
        self.index
    }

    /// Whether the queue is ready.
    pub fn ready(&self) -> (r: bool)
        ensures
            r == self.spec_ready(),
    {
        self.ready
    }

    /// Marks the queue ready or not; a queue made ready starts over at the
    /// start of its rings.
    pub fn set_ready(&mut self, ready: bool)
        ensures
            final(self).spec_ready() == ready,
            final(self).spec_prev_idx() == (if ready { 0 } else { old(self).spec_prev_idx() }),
            final(self).spec_num() == old(self).spec_num(),
            final(self).spec_addresses() == old(self).spec_addresses(),
            final(self).spec_index() == old(self).spec_index(),
    {
        self.ready = ready;
        if ready {
            self.prev_idx = 0;
        }
    }

    /// The largest number of entries a queue can have.
    pub fn num_max(&self) -> (r: usize)
        ensures
            r == 0x1000,
    {
        0x1000
    }

    /// Sets the number of entries.
    pub fn set_num(&mut self, num: usize)
        ensures
            final(self).spec_num() == num,
            final(self).spec_ready() == old(self).spec_ready(),
            final(self).spec_addresses() == old(self).spec_addresses(),
            final(self).spec_prev_idx() == old(self).spec_prev_idx(),
            final(self).spec_index() == old(self).spec_index(),
    {
        self.queue_num = num;
    }

    /// The number of entries.
    pub fn num(&self) -> (r: usize)
        ensures
            r == self.spec_num(),
    {
        self.queue_num
    }

    /// Sets the low half of the descriptor table's address.
    pub fn set_descriptor_low(&mut self, value: u32)
        ensures
            final(self).spec_addresses() == (with_low(old(self).spec_addresses().0, value), old(self).spec_addresses().1, old(
                self,
            ).spec_addresses().2),
            final(self).spec_num() == old(self).spec_num(),
            final(self).spec_ready() == old(self).spec_ready(),
    {
        self.descriptor_gpa = (self.descriptor_gpa & 0xffff_ffff_0000_0000) | (value as u64);
    }

    /// Sets the high half of the descriptor table's address.
    pub fn set_descriptor_high(&mut self, value: u32)
        ensures
            final(self).spec_addresses() == (with_high(old(self).spec_addresses().0, value), old(self).spec_addresses().1, old(
                self,
            ).spec_addresses().2),
            final(self).spec_num() == old(self).spec_num(),
            final(self).spec_ready() == old(self).spec_ready(),
    {
        self.descriptor_gpa = (self.descriptor_gpa & 0x0000_0000_ffff_ffff) | ((value as u64) << 32u64);
    }

    /// Sets the low half of the available ring's address.
    pub fn set_available_low(&mut self, value: u32)
        ensures
            final(self).spec_addresses() == (old(self).spec_addresses().0, with_low(old(self).spec_addresses().1, value), old(
                self,
            ).spec_addresses().2),
            final(self).spec_num() == old(self).spec_num(),
            final(self).spec_ready() == old(self).spec_ready(),
    {
        self.available_gpa = (self.available_gpa & 0xffff_ffff_0000_0000) | (value as u64);
    }

    /// Sets the high half of the available ring's address.
    pub fn set_available_high(&mut self, value: u32)
        ensures
            final(self).spec_addresses() == (old(self).spec_addresses().0, with_high(old(self).spec_addresses().1, value), old(
                self,
            ).spec_addresses().2),
            final(self).spec_num() == old(self).spec_num(),
            final(self).spec_ready() == old(self).spec_ready(),
    {
        self.available_gpa = (self.available_gpa & 0x0000_0000_ffff_ffff) | ((value as u64) << 32u64);
    }

    /// Sets the low half of the used ring's address.
    pub fn set_used_low(&mut self, value: u32)
        ensures
            final(self).spec_addresses() == (old(self).spec_addresses().0, old(self).spec_addresses().1, with_low(
                old(self).spec_addresses().2,
                value,
            )),
            final(self).spec_num() == old(self).spec_num(),
            final(self).spec_ready() == old(self).spec_ready(),
    {
        self.used_gpa = (self.used_gpa & 0xffff_ffff_0000_0000) | (value as u64);
    }

    /// Sets the high half of the used ring's address.
    pub fn set_used_high(&mut self, value: u32)
        ensures
            final(self).spec_addresses() == (old(self).spec_addresses().0, old(self).spec_addresses().1, with_high(
                old(self).spec_addresses().2,
                value,
            )),
            final(self).spec_num() == old(self).spec_num(),
            final(self).spec_ready() == old(self).spec_ready(),
    {
        self.used_gpa = (self.used_gpa & 0x0000_0000_ffff_ffff) | ((value as u64) << 32u64);
    }

    /// The guest-physical addresses of the descriptor table, the available
    /// ring and the used ring.
    pub fn addresses(&self) -> (r: (u64, u64, u64))
        ensures
            r == self.spec_addresses(),
    {
        (self.descriptor_gpa, self.available_gpa, self.used_gpa)
    }

    /// Takes the next chain from the available ring, whose index the guest
    /// has advanced to `available_index`: none where no chain is waiting,
    /// else the slot of the available ring that holds the chain's head,
    /// the one the last index taken points at; the index then advances.
    pub fn pop_slot(&mut self, available_index: u16) -> (r: Option<usize>)
        requires
            available_index >= old(self).spec_prev_idx(),
            available_index - old(self).spec_prev_idx() <= old(self).spec_num(),
            available_index != old(self).spec_prev_idx() ==> old(self).spec_num() > 0 && old(self).spec_prev_idx() < u16::MAX,
        ensures
            available_index == old(self).spec_prev_idx() ==> r is None && final(self).spec_prev_idx() == old(self).spec_prev_idx(),
            available_index != old(self).spec_prev_idx() ==> r == Some(((old(self).spec_prev_idx() as int) % (old(self).spec_num() as int)) as usize)
                && final(self).spec_prev_idx() == old(self).spec_prev_idx() + 1,
            final(self).spec_num() == old(self).spec_num(),
            final(self).spec_ready() == old(self).spec_ready(),
            final(self).spec_addresses() == old(self).spec_addresses(),
    {
        let num_heads = available_index - self.prev_idx;
        if num_heads == 0 {
            return None;
        }
        let slot = (self.prev_idx as usize) % self.queue_num;
        self.prev_idx = self.prev_idx + 1;
        Some(slot)
    }

    /// The slot of the used ring a chain is returned into, where the used
    /// ring's index is `used_index`.
    pub fn push_slot(&self, used_index: u16) -> (r: usize)
        requires
            self.spec_num() > 0,
        ensures
            r == (used_index as int) % (self.spec_num() as int),
    {
        (used_index as usize) % self.queue_num
    }
}

/// Setting the two halves of an address gives the address.
pub proof fn lemma_halves(value: u64, low: u32, high: u32)
    ensures
        with_high(with_low(value, low), high) == ((high as u64) << 32u64) | (low as u64),
        with_low(with_high(value, high), low) == ((high as u64) << 32u64) | (low as u64),
{
    let lo = low as u64;
    let hi = high as u64;
    assert(((((value & 0xffff_ffff_0000_0000u64) | lo) & 0x0000_0000_ffff_ffffu64) | (hi << 32u64)) == (hi << 32u64)
        | lo && ((((value & 0x0000_0000_ffff_ffffu64) | (hi << 32u64)) & 0xffff_ffff_0000_0000u64) | lo) == (hi << 32u64)
        | lo) by (bit_vector)
        requires
            lo <= 0xffff_ffffu64,
            hi <= 0xffff_ffffu64,
    ;
}

} // verus!
