use vstd::prelude::*;

use crate::error::RendererError;
use crate::memory::{find_memorytype_index, selected_type, no_suitable_type, MAX_MEMORY_TYPES};

verus! {

/// Size, alignment and allowed memory types that the driver reports for a resource.
#[derive(Clone, Copy, Debug, PartialEq, Eq, Structural)]
pub struct MemoryRequirements {
    pub size: u64,
    pub alignment: u64,
    pub memory_type_bits: u32,
}

/// How much memory to allocate for a resource, and of which type.
#[derive(Clone, Copy, Debug, PartialEq, Eq, Structural)]
pub struct AllocationPlan {
    pub allocation_size: u64,
    pub memory_type_index: u32,
}

/// A device buffer together with the memory bound to it. Handles are the driver's raw
/// handle values.
#[derive(Clone, Copy, Debug, PartialEq, Eq, Structural)]
pub struct Buffer {
    pub buf: u64,
    pub memory: u64,
    pub size: u64,
    pub usage: u32,
    pub memory_type_index: u32,
}

/// Decides the allocation for a freshly created buffer: the whole reported size, in the
/// memory type that two-pass selection picks for `properties`.
pub fn plan_allocation(req: &MemoryRequirements, memory_types: &Vec<u32>, properties: u32) -> (r: Result<
    AllocationPlan,
    RendererError,
>)
    requires
        memory_types@.len() <= MAX_MEMORY_TYPES,
    ensures
        match r {
            Ok(p) => p.allocation_size == req.size && selected_type(
                req.memory_type_bits,
                memory_types@,
                properties,
                p.memory_type_index as int,
            ),
            Err(e) => e == RendererError::NoSuitableMemoryType && no_suitable_type(
                req.memory_type_bits,
                memory_types@,
                properties,
            ),
        },
{
    match find_memorytype_index(req.memory_type_bits, memory_types, properties) {
        Ok(i) => Ok(AllocationPlan { allocation_size: req.size, memory_type_index: i }),
        Err(e) => Err(e),
    }
}

/// Owns the records of every buffer created through it. A buffer is recorded only once
/// its memory has been allocated by its plan and bound, so no caller ever sees one
/// unbound.
pub struct Allocator {
    buffers: Vec<Buffer>,
}

impl View for Allocator {
    type V = Seq<Buffer>;

    closed spec fn view(&self) -> Seq<Buffer> {
        self.buffers@
    }
}

impl Allocator {
    pub fn new() -> (r: Allocator)
        ensures
            r@ == Seq::<Buffer>::empty(),
    {
        Allocator { buffers: Vec::new() }
    }

    /// Records a buffer whose memory, allocated as `plan` says, is bound to it, and
    /// returns its index.
    pub fn create_buffer(&mut self, buf: u64, memory: u64, size: u64, usage: u32, plan: AllocationPlan) -> (r:
        usize)
        ensures
            final(self)@ == old(self)@.push(
                Buffer { buf, memory, size, usage, memory_type_index: plan.memory_type_index },
            ),
            r == old(self)@.len(),
    {
        self.buffers.push(
            Buffer { buf, memory, size, usage, memory_type_index: plan.memory_type_index },
        );
        self.buffers.len() - 1
    }

    pub fn buffer(&self, index: usize) -> (r: Option<Buffer>)
        ensures
            index < self@.len() ==> r == Some(self@[index as int]),
            index >= self@.len() ==> r.is_none(),
    {
        if index < self.buffers.len() {
            Some(self.buffers[index])
        } else {
            None
        }
    }

    pub fn len(&self) -> (r: usize)
        ensures
            r == self@.len(),
    {
        self.buffers.len()
    }
}

} // verus!
