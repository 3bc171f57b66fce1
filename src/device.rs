use vstd::prelude::*;

use crate::error::RendererError;

verus! {

/// Bit of a queue family's flags that marks support for graphics operations.
pub const QUEUE_GRAPHICS: u32 = 1;

/// What an adapter reports about one of its queue families.
#[derive(Clone, Copy, Debug, PartialEq, Eq, Structural)]
pub struct QueueFamily {
    pub queue_flags: u32,
    /// The family can present to the target surface.
    pub supports_present: bool,
}

/// One enumerated adapter, described by its queue families in the driver's order.
pub struct Adapter {
    pub queue_families: Vec<QueueFamily>,
}

pub open spec fn family_suitable(f: QueueFamily) -> bool {
    f.queue_flags & QUEUE_GRAPHICS == QUEUE_GRAPHICS && f.supports_present
}

/// `q` is the first family of `families` that supports graphics and presenting.
pub open spec fn first_suitable_family(families: Seq<QueueFamily>, q: int) -> bool {
    &&& 0 <= q < families.len()
    &&& family_suitable(families[q])
    &&& forall|j: int| 0 <= j < q ==> !family_suitable(#[trigger] families[j])
}

pub open spec fn has_suitable_family(families: Seq<QueueFamily>) -> bool {
    exists|q: int| 0 <= q < families.len() && family_suitable(#[trigger] families[q])
}

pub open spec fn families_of(adapters: Seq<Adapter>, d: int) -> Seq<QueueFamily> {
    adapters[d].queue_families@
}

/// The index of the first queue family that supports graphics and can present.
pub fn graphics_queue_index(families: &Vec<QueueFamily>) -> (r: Option<u32>)
    requires
        families@.len() <= u32::MAX,
    ensures
        match r {
            Some(q) => first_suitable_family(families@, q as int),
            None => !has_suitable_family(families@),
        },
{
    let mut i: usize = 0;
    while i < families.len()
        invariant
            i <= families@.len() <= u32::MAX,
            forall|j: int| 0 <= j < i ==> !family_suitable(#[trigger] families@[j]),
        decreases families@.len() - i,
    {
        let f = families[i];
        if f.queue_flags & QUEUE_GRAPHICS == QUEUE_GRAPHICS && f.supports_present {
            return Some(i as u32);
        }
        i += 1;
    }
    None
}

/// The first adapter, in enumeration order, with a queue family that supports graphics
/// and presenting to the target surface, together with that adapter's first such
/// family; `NoSuitableDevice` when no adapter has one.
pub fn pick_physical_device(adapters: &Vec<Adapter>) -> (r: Result<(usize, u32), RendererError>)
    requires
        forall|d: int| 0 <= d < adapters@.len() ==> #[trigger] families_of(adapters@, d).len() <= u32::MAX,
    ensures
        match r {
            Ok((d, q)) => {
                &&& d < adapters@.len()
                &&& first_suitable_family(families_of(adapters@, d as int), q as int)
                &&& forall|e: int|
                    0 <= e < d ==> !has_suitable_family(#[trigger] families_of(adapters@, e))
            },
            Err(e) => e == RendererError::NoSuitableDevice && forall|d: int|
                0 <= d < adapters@.len() ==> !has_suitable_family(#[trigger] families_of(adapters@, d)),
        },
{
    let mut d: usize = 0;
    while d < adapters.len()
        invariant
            d <= adapters@.len(),
            forall|e: int| 0 <= e < adapters@.len() ==> #[trigger] families_of(adapters@, e).len() <= u32::MAX,
            forall|e: int| 0 <= e < d ==> !has_suitable_family(#[trigger] families_of(adapters@, e)),
        decreases adapters@.len() - d,
    {
        assert(families_of(adapters@, d as int).len() <= u32::MAX);
        match graphics_queue_index(&adapters[d].queue_families) {
            Some(q) => return Ok((d, q)),
            None => {},
        }
        d += 1;
    }
    Err(RendererError::NoSuitableDevice)
}

} // verus!
