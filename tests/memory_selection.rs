use xtreme_game::buffer::{plan_allocation, Allocator, MemoryRequirements};
use xtreme_game::error::{ErrorKind, RendererError};
use xtreme_game::memory::{
    find_memorytype_index, find_memorytype_index_f, FlagMatch, MEMORY_PROPERTY_DEVICE_LOCAL,
    MEMORY_PROPERTY_HOST_COHERENT, MEMORY_PROPERTY_HOST_VISIBLE,
};

const VISIBLE_COHERENT: u32 = MEMORY_PROPERTY_HOST_VISIBLE | MEMORY_PROPERTY_HOST_COHERENT;

#[test]
fn exact_match_preferred_over_earlier_superset() {
    let types = vec![MEMORY_PROPERTY_DEVICE_LOCAL | VISIBLE_COHERENT, VISIBLE_COHERENT];
    assert_eq!(find_memorytype_index(0b11, &types, VISIBLE_COHERENT), Ok(1));
}

#[test]
fn superset_used_when_no_exact_match() {
    let types = vec![MEMORY_PROPERTY_DEVICE_LOCAL, MEMORY_PROPERTY_DEVICE_LOCAL | VISIBLE_COHERENT];
    assert_eq!(find_memorytype_index(0b11, &types, MEMORY_PROPERTY_HOST_VISIBLE), Ok(1));
}

#[test]
fn disallowed_types_are_skipped() {
    let types = vec![VISIBLE_COHERENT, VISIBLE_COHERENT, VISIBLE_COHERENT];
    assert_eq!(find_memorytype_index(0b100, &types, VISIBLE_COHERENT), Ok(2));
    assert_eq!(find_memorytype_index(0, &types, VISIBLE_COHERENT), Err(RendererError::NoSuitableMemoryType));
}

#[test]
fn no_suitable_memory_type() {
    let types = vec![MEMORY_PROPERTY_DEVICE_LOCAL, MEMORY_PROPERTY_DEVICE_LOCAL];
    let r = find_memorytype_index(0b11, &types, MEMORY_PROPERTY_HOST_VISIBLE);
    assert_eq!(r, Err(RendererError::NoSuitableMemoryType));
    assert_eq!(r.unwrap_err().kind(), ErrorKind::Resource);
}

#[test]
fn single_pass_rules() {
    let types = vec![MEMORY_PROPERTY_DEVICE_LOCAL | VISIBLE_COHERENT, VISIBLE_COHERENT];
    assert_eq!(find_memorytype_index_f(0b11, &types, VISIBLE_COHERENT, FlagMatch::Superset), Some(0));
    assert_eq!(find_memorytype_index_f(0b11, &types, VISIBLE_COHERENT, FlagMatch::Exact), Some(1));
    assert_eq!(find_memorytype_index_f(0b01, &types, VISIBLE_COHERENT, FlagMatch::Exact), None);
}

#[test]
fn selection_property_over_all_small_inputs() {
    let types = vec![0u32, 1, 2, 3, 6, 7];
    for bits in 0..64u32 {
        for flags in 0..8u32 {
            let r = find_memorytype_index(bits, &types, flags);
            let allowed = |i: usize| (bits >> i) & 1 == 1;
            let exact = (0..types.len()).find(|&i| allowed(i) && types[i] == flags);
            let superset = (0..types.len()).find(|&i| allowed(i) && types[i] & flags == flags);
            match (exact, superset) {
                (Some(i), _) => assert_eq!(r, Ok(i as u32)),
                (None, Some(i)) => assert_eq!(r, Ok(i as u32)),
                (None, None) => assert_eq!(r, Err(RendererError::NoSuitableMemoryType)),
            }
        }
    }
}

#[test]
fn allocation_plan_uses_requirement_size() {
    let req = MemoryRequirements { size: 4096, alignment: 256, memory_type_bits: 0b10 };
    let types = vec![VISIBLE_COHERENT, MEMORY_PROPERTY_DEVICE_LOCAL];
    let plan = plan_allocation(&req, &types, MEMORY_PROPERTY_DEVICE_LOCAL).unwrap();
    assert_eq!(plan.allocation_size, 4096);
    assert_eq!(plan.memory_type_index, 1);
    assert_eq!(plan_allocation(&req, &types, VISIBLE_COHERENT), Err(RendererError::NoSuitableMemoryType));
}

#[test]
fn allocator_records_bound_buffers() {
    let req = MemoryRequirements { size: 4048, alignment: 16, memory_type_bits: 0b1 };
    let plan = plan_allocation(&req, &vec![VISIBLE_COHERENT], VISIBLE_COHERENT).unwrap();
    let mut a = Allocator::new();
    assert_eq!(a.create_buffer(11, 21, 4048, 1, plan), 0);
    assert_eq!(a.create_buffer(12, 22, 4048, 2, plan), 1);
    assert_eq!(a.len(), 2);
    let b = a.buffer(1).unwrap();
    assert_eq!((b.buf, b.memory, b.size, b.usage, b.memory_type_index), (12, 22, 4048, 2, 0));
    assert!(a.buffer(2).is_none());
}
