use vstd::prelude::*;

use crate::error::RendererError;

verus! {

/// Most memory types a device can report.
pub const MAX_MEMORY_TYPES: usize = 32;

pub const MEMORY_PROPERTY_DEVICE_LOCAL: u32 = 1;
pub const MEMORY_PROPERTY_HOST_VISIBLE: u32 = 2;
pub const MEMORY_PROPERTY_HOST_COHERENT: u32 = 4;

/// How a candidate memory type's property flags are compared with the requested ones.
#[derive(Clone, Copy, Debug, PartialEq, Eq, Structural)]
pub enum FlagMatch {
    /// The flags are exactly the requested ones.
    Exact,
    /// The flags hold at least the requested ones.
    Superset,
}

/// Bit `i` of a resource's memory requirement allows memory type `i`.
pub open spec fn type_allowed(type_bits: u32, i: int) -> bool {
    0 <= i < 32 && (type_bits >> (i as u32)) & 1 == 1
}

pub open spec fn flags_match(rule: FlagMatch, property_flags: u32, flags: u32) -> bool {
    match rule {
        FlagMatch::Exact => property_flags == flags,
        FlagMatch::Superset => property_flags & flags == flags,
    }
}

/// Memory type `i` is allowed and its flags satisfy `rule`.
pub open spec fn candidate(type_bits: u32, types: Seq<u32>, flags: u32, rule: FlagMatch, i: int) -> bool {
    0 <= i < types.len() && type_allowed(type_bits, i) && flags_match(rule, types[i], flags)
}

/// `i` is the lowest index that is a candidate under `rule`.
pub open spec fn first_candidate(
    type_bits: u32,
    types: Seq<u32>,
    flags: u32,
    rule: FlagMatch,
    i: int,
) -> bool {
    candidate(type_bits, types, flags, rule, i) && forall|j: int|
        0 <= j < i ==> !candidate(type_bits, types, flags, rule, j)
}

pub open spec fn has_candidate(type_bits: u32, types: Seq<u32>, flags: u32, rule: FlagMatch) -> bool {
    exists|i: int| candidate(type_bits, types, flags, rule, i)
}

/// The lowest memory type index allowed by `type_bits` whose property flags satisfy
/// `rule` against `flags`; `types` holds each memory type's property flags.
pub fn find_memorytype_index_f(type_bits: u32, types: &Vec<u32>, flags: u32, rule: FlagMatch) -> (r:
    Option<u32>)
    requires
        types@.len() <= MAX_MEMORY_TYPES,
    ensures
        match r {
            Some(i) => first_candidate(type_bits, types@, flags, rule, i as int),
            None => !has_candidate(type_bits, types@, flags, rule),
        },
{
    let mut i: usize = 0;
    while i < types.len()
        invariant
            0 <= i <= types@.len() <= MAX_MEMORY_TYPES,
            forall|j: int| 0 <= j < i ==> !candidate(type_bits, types@, flags, rule, j),
        decreases types@.len() - i,
    {
        let allowed = (type_bits >> (i as u32)) & 1 == 1;
        let p = types[i];
        let matches = match rule {
            FlagMatch::Exact => p == flags,
            FlagMatch::Superset => p & flags == flags,
        };
        if allowed && matches {
            return Some(i as u32);
        }
        i += 1;
    }
    None
}

/// `i` is what two-pass selection picks: the first exact match when there is one,
/// else the first superset match.
pub open spec fn selected_type(type_bits: u32, types: Seq<u32>, flags: u32, i: int) -> bool {
    if has_candidate(type_bits, types, flags, FlagMatch::Exact) {
        first_candidate(type_bits, types, flags, FlagMatch::Exact, i)
    } else {
        first_candidate(type_bits, types, flags, FlagMatch::Superset, i)
    }
}

pub open spec fn no_suitable_type(type_bits: u32, types: Seq<u32>, flags: u32) -> bool {
    !has_candidate(type_bits, types, flags, FlagMatch::Exact) && !has_candidate(
        type_bits,
        types,
        flags,
        FlagMatch::Superset,
    )
}

/// Memory-type selection in two passes: the first allowed type whose flags equal
/// `flags`; failing that, the first allowed type whose flags include `flags`;
/// failing that, `NoSuitableMemoryType`.
pub fn find_memorytype_index(type_bits: u32, types: &Vec<u32>, flags: u32) -> (r: Result<u32, RendererError>)
    requires
        types@.len() <= MAX_MEMORY_TYPES,
    ensures
        match r {
            Ok(i) => selected_type(type_bits, types@, flags, i as int),
            Err(e) => e == RendererError::NoSuitableMemoryType && no_suitable_type(type_bits, types@, flags),
        },
{
    match find_memorytype_index_f(type_bits, types, flags, FlagMatch::Exact) {
        Some(i) => Ok(i),
        None => match find_memorytype_index_f(type_bits, types, flags, FlagMatch::Superset) {
            Some(i) => Ok(i),
            None => Err(RendererError::NoSuitableMemoryType),
        },
    }
}

/// Selection picks an exactly matching type whenever one is allowed, a type holding the
/// requested flags otherwise, and fails only when neither exists; an exact match is
/// also a superset match, so the second pass finds something whenever the first does.
pub proof fn lemma_selection_prefers_exact(type_bits: u32, types: Seq<u32>, flags: u32, i: int)
    ensures
        candidate(type_bits, types, flags, FlagMatch::Exact, i) ==> candidate(
            type_bits,
            types,
            flags,
            FlagMatch::Superset,
            i,
        ),
        selected_type(type_bits, types, flags, i) ==> types[i] & flags == flags && type_allowed(
            type_bits,
            i,
        ),
        has_candidate(type_bits, types, flags, FlagMatch::Exact) && selected_type(type_bits, types, flags, i)
            ==> types[i] == flags,
{
    if candidate(type_bits, types, flags, FlagMatch::Exact, i) {
        let p = types[i];
        assert(p & flags == flags) by (bit_vector)
            requires
                p == flags,
        ;
    }
}

} // verus!
