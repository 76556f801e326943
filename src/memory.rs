//! Selection of the memory type that backs a bridge image.
use vstd::prelude::*;

use crate::error::BridgeError;

verus! {

/// The property bit that marks a memory type as device-local.
pub const DEVICE_LOCAL: u32 = 1;

/// Number of memory types a requirements bitmask can address.
pub const MAX_MEMORY_TYPES: u32 = 32;

/// The memory types of a physical device: the property flags of each type, by index.
pub struct MemoryProperties {
    pub type_flags: Vec<u32>,
}

/// Bit `i` of the requirements bitmask allows memory type `i`.
pub open spec fn type_allowed(type_bits: u32, i: int) -> bool {
    0 <= i < 32 && (type_bits >> (i as u32)) & 1u32 == 1u32
}

pub open spec fn is_device_local(flags: u32) -> bool {
    flags & DEVICE_LOCAL == DEVICE_LOCAL
}

/// Memory type `i` exists, is allowed by the bitmask and is device-local.
pub open spec fn is_candidate(type_bits: u32, flags: Seq<u32>, i: int) -> bool {
    &&& 0 <= i < flags.len()
    &&& type_allowed(type_bits, i)
    &&& is_device_local(flags[i])
}

pub open spec fn has_candidate(type_bits: u32, flags: Seq<u32>) -> bool {
    exists|i: int| #[trigger] is_candidate(type_bits, flags, i)
}

/// The lowest-indexed candidate, where there is one.
pub open spec fn lowest_candidate(type_bits: u32, flags: Seq<u32>) -> int {
    choose|i: int|
        is_candidate(type_bits, flags, i) && forall|j: int| 0 <= j < i ==> !#[trigger] is_candidate(type_bits, flags, j)
}

/// Picks the lowest-indexed memory type that the requirements bitmask allows and
/// that is device-local. There is no fallback to other memory: when no such type
/// exists the result is `BridgeError::Allocation`.
pub fn find_memory_type_index(type_bits: u32, props: &MemoryProperties) -> (r: Result<u32, BridgeError>)
    ensures
        match r {
            Ok(i) => {
                &&& is_candidate(type_bits, props.type_flags@, i as int)
                &&& forall|j: int| 0 <= j < i ==> !#[trigger] is_candidate(type_bits, props.type_flags@, j)
            },
            Err(e) => {
                &&& e == BridgeError::Allocation
                &&& !has_candidate(type_bits, props.type_flags@)
            },
        },
{
    let n = props.type_flags.len();
    let mut i: u32 = 0;
    while i < MAX_MEMORY_TYPES && (i as usize) < n
        invariant
            i <= 32,
            n == props.type_flags@.len(),
            forall|j: int| 0 <= j < i ==> !#[trigger] is_candidate(type_bits, props.type_flags@, j),
        decreases 32 - i,
    {
        let allowed = (type_bits >> i) & 1u32 == 1u32;
        if allowed && props.type_flags[i as usize] & DEVICE_LOCAL == DEVICE_LOCAL {
            return Ok(i);
        }
        i = i + 1;
    }
    proof {
        assert forall|j: int| !#[trigger] is_candidate(type_bits, props.type_flags@, j) by {
            if 0 <= j < i {
            }
        }
    }
    Err(BridgeError::Allocation)
}

/// Where some memory type is a candidate, there is a lowest one, and
/// `lowest_candidate` names it.
pub proof fn lemma_lowest_candidate(type_bits: u32, flags: Seq<u32>)
    requires
        has_candidate(type_bits, flags),
    ensures
        is_candidate(type_bits, flags, lowest_candidate(type_bits, flags)),
        forall|j: int| 0 <= j < lowest_candidate(type_bits, flags) ==> !#[trigger] is_candidate(type_bits, flags, j),
{
    let i = choose|i: int| is_candidate(type_bits, flags, i);
    lemma_lowest_below(type_bits, flags, i);
}

proof fn lemma_lowest_below(type_bits: u32, flags: Seq<u32>, i: int)
    requires
        is_candidate(type_bits, flags, i),
    ensures
        exists|k: int|
            is_candidate(type_bits, flags, k) && forall|j: int| 0 <= j < k ==> !#[trigger] is_candidate(type_bits, flags, j),
    decreases i,
{
    if exists|j: int| 0 <= j < i && is_candidate(type_bits, flags, j) {
        let j = choose|j: int| 0 <= j < i && is_candidate(type_bits, flags, j);
        lemma_lowest_below(type_bits, flags, j);
    } else {
        assert(forall|j: int| 0 <= j < i ==> !#[trigger] is_candidate(type_bits, flags, j));
    }
}

/// The selection is determined by the requirements and the memory table
/// alone: the exporting and the importing device, given the same requirements
/// and the same memory types, bind the shared image to the same memory type.
pub proof fn lemma_selection_is_unique(type_bits: u32, flags: Seq<u32>, a: int, b: int)
    requires
        is_candidate(type_bits, flags, a),
        forall|j: int| 0 <= j < a ==> !#[trigger] is_candidate(type_bits, flags, j),
        is_candidate(type_bits, flags, b),
        forall|j: int| 0 <= j < b ==> !#[trigger] is_candidate(type_bits, flags, j),
    ensures
        a == b,
{
}

} // verus!
