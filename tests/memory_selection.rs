use smelter_vulkan::error::BridgeError;
use smelter_vulkan::memory::{find_memory_type_index, MemoryProperties, DEVICE_LOCAL};

const HOST_VISIBLE: u32 = 2;
const HOST_COHERENT: u32 = 4;

fn props(flags: &[u32]) -> MemoryProperties {
    MemoryProperties { type_flags: flags.to_vec() }
}

#[test]
fn picks_lowest_device_local_type_allowed_by_mask() {
    let p = props(&[HOST_VISIBLE, DEVICE_LOCAL, DEVICE_LOCAL | HOST_VISIBLE, DEVICE_LOCAL]);
    assert_eq!(find_memory_type_index(0b1111, &p), Ok(1));
    assert_eq!(find_memory_type_index(0b1101, &p), Ok(2));
    assert_eq!(find_memory_type_index(0b1001, &p), Ok(3));
}

#[test]
fn no_device_local_candidate_is_an_allocation_error() {
    let p = props(&[HOST_VISIBLE, DEVICE_LOCAL, HOST_VISIBLE | HOST_COHERENT]);
    assert_eq!(find_memory_type_index(0b101, &p), Err(BridgeError::Allocation));
    assert_eq!(find_memory_type_index(0, &p), Err(BridgeError::Allocation));
}

#[test]
fn host_visible_types_are_never_a_fallback() {
    let p = props(&[HOST_VISIBLE | HOST_COHERENT, HOST_VISIBLE]);
    assert_eq!(find_memory_type_index(u32::MAX, &p), Err(BridgeError::Allocation));
}

#[test]
fn empty_memory_table_fails() {
    let p = props(&[]);
    assert_eq!(find_memory_type_index(u32::MAX, &p), Err(BridgeError::Allocation));
}

#[test]
fn highest_addressable_type_can_be_chosen() {
    let mut flags = vec![HOST_VISIBLE; 32];
    flags[31] = DEVICE_LOCAL;
    flags.push(DEVICE_LOCAL);
    let p = MemoryProperties { type_flags: flags };
    assert_eq!(find_memory_type_index(1u32 << 31, &p), Ok(31));
    assert_eq!(find_memory_type_index(0x7fff_ffff, &p), Err(BridgeError::Allocation));
}
