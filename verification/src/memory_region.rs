//! Memory regions of a sandbox and the guest-physical mappings that the
//! Windows Hypervisor Platform is asked to make for them.
use vstd::prelude::*;

use core::ops::Range;

verus! {

/// No access.
pub const MEMORY_REGION_FLAG_NONE: u32 = 0;
/// The region may be read.
pub const MEMORY_REGION_FLAG_READ: u32 = 1;
/// The region may be written.
pub const MEMORY_REGION_FLAG_WRITE: u32 = 2;
/// The region may be executed.
pub const MEMORY_REGION_FLAG_EXECUTE: u32 = 4;
/// The region is a stack guard page.
pub const MEMORY_REGION_FLAG_STACK_GUARD: u32 = 8;

/// The `WHV_MAP_GPA_RANGE_FLAGS` value for no access.
pub const WHV_MAP_GPA_RANGE_FLAG_NONE: i32 = 0;
/// The `WHV_MAP_GPA_RANGE_FLAGS` bit for read access.
pub const WHV_MAP_GPA_RANGE_FLAG_READ: i32 = 1;
/// The `WHV_MAP_GPA_RANGE_FLAGS` bit for write access.
pub const WHV_MAP_GPA_RANGE_FLAG_WRITE: i32 = 2;
/// The `WHV_MAP_GPA_RANGE_FLAGS` bit for execute access.
pub const WHV_MAP_GPA_RANGE_FLAG_EXECUTE: i32 = 4;

/// The access flags of a memory region, as a bit set of the
/// `MEMORY_REGION_FLAG_*` values.
#[derive(Clone, Copy, Debug, PartialEq, Eq, Structural)]
pub struct MemoryRegionFlags {
    pub bits: u32,
}

/// A region of guest memory backed by a region of host memory.
#[derive(Debug, PartialEq, Eq)]
pub struct MemoryRegion {
    pub guest_region: Range<usize>,
    pub host_region: Range<usize>,
    pub flags: MemoryRegionFlags,
}

/// The arguments of one `WHvMapGpaRange2` call.
#[derive(Clone, Copy, Debug, PartialEq, Eq, Structural)]
pub struct GpaRangeMapping {
    /// Host address the mapping starts at.
    pub source_address: usize,
    /// Guest-physical address the mapping starts at.
    pub guest_address: u64,
    /// Length of the mapping.
    pub size_in_bytes: u64,
    /// `WHV_MAP_GPA_RANGE_FLAGS` value.
    pub flags: i32,
}

/// Every bit of the flags is one of the known flags.
pub open spec fn known_flags(flags: MemoryRegionFlags) -> bool {
    flags.bits & !0xfu32 == 0
}

/// The mapping flags for region flags: read, write and execute each carry
/// over to the mapping's bit of that access; a stack guard adds nothing.
pub open spec fn gpa_flags_of(flags: MemoryRegionFlags) -> i32 {
    (if flags.bits & MEMORY_REGION_FLAG_READ != 0 {
        WHV_MAP_GPA_RANGE_FLAG_READ
    } else {
        WHV_MAP_GPA_RANGE_FLAG_NONE
    }) | (if flags.bits & MEMORY_REGION_FLAG_WRITE != 0 {
        WHV_MAP_GPA_RANGE_FLAG_WRITE
    } else {
        WHV_MAP_GPA_RANGE_FLAG_NONE
    }) | (if flags.bits & MEMORY_REGION_FLAG_EXECUTE != 0 {
        WHV_MAP_GPA_RANGE_FLAG_EXECUTE
    } else {
        WHV_MAP_GPA_RANGE_FLAG_NONE
    })
}

/// The mapping flags for the access flags of a region. A flag outside the
/// known ones panics ("Invalid flag"), so it is excluded.
pub fn gpa_range_flags(flags: MemoryRegionFlags) -> (result: i32)
    requires
        known_flags(flags),
    ensures
        result == gpa_flags_of(flags),
{
    let read = if flags.bits & MEMORY_REGION_FLAG_READ != 0 {
        WHV_MAP_GPA_RANGE_FLAG_READ
    } else {
        WHV_MAP_GPA_RANGE_FLAG_NONE
    };
    let write = if flags.bits & MEMORY_REGION_FLAG_WRITE != 0 {
        WHV_MAP_GPA_RANGE_FLAG_WRITE
    } else {
        WHV_MAP_GPA_RANGE_FLAG_NONE
    };
    let execute = if flags.bits & MEMORY_REGION_FLAG_EXECUTE != 0 {
        WHV_MAP_GPA_RANGE_FLAG_EXECUTE
    } else {
        WHV_MAP_GPA_RANGE_FLAG_NONE
    };
    read | write | execute
}

/// The mapping that makes a region visible to the guest: from the start of
/// its host range to the start of its guest range, over the length of its
/// guest range, with the access of its flags.
pub fn gpa_range_mapping(region: &MemoryRegion) -> (mapping: GpaRangeMapping)
    requires
        known_flags(region.flags),
        region.guest_region.start <= region.guest_region.end,
    ensures
        mapping.source_address == region.host_region.start,
        mapping.guest_address == region.guest_region.start,
        mapping.size_in_bytes == region.guest_region.end - region.guest_region.start,
        mapping.flags == gpa_flags_of(region.flags),
{
    GpaRangeMapping {
        source_address: region.host_region.start,
        guest_address: region.guest_region.start as u64,
        size_in_bytes: (region.guest_region.end - region.guest_region.start) as u64,
        flags: gpa_range_flags(region.flags),
    }
}

/// The mapping grants exactly the accesses the region's flags name: read,
/// write or execute is granted iff the region has it, and nothing else is.
pub proof fn lemma_gpa_flags_exact(flags: MemoryRegionFlags)
    requires
        known_flags(flags),
    ensures
        (gpa_flags_of(flags) & WHV_MAP_GPA_RANGE_FLAG_READ != 0) == (flags.bits
            & MEMORY_REGION_FLAG_READ != 0),
        (gpa_flags_of(flags) & WHV_MAP_GPA_RANGE_FLAG_WRITE != 0) == (flags.bits
            & MEMORY_REGION_FLAG_WRITE != 0),
        (gpa_flags_of(flags) & WHV_MAP_GPA_RANGE_FLAG_EXECUTE != 0) == (flags.bits
            & MEMORY_REGION_FLAG_EXECUTE != 0),
        gpa_flags_of(flags) & !7i32 == 0,
        gpa_flags_of(flags) == (flags.bits & 7u32) as i32,
{
    let b = flags.bits;
    assert(b & !0xfu32 == 0 ==> ((if b & 1u32 != 0 { 1i32 } else { 0i32 }) | (if b & 2u32 != 0 {
        2i32
    } else {
        0i32
    }) | (if b & 4u32 != 0 { 4i32 } else { 0i32 })) == (b & 7u32) as i32) by (bit_vector);
    let g = gpa_flags_of(flags);
    assert(g == (b & 7u32) as i32);
    assert(((b & 7u32) as i32 & 1i32 != 0) == (b & 1u32 != 0)) by (bit_vector);
    assert(((b & 7u32) as i32 & 2i32 != 0) == (b & 2u32 != 0)) by (bit_vector);
    assert(((b & 7u32) as i32 & 4i32 != 0) == (b & 4u32 != 0)) by (bit_vector);
    assert((b & 7u32) as i32 & !7i32 == 0) by (bit_vector);
}

} // verus!
