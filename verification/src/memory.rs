use vstd::prelude::*;

use crate::error::ComputeError;

verus! {

/// The memory resides on the device and is fastest for device access.
pub const DEVICE_LOCAL: u32 = 1;
/// The memory can be mapped into the host address space.
pub const CPU_VISIBLE: u32 = 2;
/// Host writes and device reads (and vice versa) need no explicit
/// flush or invalidate.
pub const COHERENT: u32 = 4;
/// Host-side accesses to mapped ranges are cached.
pub const CPU_CACHED: u32 = 8;

/// One memory type as the device reports it.  Its index is its position
/// in the reported list; `properties` is a bitmask of the flags above.
#[derive(Clone, Copy, Debug, PartialEq, Eq, Structural)]
pub struct MemoryType {
    pub properties: u32,
}

/// `flags` contains every flag of `wanted`.
pub open spec fn contains_flags(flags: u32, wanted: u32) -> bool {
    flags & wanted == wanted
}

/// Bit `i` of the requirement mask is set, meaning the resource may be
/// placed in memory type `i`.
pub open spec fn mask_bit_set(type_mask: u64, i: int) -> bool {
    0 <= i < 64 && (type_mask >> i as u64) & 1 == 1
}

/// Memory type `i` qualifies for a resource: its bit is set in the
/// requirement mask and its property flags contain all wanted flags.
pub open spec fn suitable(types: Seq<MemoryType>, type_mask: u64, wanted: u32, i: int) -> bool {
    &&& 0 <= i < types.len()
    &&& mask_bit_set(type_mask, i)
    &&& contains_flags(types[i].properties, wanted)
}

/// Returns the index of the first reported memory type whose bit is set
/// in `type_mask` and whose property flags are a superset of `wanted`;
/// `NoSuitableMemoryType` exactly when no type qualifies.
pub fn select_memory_type(types: &Vec<MemoryType>, type_mask: u64, wanted: u32) -> (r: Result<
    usize,
    ComputeError,
>)
    ensures
        match r {
            Ok(i) => suitable(types@, type_mask, wanted, i as int) && (forall|j: int|
                0 <= j < i ==> !suitable(types@, type_mask, wanted, j)),
            Err(e) => e == ComputeError::NoSuitableMemoryType && (forall|j: int|
                !suitable(types@, type_mask, wanted, j)),
        },
{
    let n = types.len();
    let mut i: usize = 0;
    while i < n
        invariant
            n == types@.len(),
            i <= n,
            forall|j: int| 0 <= j < i ==> !suitable(types@, type_mask, wanted, j),
        decreases n - i,
    {
        let bit_set = if i < 64 {
            (type_mask >> (i as u64)) & 1 == 1
        } else {
            false
        };
        if bit_set && (types[i].properties & wanted) == wanted {
            return Ok(i);
        }
        i += 1;
    }
    Err(ComputeError::NoSuitableMemoryType)
}

/// Law: memory-type selection is deterministic.  Any two indices that
/// each qualify and have no qualifying index below them are the same
/// index, so repeated selections over a fixed type list, requirement
/// mask and property set agree.
pub proof fn lemma_selection_deterministic(
    types: Seq<MemoryType>,
    type_mask: u64,
    wanted: u32,
    i1: int,
    i2: int,
)
    requires
        suitable(types, type_mask, wanted, i1),
        forall|j: int| 0 <= j < i1 ==> !suitable(types, type_mask, wanted, j),
        suitable(types, type_mask, wanted, i2),
        forall|j: int| 0 <= j < i2 ==> !suitable(types, type_mask, wanted, j),
    ensures
        i1 == i2,
{
    if i1 < i2 {
        assert(!suitable(types, type_mask, wanted, i1));
    }
    if i2 < i1 {
        assert(!suitable(types, type_mask, wanted, i2));
    }
}

} // verus!
