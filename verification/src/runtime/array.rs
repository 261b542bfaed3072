use vstd::prelude::*;

verus! {

/// The number of items an array has room for.
pub type ArrayCapacity = u32;

/// The capacity of an array's first allocation.
pub const DEFAULT_ARRAY_SIZE: ArrayCapacity = 8;

/// The capacity to grow an array of capacity `len` to: the default size for a small
/// array, else half as much again.
pub fn growth(len: ArrayCapacity) -> (r: ArrayCapacity)
    requires
        len < DEFAULT_ARRAY_SIZE || len + len / 2 <= ArrayCapacity::MAX,
    ensures
        r == if len < DEFAULT_ARRAY_SIZE {
            DEFAULT_ARRAY_SIZE as int
        } else {
            len + len / 2
        },
        r > len,
        r >= DEFAULT_ARRAY_SIZE,
{
    if len < DEFAULT_ARRAY_SIZE {
        DEFAULT_ARRAY_SIZE
    } else {
        assert(len >> 1 == len / 2) by (bit_vector);
        len + (len >> 1)
    }
}

} // verus!
