//! The memory that compiled modules and components report to Ruby's
//! garbage collector: the extent of their code image.
use vstd::prelude::*;

verus! {

/// The size of the image between two addresses; an empty or inverted
/// range counts as nothing.
pub open spec fn image_extent(start: nat, end: nat) -> nat {
    if end > start {
        (end - start) as nat
    } else {
        0
    }
}

/// The number of bytes of a compiled image that starts at `start` and ends
/// (exclusively) at `end`.
pub fn image_size(start: usize, end: usize) -> (n: usize)
    ensures
        n == image_extent(start as nat, end as nat),
{
    if end > start {
        end - start
    } else {
        0
    }
}

} // verus!
