//! Sizing of the worker pool that skins the Spine characters.

use vstd::prelude::*;

verus! {

/// Workers in the pool for a machine with `logical_cores` cores: all but
/// two (one kept for drawing, one for audio), and at least one.
pub fn worker_threads(logical_cores: usize) -> (n: usize)
    ensures
        logical_cores > 2 ==> n == logical_cores - 2,
        logical_cores <= 2 ==> n == 1,
{
    if logical_cores > 2 {
        logical_cores - 2
    } else {
        1
    }
}

} // verus!
