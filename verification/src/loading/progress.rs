//! When preloading is over.

use vstd::prelude::*;

verus! {

/// Loading is over once every queued asset is loaded (or none was queued).
pub fn loading_finished(loaded: usize, total: usize) -> (r: bool)
    ensures
        r == (total == 0 || loaded >= total),
{
    total == 0 || loaded >= total
}

} // verus!
