//! A join counter ("wait group"): a shared count of outstanding units of
//! work that can be raised as work is spawned, lowered as work completes,
//! and waited on until it reaches zero.
use vstd::prelude::*;

pub mod bytes;
pub mod count;
pub mod laws;
pub mod slot;

verus! {

/// Returns the constant four.
pub fn it_works() -> (r: usize)
    ensures
        r == 4,
{
    4
}

} // verus!
