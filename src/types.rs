//! Static dispatch through a boxed backend.

use vstd::prelude::*;

verus! {

/// A backend that maps each number to its successor.
pub struct _PositiveBackend;

impl _PositiveBackend {
    /// `number + 1`.
    pub fn compute(&self, number: u64) -> (r: u64)
        requires
            number < u64::MAX,
        ensures
            r == number + 1,
    {
        number + 1
    }
}

} // verus!
