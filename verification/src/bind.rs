//! Access to data that may not exist.

use vstd::prelude::*;

verus! {

/// Something that holds data which may not exist.
pub trait Bind {
    /// The data that is held.
    type Input;

    /// What the access to the data gives.
    type Output;

    /// Safely accesses the data: `f` is called on the data if it exists,
    /// and not at all if it does not.
    fn bind(&mut self, f: impl FnMut(&mut Self::Input) -> Self::Output);
}

} // verus!
