//! [`Duplicate`]: explicit, faithful handle duplication.
//!
//! A pipeline stage clones its validator, its bufferer and its downstream
//! handle once per call, so that concurrent calls on one shared stage do
//! not serialise on a single handle. Duplication must be faithful: the
//! duplicate is the same value, as a reference-counted handle is.

use vstd::prelude::*;

verus! {

/// The ability to hand out an equal, independently owned handle.
pub trait Duplicate: Sized {
    /// A handle to the same value, for an independent call lineage.
    fn duplicate(&self) -> (r: Self)
        ensures
            r == *self,
    ;
}

impl<T> Duplicate for std::sync::Arc<T> {
    fn duplicate(&self) -> (r: Self) {
        self.clone()
    }
}

impl<Data> Duplicate for crate::collect::Bufferer<Data> {
    fn duplicate(&self) -> (r: Self) {
        crate::collect::Bufferer(core::marker::PhantomData)
    }
}

} // verus!
