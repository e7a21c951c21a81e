use vstd::prelude::*;
use std::marker::PhantomData;

verus! {

/// Capability token for error type `E`.
///
/// Holding a `Marker<E>` is what allows a computation to signal a failure of
/// type `E`: it is only created where a claim point for `E` exists, so code
/// outside this crate cannot make one.
pub struct Marker<E> {
    phantom: PhantomData<E>,
}

impl<E> Marker<E> {
    /// Creates a token. Only the protocol's own entry points call this, at places
    /// where a failure of type `E` is claimed.
    pub(crate) fn new() -> (r: Self) {
        Marker { phantom: PhantomData }
    }
}

impl<E> Clone for Marker<E> {
    fn clone(&self) -> (r: Self) {
        *self
    }
}

impl<E> Copy for Marker<E> {
}

/// A value that cannot be copied, used to keep a generated argument from being
/// duplicated.
pub struct NoCopy;

} // verus!
