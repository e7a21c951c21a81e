use vstd::prelude::*;

use crate::exception::Exception;
use crate::marker::Marker;

verus! {

/// Signal that a failure is in flight. The failure's payload is not carried by
/// the signal: it is staged in the caller's [`Exception`] slot.
pub struct Unwind;

/// The flow and the slot contents that signalling `o` into an empty slot yields:
/// a success passes straight through and leaves the slot empty, a failure stages
/// its error unchanged and turns into an [`Unwind`].
pub open spec fn signalled<T, E>(o: Result<T, E>) -> (Result<T, Unwind>, Option<E>) {
    match o {
        Ok(v) => (Ok(v), None),
        Err(e) => (Err(Unwind), Some(e)),
    }
}

/// What a claim point rebuilds from a flow and the slot it owns.
pub open spec fn claimed<T, E>(flow: Result<T, Unwind>, slot: Option<E>) -> Result<T, E> {
    match flow {
        Ok(v) => Ok(v),
        Err(_) => Err(slot->0),
    }
}

/// A flow and a slot agree when the slot holds an error exactly when the flow
/// is unwinding.
pub open spec fn consistent<T, E>(flow: Result<T, Unwind>, slot: Option<E>) -> bool {
    flow is Err <==> slot is Some
}

/// A success passes through signalling unchanged, with the slot empty before
/// and after.
pub proof fn lemma_success_passes_through<T, E>(v: T)
    ensures
        signalled::<T, E>(Ok(v)) == (Ok::<T, Unwind>(v), None::<E>),
        claimed(Ok::<T, Unwind>(v), None::<E>) == Ok::<T, E>(v),
{
}

/// A signalled failure can be read back from the slot as the very same error,
/// and a claim point rebuilds it unchanged.
pub proof fn lemma_failure_round_trip<T, E>(e: E)
    ensures
        signalled::<T, E>(Err(e)).1 == Some(e),
        consistent(signalled::<T, E>(Err(e)).0, signalled::<T, E>(Err(e)).1),
        claimed(signalled::<T, E>(Err(e)).0, signalled::<T, E>(Err(e)).1) == Err::<T, E>(e),
{
}

/// A computation that either yields a value directly or signals a failure.
pub trait Outcome: Sized {
    type Output;

    type Error;

    /// The computation's result as an ordinary `Result`.
    spec fn view_result(&self) -> Result<Self::Output, Self::Error>;

    /// Returns the value on success. On failure, stages the error in `slot` and
    /// returns the [`Unwind`] signal; the marker proves that a claim point for
    /// the error type exists.
    fn get_value_or_signal(self, marker: Marker<Self::Error>, slot: &mut Exception<Self::Error>) -> (r:
        Result<Self::Output, Unwind>)
        requires
            old(slot)@ is None,
        ensures
            (r, final(slot)@) == signalled(self.view_result()),
    ;

    /// The computation's result as an ordinary `Result`.
    fn into_result(self) -> (r: Result<Self::Output, Self::Error>)
        ensures
            r == self.view_result(),
    ;
}

impl<T, E> Outcome for Result<T, E> {
    type Output = T;

    type Error = E;

    open spec fn view_result(&self) -> Result<T, E> {
        *self
    }

    fn get_value_or_signal(self, marker: Marker<E>, slot: &mut Exception<E>) -> (r: Result<T, Unwind>) {
        match self {
            Ok(v) => Ok(v),
            Err(e) => {
                slot.write(e);
                Err(Unwind)
            },
        }
    }

    fn into_result(self) -> (r: Result<T, E>) {
        self
    }
}

/// Claim point: turns a flow back into an ordinary `Result`, taking the staged
/// error out of `slot`. The slot is empty afterwards.
pub fn claim<T, E>(flow: Result<T, Unwind>, slot: &mut Exception<E>) -> (r: Result<T, E>)
    requires
        consistent(flow, old(slot)@),
    ensures
        r == claimed(flow, old(slot)@),
        final(slot)@ is None,
{
    let staged = slot.read();
    match flow {
        Ok(v) => Ok(v),
        Err(_) => Err(staged.unwrap()),
    }
}

} // verus!
