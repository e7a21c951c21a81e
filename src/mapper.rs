use vstd::prelude::*;
use std::marker::PhantomData;

use crate::exception::Exception;
use crate::marker::Marker;

verus! {

/// Scope guard that converts an in-flight error of type `T` into one of type
/// `U`.
///
/// It owns a piece of caller state and a conversion `f(state, error)`. It ends
/// in exactly one of two ways, each of which consumes it: [`swallow`] when the
/// guarded computation succeeded (the conversion never runs), or [`fire`] when a
/// failure passes through (the conversion runs at most once).
///
/// [`swallow`]: ExceptionMapper::swallow
/// [`fire`]: ExceptionMapper::fire
#[verifier::reject_recursive_types(S)]
#[verifier::reject_recursive_types(T)]
#[verifier::reject_recursive_types(U)]
pub struct ExceptionMapper<S, T, U, F: FnOnce(S, T) -> U> {
    state: S,
    f: F,
    phantom: PhantomData<(T, U)>,
}

impl<S, T, U, F: FnOnce(S, T) -> U> ExceptionMapper<S, T, U, F> {
    /// The state handed to the conversion.
    pub closed spec fn state(&self) -> S {
        self.state
    }

    /// The conversion.
    pub closed spec fn conversion(&self) -> F {
        self.f
    }

    /// Arms a guard. The marker shows that a claim point for `U` exists.
    pub fn new(_marker: Marker<U>, state: S, f: F) -> (r: Self)
        ensures
            r.state() == state,
            r.conversion() == f,
    {
        ExceptionMapper { state, f, phantom: PhantomData }
    }

    /// A token for the guarded computation: a failure of type `T` inside the
    /// guard is claimed by the guard itself.
    pub fn get_in_marker(&self) -> (r: Marker<T>) {
        Marker::new()
    }

    /// Access to the owned state while the guard is armed.
    pub fn get_state(&mut self) -> (r: &mut S)
        ensures
            *r == old(self).state(),
            final(self).state() == *final(r),
            final(self).conversion() == old(self).conversion(),
    {
        &mut self.state
    }

    /// Disarms the guard after a success: releases the state and the conversion
    /// without running it.
    pub fn swallow(self) {
        let ExceptionMapper { state: _state, f: _f, phantom: _ } = self;
    }

    /// Runs as a failure passes through the guard. If `inner` holds an error of
    /// type `T`, it is taken out, converted with the owned state, and staged in
    /// `outer`. If `inner` is empty, the failure is not ours: `outer` is left as
    /// it is and the state and conversion are released unused.
    pub fn fire(self, inner: &mut Exception<T>, outer: &mut Exception<U>)
        requires
            old(inner)@ is Some ==> old(outer)@ is None && self.conversion().requires(
                (self.state(), old(inner)@->0),
            ),
        ensures
            final(inner)@ is None,
            match old(inner)@ {
                Some(e) => final(outer)@ is Some && self.conversion().ensures(
                    (self.state(), e),
                    final(outer)@->0,
                ),
                None => final(outer)@ == old(outer)@,
            },
    {
        let ExceptionMapper { state, f, phantom: _ } = self;
        match inner.read() {
            Some(error) => {
                let converted = f(state, error);
                outer.write(converted);
            },
            None => {},
        }
    }
}

} // verus!
