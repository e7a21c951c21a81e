use vstd::prelude::*;

verus! {

/// Single-value storage for an error that is in flight.
///
/// The slot is owned by the call tree that uses it and is never shared between
/// threads. It is empty whenever no failure is being propagated.
pub struct Exception<E> {
    value: Option<E>,
}

impl<E> View for Exception<E> {
    type V = Option<E>;

    closed spec fn view(&self) -> Option<E> {
        self.value
    }
}

impl<E> Exception<E> {
    /// An empty slot.
    pub fn new() -> (r: Self)
        ensures
            r@ is None,
    {
        Exception { value: None }
    }

    /// Whether no error is staged.
    pub fn is_empty(&self) -> (r: bool)
        ensures
            r == (self@ is None),
    {
        self.value.is_none()
    }

    /// Stages `error`. Writing into an occupied slot is a protocol violation,
    /// excluded by the precondition.
    pub fn write(&mut self, error: E)
        requires
            old(self)@ is None,
        ensures
            final(self)@ == Some(error),
    {
        self.value = Some(error);
    }

    /// Takes the staged error out, leaving the slot empty.
    pub fn read(&mut self) -> (r: Option<E>)
        ensures
            r == old(self)@,
            final(self)@ is None,
    {
        self.value.take()
    }
}

} // verus!
