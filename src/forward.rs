use vstd::prelude::*;

use crate::exception::Exception;
use crate::mapper::ExceptionMapper;
use crate::marker::Marker;
use crate::outcome::{claim, consistent, claimed, signalled, Outcome, Unwind};

verus! {

/// What forwarding `o` through a conversion yields, as a flow `r` and the outer
/// slot `slot`: a success passes through with the slot left empty; a failure
/// unwinds with the slot holding one result of `convert` on `state` and the
/// original error.
pub open spec fn forwarded<T, A, S, E, F: FnOnce(S, A) -> E>(
    o: Result<T, A>,
    state: S,
    convert: F,
    r: Result<T, Unwind>,
    slot: Option<E>,
) -> bool {
    match o {
        Ok(v) => r == Ok::<T, Unwind>(v) && slot is None,
        Err(a) => r is Err && slot is Some && convert.ensures((state, a), slot->0),
    }
}

/// Forwards an outcome whose error type is the one the enclosing scope claims:
/// no guard and no conversion, the error is staged as it is.
pub fn forward_same<R: Outcome>(outcome: R, marker: Marker<R::Error>, slot: &mut Exception<R::Error>) -> (r:
    Result<R::Output, Unwind>)
    requires
        old(slot)@ is None,
    ensures
        (r, final(slot)@) == signalled(outcome.view_result()),
{
    outcome.get_value_or_signal(marker, slot)
}

/// Forwards an outcome whose error type `R::Error` differs from the enclosing
/// scope's `E`. A guard is armed around the inner computation; on success it
/// is disarmed, on failure it converts the inner error with `convert(state, _)`
/// and stages the result in `slot`.
pub fn forward<R: Outcome, S, E, F: FnOnce(S, R::Error) -> E>(
    outcome: R,
    marker: Marker<E>,
    slot: &mut Exception<E>,
    state: S,
    convert: F,
) -> (r: Result<R::Output, Unwind>)
    requires
        old(slot)@ is None,
        outcome.view_result() is Err ==> convert.requires((state, outcome.view_result()->Err_0)),
    ensures
        forwarded(outcome.view_result(), state, convert, r, final(slot)@),
{
    let mapper = ExceptionMapper::new(marker, state, convert);
    let mut inner: Exception<R::Error> = Exception::new();
    let flow = outcome.get_value_or_signal(mapper.get_in_marker(), &mut inner);
    match flow {
        Ok(v) => {
            mapper.swallow();
            Ok(v)
        },
        Err(u) => {
            mapper.fire(&mut inner, slot);
            Err(u)
        },
    }
}

/// Forwarding between identical error types hands the original outcome to
/// the claim point unchanged: no conversion stands between them.
pub proof fn lemma_same_type_forward_is_identity<T, E>(o: Result<T, E>)
    ensures
        consistent(signalled(o).0, signalled(o).1),
        claimed(signalled(o).0, signalled(o).1) == o,
{
}

/// When a failure of type `A` is forwarded into a scope of type `E`, what the
/// claim point sees is a failure holding a result of the conversion applied to
/// the original error, not the original error.
pub proof fn lemma_conversion_reaches_claim<T, A, S, E, F: FnOnce(S, A) -> E>(
    a: A,
    state: S,
    convert: F,
    r: Result<T, Unwind>,
    slot: Option<E>,
)
    requires
        forwarded(Err::<T, A>(a), state, convert, r, slot),
    ensures
        consistent(r, slot),
        claimed(r, slot) is Err,
        convert.ensures((state, a), claimed(r, slot)->Err_0),
{
}

/// When the forwarded computation succeeds, nothing is staged: the value
/// reaches the claim point as it is and the conversion leaves no trace.
pub proof fn lemma_success_never_converts<T, A, S, E, F: FnOnce(S, A) -> E>(
    v: T,
    state: S,
    convert: F,
    r: Result<T, Unwind>,
    slot: Option<E>,
)
    requires
        forwarded(Ok::<T, A>(v), state, convert, r, slot),
    ensures
        r == Ok::<T, Unwind>(v),
        slot is None,
        claimed(r, slot) == Ok::<T, E>(v),
{
}

/// Opens a scope that claims failures of type `E`: creates the slot and the
/// token, runs `body` with them, and rebuilds an ordinary `Result` from what
/// `body` hands back. `body` must hand back its slot holding an error exactly
/// when it signals a failure.
pub fn catch_scope<T, E, B: FnOnce(Marker<E>, Exception<E>) -> (Result<T, Unwind>, Exception<E>)>(body: B) -> (r:
    Result<T, E>)
    requires
        forall|m: Marker<E>, s: Exception<E>| s@ is None ==> #[trigger] body.requires((m, s)),
        forall|m: Marker<E>, s: Exception<E>, out: (Result<T, Unwind>, Exception<E>)|
            s@ is None && #[trigger] body.ensures((m, s), out) ==> consistent(out.0, out.1@),
    ensures
        exists|m: Marker<E>, s: Exception<E>, out: (Result<T, Unwind>, Exception<E>)|
            s@ is None && body.ensures((m, s), out) && r == claimed(out.0, out.1@),
{
    let marker: Marker<E> = Marker::new();
    let slot: Exception<E> = Exception::new();
    let (flow, mut slot) = body(marker, slot);
    claim(flow, &mut slot)
}

} // verus!
