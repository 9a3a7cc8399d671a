//! What holds across the operations of the boundary.

use vstd::prelude::*;
use crate::handle::{ForeignHandle, Ownership, Tensor};
use crate::native::NativeReply;
use crate::python::{
    check_outcome, injected, mismatch_message, unpack_outcome, wrap_outcome, Injected,
};

verus! {

/// The guard and the unpack agree. An unpack ends without a value exactly
/// when the guard answers that the object is no tensor, whatever the unwrap
/// primitive would have said; so an object that is no tensor never makes an
/// unpack fail, and a failure of the guard never passes for "no tensor".
pub proof fn lemma_guard_unpack_agree(guard: NativeReply<bool>, unwrapped: NativeReply<usize>)
    ensures
        check_outcome(guard) == Ok::<bool, Seq<char>>(false) <==> unpack_outcome(guard, unwrapped)
            == Ok::<Option<Tensor>, Seq<char>>(None),
        check_outcome(guard) matches Err(text) ==> unpack_outcome(guard, unwrapped) == Err::<
            Option<Tensor>,
            Seq<char>,
        >(text),
{
}

/// The guard keeps nothing between calls. Two replies of the engine's type
/// check that agree in what they report get the same answer, so asking
/// again about an object that has not changed cannot change the answer.
pub proof fn lemma_guard_repeatable(first: NativeReply<bool>, second: NativeReply<bool>)
    requires
        first.value == second.value,
        first.error is Some <==> second.error is Some,
        first.error is Some ==> first.error->0@ == second.error->0@,
    ensures
        check_outcome(first) == check_outcome(second),
{
}

/// Wrapping and then unpacking hands the engine's handles through
/// unchanged. Where the engine records no failure and the guard knows the
/// object, the object that comes out of the wrap is the one at the address
/// that the wrap primitive returned, and the tensor that comes out of the
/// unpack is the one behind the handle that the unwrap primitive returned:
/// if that is the handle of `tensor`, the round trip gives `tensor` back.
pub proof fn lemma_round_trip_keeps_handles(
    tensor: Tensor,
    wrapped: NativeReply<usize>,
    guard: NativeReply<bool>,
    unwrapped: NativeReply<usize>,
)
    requires
        wrapped.error is None,
        guard.error is None,
        guard.value,
        unwrapped.error is None,
    ensures
        wrap_outcome(wrapped) == Ok::<ForeignHandle, Seq<char>>(
            ForeignHandle { addr: wrapped.value, ownership: Ownership::Owned },
        ),
        unpack_outcome(guard, unwrapped) == Ok::<Option<Tensor>, Seq<char>>(
            Some(Tensor { c_tensor: unwrapped.value }),
        ),
        unwrapped.value == tensor.c_tensor ==> unpack_outcome(guard, unwrapped) == Ok::<
            Option<Tensor>,
            Seq<char>,
        >(Some(tensor)),
{
}

/// The error for an object that is no tensor names the type that was found:
/// its message ends with the text of that type.
pub proof fn lemma_mismatch_names_type(found: Seq<char>)
    ensures
        mismatch_message(found).len() >= found.len(),
        mismatch_message(found).subrange(
            mismatch_message(found).len() - found.len(),
            mismatch_message(found).len() as int,
        ) == found,
{
}

/// An injection never fails. A wrap during which the engine recorded a
/// failure gives the runtime's "no value" object, whatever the diagnostic
/// and whatever address came with it; any other wrap gives the new object.
pub proof fn lemma_injection_falls_back(wrapped: NativeReply<usize>)
    ensures
        wrapped.error is Some ==> injected(wrapped) == Injected::NoValue,
        wrapped.error is None ==> injected(wrapped) == Injected::Object(
            ForeignHandle { addr: wrapped.value, ownership: Ownership::Owned },
        ),
{
}

} // verus!
