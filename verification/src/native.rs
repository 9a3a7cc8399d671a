//! What comes back from one primitive of the native engine.

use vstd::prelude::*;
use crate::error::{seen, TchError};

verus! {

/// The reply to one call of a native primitive: the value that the call
/// returned, and the diagnostic that the engine recorded while it ran, if it
/// recorded one. Reading the diagnostic clears it in the engine, so a reply
/// is made once for each call.
#[derive(Debug, PartialEq, Eq)]
pub struct NativeReply<T> {
    /// What the primitive returned. It means nothing when `error` is set.
    pub value: T,
    /// The diagnostic that the engine recorded during the call.
    pub error: Option<String>,
}

impl<T> NativeReply<T> {
    /// What the reply amounts to: a recorded diagnostic makes the call a
    /// failure, whatever value came with it; without one the value stands.
    pub open spec fn outcome(self) -> Result<T, Seq<char>> {
        match self.error {
            Some(text) => Err(text@),
            None => Ok(self.value),
        }
    }

    /// The reply of a call during which the engine recorded nothing.
    pub fn clean(value: T) -> (reply: Self)
        ensures
            reply.value == value,
            reply.error is None,
            reply.outcome() == Ok::<T, Seq<char>>(value),
    {
        NativeReply { value, error: None }
    }

    /// The reply of a call during which the engine recorded `message`.
    pub fn failed(value: T, message: String) -> (reply: Self)
        ensures
            reply.value == value,
            reply.error == Some(message),
            reply.outcome() == Err::<T, Seq<char>>(message@),
    {
        NativeReply { value, error: Some(message) }
    }

    /// Turns the reply into a result. A recorded diagnostic always wins: the
    /// value of a failed call is dropped.
    pub fn into_result(self) -> (result: Result<T, TchError>)
        ensures
            seen(result) == self.outcome(),
    {
        match self.error {
            Some(text) => Err(TchError::Torch(text)),
            None => Ok(self.value),
        }
    }
}

} // verus!
