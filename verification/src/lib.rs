//! A bridge between native tensor handles and the objects of an embedding
//! Python runtime.
//!
//! Three operations cross the boundary: a guard that tells whether an object
//! wraps a tensor, a wrap that makes a new object around a tensor, and an
//! unpack that recovers the tensor from an object. The primitives of the
//! native engine work on raw handles and are run by the caller; this crate
//! decides what each of their replies means, which primitive comes next, and
//! how a failure is shown to the runtime.

pub mod error;
pub mod handle;
pub mod laws;
pub mod native;
pub mod python;

pub use crate::error::TchError;
pub use crate::handle::{ForeignHandle, Ownership, Tensor};
pub use crate::native::NativeReply;
pub use crate::python::{borrowed_handle, pyobject_check, type_mismatch, wrap_tch_err, Injected, PyTensor, Unpack};
