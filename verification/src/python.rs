//! The three operations on the boundary, and the value that carries a tensor
//! through the runtime's conversion protocol.
//!
//! The engine's primitives take raw handles, so the caller runs them. Each
//! function here takes the reply of a primitive and decides what it means;
//! [`Unpack`] also says which primitive has to run next.

use core::ops::Deref;
use pyo3::exceptions::{PyTypeError, PyValueError};
use pyo3::types::{PyAnyMethods, PyType};
use pyo3::{Bound, PyAny, PyErr};
use vstd::prelude::*;
use vstd::string::StringExecFns;
use crate::error::{seen, TchError};
use crate::handle::{ForeignHandle, Ownership, Tensor};
use crate::native::NativeReply;

verus! {

#[verifier::external_type_specification]
#[verifier::external_body]
pub struct ExPyErr(PyErr);

#[verifier::external_type_specification]
#[verifier::external_body]
pub struct ExPyAny(PyAny);

#[verifier::external_type_specification]
#[verifier::external_body]
pub struct ExPyType(PyType);

#[verifier::external_type_specification]
#[verifier::external_body]
#[verifier::reject_recursive_types(T)]
pub struct ExBound<'py, T>(Bound<'py, T>);

/// The exception that the runtime raises as a `ValueError` with `message`.
pub uninterp spec fn value_error(message: Seq<char>) -> PyErr;

/// The exception that the runtime raises as a `TypeError` with `message`.
pub uninterp spec fn type_error(message: Seq<char>) -> PyErr;

/// `PyErr::new` of pyo3 for the exception type `PyValueError`. The exception
/// is built from the type and the message alone, and only once the runtime
/// asks for it; the call itself cannot fail.
#[verifier::external_body]
fn py_value_error(message: String) -> (raised: PyErr)
    ensures
        raised == value_error(message@),
{
    PyErr::new::<PyValueError, _>(message)
}

/// `PyErr::new` of pyo3 for the exception type `PyTypeError`. The exception
/// is built from the type and the message alone, and only once the runtime
/// asks for it; the call itself cannot fail.
#[verifier::external_body]
fn py_type_error(message: String) -> (raised: PyErr)
    ensures
        raised == type_error(message@),
{
    PyErr::new::<PyTypeError, _>(message)
}

/// `Bound::as_ptr` of pyo3: the address of the object, lent for as long as
/// `ob` lives. Nothing is claimed of the address.
#[verifier::external_body]
fn object_address(ob: &Bound<'_, PyAny>) -> usize {
    ob.as_ptr() as usize
}

/// `PyAnyMethods::get_type` of pyo3: the type of the object. Nothing is
/// claimed of it.
#[verifier::external_body]
fn object_type<'py>(ob: &Bound<'py, PyAny>) -> Bound<'py, PyType> {
    ob.get_type()
}

/// `Display` of pyo3 for a bound object, here a type: the text that the
/// runtime's `str` gives for it, or a stand-in if `str` raises. Nothing is
/// claimed of the text.
#[verifier::external_body]
fn display_text(ty: &Bound<'_, PyType>) -> String {
    format!("{}", ty)
}

/// What the guard answers from the reply of the engine's type check: whether
/// the object wraps a tensor, or the engine's failure.
pub open spec fn check_outcome(reply: NativeReply<bool>) -> Result<bool, Seq<char>> {
    reply.outcome()
}

/// What a wrap gives from the reply of the engine's wrap primitive: a new
/// reference, owned by the caller, to the object at the address that the
/// primitive returned, or the engine's failure.
pub open spec fn wrap_outcome(reply: NativeReply<usize>) -> Result<ForeignHandle, Seq<char>> {
    match reply.outcome() {
        Ok(addr) => Ok(ForeignHandle { addr, ownership: Ownership::Owned }),
        Err(text) => Err(text),
    }
}

/// What an unpack gives from the replies of the guard and of the engine's
/// unwrap primitive. The second reply counts only where the guard has said
/// that the object wraps a tensor.
pub open spec fn unpack_outcome(guard: NativeReply<bool>, unwrapped: NativeReply<usize>) -> Result<
    Option<Tensor>,
    Seq<char>,
> {
    match check_outcome(guard) {
        Err(text) => Err(text),
        Ok(false) => Ok(None),
        Ok(true) => match unwrapped.outcome() {
            Err(text) => Err(text),
            Ok(addr) => Ok(Some(Tensor { c_tensor: addr })),
        },
    }
}

/// What the guard's reply alone settles of an unpack: a failure of the guard
/// ends it with that failure, an object that is no tensor ends it without a
/// value, and a tensor leaves it open until the unwrap primitive has run.
pub open spec fn settled_by_guard(guard: NativeReply<bool>) -> Option<
    Result<Option<Tensor>, Seq<char>>,
> {
    match check_outcome(guard) {
        Err(text) => Some(Err(text)),
        Ok(false) => Some(Ok(None)),
        Ok(true) => None,
    }
}

/// The message of the error for an object that is no tensor. `found` is the
/// text of the object's type.
pub open spec fn mismatch_message(found: Seq<char>) -> Seq<char> {
    "expected a torch.Tensor, got "@ + found
}

/// The reference that the runtime lends to `ob` for the length of a call.
pub fn borrowed_handle(ob: &Bound<'_, PyAny>) -> (handle: ForeignHandle)
    ensures
        handle.ownership == Ownership::Borrowed,
{
    ForeignHandle::borrowed(object_address(ob))
}

/// Tells from the reply of the engine's type check whether the object wraps
/// a tensor. The object is neither consumed nor changed: the check reads it.
pub fn pyobject_check(reply: NativeReply<bool>) -> (result: Result<bool, TchError>)
    ensures
        seen(result) == check_outcome(reply),
{
    reply.into_result()
}

/// Where an unpack stands once the guard has answered.
#[derive(Debug, PartialEq, Eq)]
pub enum Unpack {
    /// The unpack is over. No further primitive may run for it.
    Done(Result<Option<Tensor>, TchError>),
    /// The object wraps a tensor: the engine's unwrap primitive has to run
    /// on this handle, and its reply goes to [`Unpack::complete`].
    Unwrap(ForeignHandle),
}

impl Unpack {
    /// The handle on which the unwrap primitive has to run, if it has to.
    pub open spec fn awaited(self) -> Option<ForeignHandle> {
        match self {
            Unpack::Done(_) => None,
            Unpack::Unwrap(pyobject) => Some(pyobject),
        }
    }

    /// The result of the unpack, once it is over.
    pub open spec fn settled(self) -> Option<Result<Option<Tensor>, Seq<char>>> {
        match self {
            Unpack::Done(result) => Some(seen(result)),
            Unpack::Unwrap(_) => None,
        }
    }

    /// What the unpack gives once the unwrap primitive has replied. An
    /// unpack that was over before keeps its result.
    pub open spec fn completed(self, unwrapped: NativeReply<usize>) -> Result<
        Option<Tensor>,
        Seq<char>,
    > {
        match self {
            Unpack::Done(result) => seen(result),
            Unpack::Unwrap(_) => match unwrapped.outcome() {
                Err(text) => Err(text),
                Ok(addr) => Ok(Some(Tensor { c_tensor: addr })),
            },
        }
    }

    /// Ends the unpack with the reply of the unwrap primitive: the tensor
    /// behind the handle that the primitive returned, or the engine's
    /// failure. An unpack that was over before keeps its result, and the
    /// reply is not looked at.
    pub fn complete(self, unwrapped: NativeReply<usize>) -> (result: Result<
        Option<Tensor>,
        TchError,
    >)
        ensures
            seen(result) == self.completed(unwrapped),
    {
        match self {
            Unpack::Done(result) => result,
            Unpack::Unwrap(_) => match unwrapped.into_result() {
                Ok(addr) => Ok(Some(Tensor::from_ptr(addr))),
                Err(err) => Err(err),
            },
        }
    }
}

impl Tensor {
    /// Makes of the reply of the engine's wrap primitive the new object that
    /// wraps this tensor. The tensor stays with the caller. The reference
    /// that comes back is a new one, which the caller owns; after a failure
    /// no handle comes back at all.
    pub fn pyobject_wrap(&self, reply: NativeReply<usize>) -> (result: Result<
        ForeignHandle,
        TchError,
    >)
        ensures
            seen(result) == wrap_outcome(reply),
    {
        match reply.into_result() {
            Ok(addr) => Ok(ForeignHandle::owned(addr)),
            Err(err) => Err(err),
        }
    }

    /// The first step of an unpack, from the guard's reply about `pyobject`.
    /// If the guard failed, the unpack is over with that failure. If the
    /// object is no tensor, the unpack is over without a value, which is no
    /// failure, and the unwrap primitive must not run. Only if the object is
    /// a tensor does the unwrap primitive have to run, on the same handle.
    pub fn pyobject_unpack(pyobject: ForeignHandle, guard: NativeReply<bool>) -> (next: Unpack)
        ensures
            next.awaited() == (if check_outcome(guard) == Ok::<bool, Seq<char>>(true) {
                Some(pyobject)
            } else {
                None
            }),
            next.settled() == settled_by_guard(guard),
            forall|unwrapped: NativeReply<usize>| #[trigger]
                next.completed(unwrapped) == unpack_outcome(guard, unwrapped),
    {
        match pyobject_check(guard) {
            Err(err) => Unpack::Done(Err(err)),
            Ok(false) => Unpack::Done(Ok(None)),
            Ok(true) => Unpack::Unwrap(pyobject),
        }
    }
}

/// A tensor on its way through the runtime's conversion protocol: taken out
/// of an object that the runtime passes in, or put into one that goes back.
#[derive(Debug, PartialEq, Eq)]
pub struct PyTensor(pub Tensor);

impl Deref for PyTensor {
    type Target = Tensor;

    fn deref(&self) -> (tensor: &Tensor)
        ensures
            *tensor == self.0,
    {
        &self.0
    }
}

/// Shows a failure of the engine to the runtime: a `ValueError` whose
/// message is the failure's debug text.
pub fn wrap_tch_err(err: TchError) -> (raised: PyErr)
    ensures
        raised == value_error(err.debug_text()),
{
    py_value_error(err.debug_string())
}

/// The error for an object that is no tensor: a `TypeError` that names the
/// type that was found, whose text is `found`.
pub fn type_mismatch(found: &str) -> (raised: PyErr)
    ensures
        raised == type_error(mismatch_message(found@)),
{
    py_type_error(String::from_str("expected a torch.Tensor, got ").concat(found))
}

/// What goes back to the runtime when a tensor is put into an object.
#[derive(Clone, Copy, Debug, PartialEq, Eq, Structural)]
pub enum Injected {
    /// The new object that wraps the tensor.
    Object(ForeignHandle),
    /// The runtime's "no value" object.
    NoValue,
}

/// What an injection gives from the reply of the engine's wrap primitive:
/// the new object, or the runtime's "no value" object after a failure.
pub open spec fn injected(wrapped: NativeReply<usize>) -> Injected {
    match wrap_outcome(wrapped) {
        Ok(object) => Injected::Object(object),
        Err(_) => Injected::NoValue,
    }
}

impl PyTensor {
    /// Takes the tensor out of the object `ob`, from what the unpack of `ob`
    /// gave. A tensor is kept as it is. A failure of the engine is raised as
    /// by [`wrap_tch_err`]. An object that is no tensor raises the error of
    /// [`type_mismatch`] for the text of its type, which is read from the
    /// runtime only in that case.
    pub fn extract_bound(ob: &Bound<'_, PyAny>, unpacked: Result<Option<Tensor>, TchError>) -> (result:
        Result<PyTensor, PyErr>)
        ensures
            match unpacked {
                Ok(Some(tensor)) => result == Ok::<PyTensor, PyErr>(PyTensor(tensor)),
                Ok(None) => exists|found: Seq<char>|
                    result == Err::<PyTensor, PyErr>(type_error(mismatch_message(found))),
                Err(err) => result == Err::<PyTensor, PyErr>(value_error(err.debug_text())),
            },
    {
        match unpacked {
            Ok(Some(tensor)) => Ok(PyTensor(tensor)),
            Ok(None) => {
                let found = display_text(&object_type(ob));
                let raised = type_mismatch(found.as_str());
                assert(raised == type_error(mismatch_message(found@)));
                Err(raised)
            },
            Err(err) => Err(wrap_tch_err(err)),
        }
    }

    /// Puts the tensor into a new object, from the reply of the engine's
    /// wrap primitive, and reports a failure as such.
    pub fn try_inject(&self, wrapped: NativeReply<usize>) -> (result: Result<
        ForeignHandle,
        TchError,
    >)
        ensures
            seen(result) == wrap_outcome(wrapped),
    {
        self.0.pyobject_wrap(wrapped)
    }

    /// Puts the tensor into a new object, from the reply of the engine's
    /// wrap primitive. The runtime's protocol has no way to report a failure
    /// here, so a failed wrap gives the runtime's "no value" object and the
    /// engine's diagnostic is dropped.
    pub fn into_py(self, wrapped: NativeReply<usize>) -> (value: Injected)
        ensures
            value == injected(wrapped),
    {
        match self.try_inject(wrapped) {
            Ok(object) => Injected::Object(object),
            Err(_) => Injected::NoValue,
        }
    }
}

} // verus!
