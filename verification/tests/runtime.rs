use pyo3::exceptions::{PyTypeError, PyValueError};
use pyo3::types::{PyDict, PyList, PyString};
use pyo3::{Bound, IntoPy, PyAny, PyErr, Python};
use tch_python::{
    borrowed_handle, pyobject_check, type_mismatch, wrap_tch_err, ForeignHandle, Injected,
    NativeReply, Ownership, PyTensor, TchError, Tensor, Unpack,
};

fn with_runtime<R>(body: impl FnOnce(Python<'_>) -> R) -> R {
    pyo3::prepare_freethreaded_python();
    Python::with_gil(body)
}

fn message(py: Python<'_>, raised: &PyErr) -> String {
    raised.value_bound(py).to_string()
}

/// Runs an unpack of an object that the engine does not know as a tensor.
fn unpack_of_plain_object(ob: &Bound<'_, PyAny>) -> Result<Option<Tensor>, TchError> {
    let object = borrowed_handle(ob);
    match Tensor::pyobject_unpack(object, NativeReply::clean(false)) {
        Unpack::Done(result) => result,
        Unpack::Unwrap(_) => panic!("the unwrap must not run for an object that is no tensor"),
    }
}

#[test]
fn borrowed_handle_is_the_address_of_the_object() {
    with_runtime(|py| {
        let list = PyList::empty_bound(py);
        let handle = borrowed_handle(list.as_any());
        assert_eq!(handle.addr, list.as_ptr() as usize);
        assert_ne!(handle.addr, 0);
        assert_eq!(handle.ownership, Ownership::Borrowed);
        let other = PyDict::new_bound(py);
        assert_ne!(borrowed_handle(other.as_any()).addr, handle.addr);
    });
}

#[test]
fn engine_failure_is_raised_as_value_error() {
    with_runtime(|py| {
        let raised = wrap_tch_err(TchError::Torch(String::from("boom")));
        assert!(raised.is_instance_of::<PyValueError>(py));
        assert!(!raised.is_instance_of::<PyTypeError>(py));
        assert_eq!(message(py, &raised), "Torch(\"boom\")");
    });
}

#[test]
fn value_error_carries_the_escaped_diagnostic() {
    with_runtime(|py| {
        let raised = wrap_tch_err(TchError::Torch(String::from("a \"b\"\n")));
        assert_eq!(message(py, &raised), "Torch(\"a \\\"b\\\"\\n\")");
    });
}

#[test]
fn mismatch_is_raised_as_type_error() {
    with_runtime(|py| {
        let raised = type_mismatch("<class 'dict'>");
        assert!(raised.is_instance_of::<PyTypeError>(py));
        assert!(!raised.is_instance_of::<PyValueError>(py));
        assert_eq!(message(py, &raised), "expected a torch.Tensor, got <class 'dict'>");
        assert_eq!(message(py, &type_mismatch("")), "expected a torch.Tensor, got ");
    });
}

#[test]
fn extraction_from_a_list_names_list() {
    with_runtime(|py| {
        let list = PyList::empty_bound(py);
        let unpacked = unpack_of_plain_object(list.as_any());
        assert_eq!(unpacked, Ok(None));
        let raised = PyTensor::extract_bound(list.as_any(), unpacked).unwrap_err();
        assert!(raised.is_instance_of::<PyTypeError>(py));
        assert!(message(py, &raised).contains("list"));
        assert_eq!(message(py, &raised), "expected a torch.Tensor, got <class 'list'>");
    });
}

#[test]
fn extraction_from_an_integer_names_int() {
    with_runtime(|py| {
        let number = 42i64.into_py(py).into_bound(py);
        let unpacked = unpack_of_plain_object(&number);
        let raised = PyTensor::extract_bound(&number, unpacked).unwrap_err();
        assert!(raised.is_instance_of::<PyTypeError>(py));
        assert!(message(py, &raised).contains("int"));
        assert_eq!(message(py, &raised), "expected a torch.Tensor, got <class 'int'>");
    });
}

#[test]
fn extraction_from_a_string_names_str() {
    with_runtime(|py| {
        let text = PyString::new_bound(py, "tensor");
        let raised = PyTensor::extract_bound(text.as_any(), Ok(None)).unwrap_err();
        assert_eq!(message(py, &raised), "expected a torch.Tensor, got <class 'str'>");
    });
}

#[test]
fn extraction_raises_the_engine_failure() {
    with_runtime(|py| {
        let list = PyList::empty_bound(py);
        let object = borrowed_handle(list.as_any());
        let guard = NativeReply::failed(false, String::from("type not registered"));
        assert!(pyobject_check(NativeReply::failed(false, String::from("x"))).is_err());
        let unpacked = match Tensor::pyobject_unpack(object, guard) {
            Unpack::Done(result) => result,
            Unpack::Unwrap(_) => panic!("the unwrap must not run after a failed guard"),
        };
        let raised = PyTensor::extract_bound(list.as_any(), unpacked).unwrap_err();
        assert!(raised.is_instance_of::<PyValueError>(py));
        assert_eq!(message(py, &raised), "Torch(\"type not registered\")");
    });
}

#[test]
fn extraction_keeps_the_tensor() {
    with_runtime(|py| {
        let stand_in = PyList::empty_bound(py);
        let object = borrowed_handle(stand_in.as_any());
        let next = Tensor::pyobject_unpack(object, NativeReply::clean(true));
        assert_eq!(next, Unpack::Unwrap(object));
        let unpacked = next.complete(NativeReply::clean(0x2040));
        let value = PyTensor::extract_bound(stand_in.as_any(), unpacked).unwrap();
        assert_eq!(value, PyTensor(Tensor { c_tensor: 0x2040 }));
    });
}

#[test]
fn extraction_then_injection_gives_a_new_object_on_the_same_storage() {
    with_runtime(|py| {
        // The engine of this test keeps one storage, behind the tensor handle
        // 0x2000; the list stands for the object that wraps it.
        let storage_of_handle = |handle: usize| if handle & 0xf000 == 0x2000 { 1 } else { 0 };
        let wrapped_before = PyList::empty_bound(py);
        let object = borrowed_handle(wrapped_before.as_any());
        let next = Tensor::pyobject_unpack(object, NativeReply::clean(true));
        let unpacked = next.complete(NativeReply::clean(0x2010));
        let value = PyTensor::extract_bound(wrapped_before.as_any(), unpacked).unwrap();
        assert_eq!(storage_of_handle(value.as_ptr()), 1);
        let fresh_object = PyDict::new_bound(py);
        let fresh_addr = fresh_object.as_ptr() as usize;
        let reinjected = value.into_py(NativeReply::clean(fresh_addr));
        let handle = ForeignHandle { addr: fresh_addr, ownership: Ownership::Owned };
        assert_eq!(reinjected, Injected::Object(handle));
        assert_ne!(handle.addr, object.addr);
        let again = Tensor::pyobject_unpack(handle, NativeReply::clean(true))
            .complete(NativeReply::clean(0x2020));
        assert_eq!(storage_of_handle(again.unwrap().unwrap().as_ptr()), 1);
    });
}
