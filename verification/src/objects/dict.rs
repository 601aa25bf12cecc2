//! The wrapper of dictionaries.
use vstd::prelude::*;
use crate::ffi;
use crate::ffi::{Call, StaticTypes};
use crate::python::{
    Borrowed, Python, PythonObject, PythonObjectDowncastError, PythonObjectWithCheckedDowncast,
    PythonObjectWithTypeObject, ToPythonPointer,
};
use crate::objects::object::PyObject;
use crate::objects::typeobject::PyType;

verus! {

/// An owned handle to a dictionary.
#[derive(Debug)]
pub struct PyDict<'p>(PyObject<'p>);

impl<'p> ToPythonPointer for PyDict<'p> {
    closed spec fn ptr(&self) -> usize {
        self.0.ptr()
    }

    fn as_ptr(&self) -> (r: usize) {
        self.0.as_ptr()
    }

    fn steal_ptr(self) -> (r: usize) {
        self.0.steal_ptr()
    }
}

impl<'p> PythonObject<'p> for PyDict<'p> {
    closed spec fn object(&self) -> PyObject<'p> {
        self.0
    }

    proof fn lemma_object_ptr(&self) {
    }

    fn as_object(&self) -> (r: &PyObject<'p>) {
        &self.0
    }

    fn into_object(self) -> (r: PyObject<'p>) {
        self.0
    }

    fn unchecked_downcast_from(obj: PyObject<'p>) -> (r: PyDict<'p>) {
        PyDict(obj)
    }

    fn python(&self) -> (r: Python<'p>) {
        self.0.python()
    }
}

impl<'p> PythonObjectWithCheckedDowncast<'p> for PyDict<'p> {
    /// A dictionary is an object whose type has the flag of the `dict` family.
    open spec fn accepts(types: StaticTypes, op: ffi::PyObject) -> bool {
        ffi::has_feature(op.ob_type.tp_flags, ffi::Py_TPFLAGS_DICT_SUBCLASS)
    }

    fn downcast_from(
        obj: PyObject<'p>,
        types: &StaticTypes,
        op: &ffi::PyObject,
        calls: &mut Vec<Call>,
    ) -> (r: Result<PyDict<'p>, PythonObjectDowncastError<'p>>) {
        if ffi::PyDict_Check(op) != 0 {
            Ok(PyDict(obj))
        } else {
            let mut obj = obj;
            obj.release(calls);
            Err(PythonObjectDowncastError(obj.python()))
        }
    }

    fn downcast_borrow_from<'a>(
        obj: &'a PyObject<'p>,
        types: &StaticTypes,
        op: &ffi::PyObject,
    ) -> (r: Result<Borrowed<'a, PyDict<'p>>, PythonObjectDowncastError<'p>>) {
        if ffi::PyDict_Check(op) != 0 {
            Ok(Self::unchecked_downcast_borrow_from(obj))
        } else {
            Err(PythonObjectDowncastError(obj.python()))
        }
    }
}

impl<'p> PythonObjectWithTypeObject<'p> for PyDict<'p> {
    open spec fn type_ptr(types: StaticTypes) -> usize {
        types.PyDict_Type()
    }

    fn type_object(py: Python<'p>, types: &StaticTypes, calls: &mut Vec<Call>) -> (r: PyType<'p>) {
        PyType::from_type_ptr(py, types.PyDict_Type(), calls)
    }
}

} // verus!
