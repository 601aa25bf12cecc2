//! The wrapper of type objects.
use vstd::prelude::*;
use crate::ffi;
use crate::ffi::{Call, StaticTypes};
use crate::python::{
    Borrowed, Python, PythonObject, PythonObjectDowncastError, PythonObjectWithCheckedDowncast,
    PythonObjectWithTypeObject, ToPythonPointer,
};
use crate::objects::object::PyObject;

verus! {

/// An owned handle to a type object.
#[derive(Debug)]
pub struct PyType<'p>(PyObject<'p>);

impl<'p> PyType<'p> {
    /// The address of the type object.
    pub fn as_type_ptr(&self) -> (r: usize)
        ensures
            r == self.ptr(),
    {
        self.as_ptr()
    }

    /// A new handle to the type object at `p`, with a reference of its own.
    pub fn from_type_ptr(py: Python<'p>, p: usize, calls: &mut Vec<Call>) -> (r: PyType<'p>)
        requires
            p != 0,
        ensures
            r.ptr() == p,
            r.object().spec_python() == py,
            final(calls)@ == old(calls)@.push(Call::IncRef { ob: p }),
    {
        let r = PyObject::from_borrowed_ptr(py, p, calls).unchecked_cast_into::<PyType>();
        proof {
            r.lemma_object_ptr();
        }
        r
    }

    /// Whether this type is a subtype of `b`. `this` is what the interpreter
    /// says of this type.
    pub fn is_subtype_of(&self, b: &PyType<'p>, this: &ffi::PyTypeObject) -> (r: bool)
        requires
            this.addr == self.ptr(),
        ensures
            r == ffi::is_subtype(*this, b.ptr()),
    {
        ffi::PyType_IsSubtype(this, b.as_type_ptr()) != 0
    }

    /// Whether `obj`, of which the interpreter says `op`, is an instance of
    /// this type: of this type or of a subtype of it.
    pub fn is_instance(&self, obj: &PyObject<'p>, op: &ffi::PyObject) -> (r: bool)
        ensures
            r == ffi::type_check(op.ob_type, self.ptr()),
    {
        ffi::PyObject_TypeCheck(op, self.as_type_ptr()) != 0
    }
}

impl<'p> ToPythonPointer for PyType<'p> {
    closed spec fn ptr(&self) -> usize {
        self.0.ptr()
    }

    fn as_ptr(&self) -> (r: usize) {
        self.0.as_ptr()
    }

    fn steal_ptr(self) -> (r: usize) {
        self.0.steal_ptr()
    }
}

impl<'p> PythonObject<'p> for PyType<'p> {
    closed spec fn object(&self) -> PyObject<'p> {
        self.0
    }

    proof fn lemma_object_ptr(&self) {
    }

    fn as_object(&self) -> (r: &PyObject<'p>) {
        &self.0
    }

    fn into_object(self) -> (r: PyObject<'p>) {
        self.0
    }

    fn unchecked_downcast_from(obj: PyObject<'p>) -> (r: PyType<'p>) {
        PyType(obj)
    }

    fn python(&self) -> (r: Python<'p>) {
        self.0.python()
    }
}

impl<'p> PythonObjectWithCheckedDowncast<'p> for PyType<'p> {
    /// A type object is an object whose type has the flag of the `type` family.
    open spec fn accepts(types: StaticTypes, op: ffi::PyObject) -> bool {
        ffi::has_feature(op.ob_type.tp_flags, ffi::Py_TPFLAGS_TYPE_SUBCLASS)
    }

    fn downcast_from(
        obj: PyObject<'p>,
        types: &StaticTypes,
        op: &ffi::PyObject,
        calls: &mut Vec<Call>,
    ) -> (r: Result<PyType<'p>, PythonObjectDowncastError<'p>>) {
        if ffi::PyType_Check(op) != 0 {
            Ok(PyType(obj))
        } else {
            let mut obj = obj;
            obj.release(calls);
            Err(PythonObjectDowncastError(obj.python()))
        }
    }

    fn downcast_borrow_from<'a>(
        obj: &'a PyObject<'p>,
        types: &StaticTypes,
        op: &ffi::PyObject,
    ) -> (r: Result<Borrowed<'a, PyType<'p>>, PythonObjectDowncastError<'p>>) {
        if ffi::PyType_Check(op) != 0 {
            Ok(Self::unchecked_downcast_borrow_from(obj))
        } else {
            Err(PythonObjectDowncastError(obj.python()))
        }
    }
}

impl<'p> PythonObjectWithTypeObject<'p> for PyType<'p> {
    open spec fn type_ptr(types: StaticTypes) -> usize {
        types.PyType_Type()
    }

    fn type_object(py: Python<'p>, types: &StaticTypes, calls: &mut Vec<Call>) -> (r: PyType<'p>) {
        PyType::from_type_ptr(py, types.PyType_Type(), calls)
    }
}

} // verus!
