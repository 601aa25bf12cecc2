//! Equality of handles.
//!
//! Two handles are equal when they stand for the same object: when their
//! addresses are the same. What the two objects hold is not looked at.
use vstd::prelude::*;
use vstd::std_specs::cmp::PartialEqSpecImpl;
use crate::python::ToPythonPointer;
use crate::objects::object::PyObject;
use crate::objects::typeobject::PyType;

verus! {

impl<'p> PartialEq for PyObject<'p> {
    fn eq(&self, o: &PyObject<'p>) -> (r: bool) {
        self.as_ptr() == o.as_ptr()
    }
}

impl<'p> PartialEqSpecImpl for PyObject<'p> {
    open spec fn obeys_eq_spec() -> bool {
        true
    }

    open spec fn eq_spec(&self, o: &PyObject<'p>) -> bool {
        self.ptr() == o.ptr()
    }
}

impl<'p> Eq for PyObject<'p> {

}

impl<'p> PartialEq for PyType<'p> {
    fn eq(&self, o: &PyType<'p>) -> (r: bool) {
        self.as_type_ptr() == o.as_type_ptr()
    }
}

impl<'p> PartialEqSpecImpl for PyType<'p> {
    open spec fn obeys_eq_spec() -> bool {
        true
    }

    open spec fn eq_spec(&self, o: &PyType<'p>) -> bool {
        self.ptr() == o.ptr()
    }
}

impl<'p> Eq for PyType<'p> {

}

} // verus!
