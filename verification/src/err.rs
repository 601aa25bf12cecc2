//! Failures, and what is made of the interpreter's answers.
use vstd::prelude::*;
use crate::ffi;
use crate::ffi::{Call, StaticTypes};
use crate::objects::exc::{
    PyExc_SystemError, PyExc_TypeError, SystemError, TypeError, UnicodeDecodeError,
};
use crate::objects::object::{released, PyObject};
use crate::objects::typeobject::PyType;
use crate::python::{
    Python, PythonObject, PythonObjectDowncastError, PythonObjectWithCheckedDowncast,
    PythonObjectWithTypeObject, ToPythonPointer,
};

verus! {

/// Why an operation did not give its result.
#[derive(Debug)]
pub enum PyErr<'p> {
    /// The interpreter reported the failure. The exception is where the
    /// interpreter keeps its current error, and stays there until the
    /// embedding fetches it; [`PyErr::new_from_ffi_tuple`] takes what it
    /// fetched.
    Pending(Python<'p>),
    /// Bytes were not valid text. The call makes the exception that reports
    /// them; [`PyErr::from_decode_answer`] takes the answer.
    Decode(Python<'p>, Call),
    /// An exception that the host holds: its type, and its value and its
    /// traceback where it has them. Each is an owned handle.
    Raised { ptype: PyObject<'p>, pvalue: Option<PyObject<'p>>, ptraceback: Option<PyObject<'p>> },
}

/// The result of an operation that can fail.
pub type PyResult<'p, T> = Result<T, PyErr<'p>>;

/// Whether `e` is an exception that the host holds, of the type at `ptype`,
/// with the value at `pvalue` and the traceback at `ptraceback`; null says that
/// there is none.
pub open spec fn is_raised(e: PyErr, ptype: usize, pvalue: usize, ptraceback: usize) -> bool {
    &&& e matches PyErr::Raised { ptype: t, pvalue: v, ptraceback: tb }
    &&& t.ptr() == ptype
    &&& match v {
        Some(v) => v.ptr() == pvalue && pvalue != 0,
        None => pvalue == 0,
    }
    &&& match tb {
        Some(tb) => tb.ptr() == ptraceback && ptraceback != 0,
        None => ptraceback == 0,
    }
}

impl<'p> PyErr<'p> {
    /// The error that the interpreter holds as its current one.
    pub fn fetch(py: Python<'p>) -> (r: PyErr<'p>)
        ensures
            r == PyErr::Pending(py),
    {
        PyErr::Pending(py)
    }

    /// The exception that the embedding fetched from the interpreter: the
    /// three references that make it up become handles. Where the interpreter
    /// gave no type, the exception is a `SystemError`.
    pub fn new_from_ffi_tuple(
        py: Python<'p>,
        types: &StaticTypes,
        ptype: usize,
        pvalue: usize,
        ptraceback: usize,
        calls: &mut Vec<Call>,
    ) -> (r: PyErr<'p>)
        ensures
            ptype != 0 ==> is_raised(r, ptype, pvalue, ptraceback) && final(calls)@ == old(calls)@,
            ptype == 0 ==> is_raised(r, types.PyExc(PyExc_SystemError), pvalue, ptraceback)
                && final(calls)@ == old(calls)@.push(
                Call::IncRef { ob: types.PyExc(PyExc_SystemError) },
            ),
    {
        let ptype = if ptype == 0 {
            let ty = SystemError::type_object(py, types, calls);
            proof {
                ty.lemma_object_ptr();
            }
            ty.into_object()
        } else {
            PyObject::from_owned_ptr(py, ptype)
        };
        PyErr::Raised {
            ptype,
            pvalue: PyObject::from_owned_ptr_opt(py, pvalue),
            ptraceback: PyObject::from_owned_ptr_opt(py, ptraceback),
        }
    }

    /// The exception of the type `exc`, with `value` where there is one. It
    /// takes over the references of both.
    pub fn new_lazy_init(exc: PyType<'p>, value: Option<PyObject<'p>>) -> (r: PyErr<'p>)
        ensures
            r matches PyErr::Raised { ptype, pvalue, ptraceback } && ptype == exc.object() && pvalue
                == value && ptraceback is None,
    {
        PyErr::Raised { ptype: exc.into_object(), pvalue: value, ptraceback: None }
    }

    /// The exception that is the exception object `obj`, of which the
    /// interpreter says `op`: its type is the type of the object, to which a
    /// reference is taken, and its value is the object, whose reference it
    /// takes over.
    pub fn new<O>(obj: O, op: &ffi::PyObject, calls: &mut Vec<Call>) -> (r: PyErr<'p>) where
        O: PythonObject<'p>,

        requires
            op.ob_type.addr != 0,
        ensures
            r matches PyErr::Raised { ptype, pvalue, ptraceback } && ptype.ptr() == op.ob_type.addr
                && pvalue == Some(obj.object()) && ptraceback is None,
            final(calls)@ == old(calls)@.push(Call::IncRef { ob: op.ob_type.addr }),
    {
        let py = obj.python();
        let ptype = PyObject::from_borrowed_ptr(py, ffi::Py_TYPE(op).addr, calls);
        PyErr::Raised { ptype, pvalue: Some(obj.into_object()), ptraceback: None }
    }

    /// What the answer to the call of a [`PyErr::Decode`] comes to; `op` is what
    /// the interpreter says of the object that it answered with, and is not
    /// looked at where `reply` is null. Null is the interpreter's failure. A
    /// `UnicodeDecodeError` is the exception that is raised: its type is the
    /// type of the object, to which a reference is taken, and its value is the
    /// object. Any other object is given up, and the failure is a `TypeError`.
    pub fn from_decode_answer(
        py: Python<'p>,
        types: &StaticTypes,
        reply: usize,
        op: &ffi::PyObject,
        calls: &mut Vec<Call>,
    ) -> (r: PyErr<'p>)
        requires
            reply != 0 ==> op.ob_type.addr != 0,
        ensures
            reply == 0 ==> r == PyErr::Pending(py) && final(calls)@ == old(calls)@,
            reply != 0 && UnicodeDecodeError::accepts(*types, *op) ==> is_raised(
                r,
                op.ob_type.addr,
                reply,
                0,
            ) && final(calls)@ == old(calls)@.push(Call::IncRef { ob: op.ob_type.addr }),
            reply != 0 && !UnicodeDecodeError::accepts(*types, *op) ==> is_raised(
                r,
                types.PyExc(PyExc_TypeError),
                0,
                0,
            ) && final(calls)@ == old(calls)@.push(Call::DecRef { ob: reply }).push(
                Call::IncRef { ob: types.PyExc(PyExc_TypeError) },
            ),
    {
        match result_cast_from_owned_ptr::<UnicodeDecodeError>(py, types, reply, op, calls) {
            Ok(exc) => {
                proof {
                    exc.lemma_object_ptr();
                }
                PyErr::new(exc, op, calls)
            },
            Err(e) => e,
        }
    }

    /// What a downcast failure is raised as: a `TypeError` without a value.
    pub fn from_downcast(
        err: PythonObjectDowncastError<'p>,
        types: &StaticTypes,
        calls: &mut Vec<Call>,
    ) -> (r: PyErr<'p>)
        ensures
            is_raised(r, types.PyExc(PyExc_TypeError), 0, 0),
            final(calls)@ == old(calls)@.push(Call::IncRef { ob: types.PyExc(PyExc_TypeError) }),
    {
        let ty = TypeError::type_object(err.0, types, calls);
        proof {
            ty.lemma_object_ptr();
        }
        PyErr::new_lazy_init(ty, None)
    }
}

/// What an answer that is a new reference, or null for failure, comes to: the
/// handle that owns the reference, or the interpreter's error.
pub fn result_from_owned_ptr<'p>(py: Python<'p>, p: usize) -> (r: PyResult<'p, PyObject<'p>>)
    ensures
        r is Ok <==> p != 0,
        r matches Ok(o) ==> o.ptr() == p && o.spec_python() == py,
        r matches Err(e) ==> e == PyErr::Pending(py),
{
    if p == 0 {
        Err(PyErr::fetch(py))
    } else {
        Ok(PyObject::from_owned_ptr(py, p))
    }
}

/// What an answer that is a new reference, or null for failure, comes to
/// where the object is to be of category `T`. `op` is what the interpreter
/// says of the object; it is not looked at where `p` is null. An object of
/// another category is given up, and the failure is a `TypeError`.
pub fn result_cast_from_owned_ptr<'p, T>(
    py: Python<'p>,
    types: &StaticTypes,
    p: usize,
    op: &ffi::PyObject,
    calls: &mut Vec<Call>,
) -> (r: PyResult<'p, T>) where T: PythonObjectWithCheckedDowncast<'p>
    ensures
        r is Ok <==> p != 0 && T::accepts(*types, *op),
        r matches Ok(t) ==> t.ptr() == p && t.object().spec_python() == py,
        r is Ok || p == 0 ==> final(calls)@ == old(calls)@,
        p == 0 ==> (r matches Err(e) && e == PyErr::Pending(py)),
        p != 0 && !T::accepts(*types, *op) ==> (r matches Err(e) && is_raised(
            e,
            types.PyExc(PyExc_TypeError),
            0,
            0,
        )),
        p != 0 && !T::accepts(*types, *op) ==> final(calls)@ == old(calls)@.push(
            Call::DecRef { ob: p },
        ).push(Call::IncRef { ob: types.PyExc(PyExc_TypeError) }),
{
    if p == 0 {
        Err(PyErr::fetch(py))
    } else {
        match PyObject::from_owned_ptr(py, p).cast_into::<T>(types, op, calls) {
            Ok(t) => {
                proof {
                    t.lemma_object_ptr();
                }
                Ok(t)
            },
            Err(e) => {
                assert(released(p) =~= seq![Call::DecRef { ob: p }]);
                Err(PyErr::from_downcast(e, types, calls))
            },
        }
    }
}

/// The wrapper of category `T` for an answer that is known to be a new
/// reference to an object of that category.
pub fn cast_from_owned_ptr_or_panic<'p, T>(
    py: Python<'p>,
    types: &StaticTypes,
    p: usize,
    op: &ffi::PyObject,
) -> (r: T) where T: PythonObjectWithCheckedDowncast<'p>
    requires
        p != 0,
        T::accepts(*types, *op),
    ensures
        r.ptr() == p,
        r.object().spec_python() == py,
{
    let r = PyObject::from_owned_ptr(py, p).unchecked_cast_into::<T>();
    proof {
        r.lemma_object_ptr();
    }
    r
}

/// What a status comes to: -1 says that the interpreter reported a failure.
pub fn error_on_minusone<'p>(py: Python<'p>, result: i32) -> (r: PyResult<'p, ()>)
    ensures
        r is Ok <==> result != -1,
        r matches Err(e) ==> e == PyErr::Pending(py),
{
    if result != -1 {
        Ok(())
    } else {
        Err(PyErr::fetch(py))
    }
}

} // verus!
