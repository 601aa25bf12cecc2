//! The owned handle.
use vstd::prelude::*;
use crate::err::PyResult;
use crate::ffi;
use crate::ffi::{refcnt_after, Call, StaticTypes};
use crate::python::{
    Borrowed, Python, PythonObject, PythonObjectDowncastError, PythonObjectWithCheckedDowncast,
    PythonObjectWithTypeObject, ToPythonPointer,
};
use crate::objects::typeobject::PyType;

verus! {

/// A handle that owns one reference to an object of the interpreter.
///
/// The handle is made either by taking over a reference that the caller
/// already holds, or by taking a new one. It gives its reference up once, in
/// [`PyObject::release`], after which its address is null; or it hands the
/// reference on, in `steal_ptr`.
#[derive(Debug)]
pub struct PyObject<'p> {
    ptr: usize,
    py: Python<'p>,
}

/// The calls by which a handle with this address gives up its reference: one
/// `DecRef`, or none where the handle has given it up before.
pub open spec fn released(ptr: usize) -> Seq<Call> {
    if ptr == 0 {
        seq![]
    } else {
        seq![Call::DecRef { ob: ptr }]
    }
}

impl<'p> PyObject<'p> {
    /// The context that the handle was made under.
    pub closed spec fn spec_python(&self) -> Python<'p> {
        self.py
    }

    /// Whether the handle still holds its reference.
    pub open spec fn is_live(&self) -> bool {
        self.ptr() != 0
    }

    /// A second value for the same object that takes no reference. It is only
    /// ever handed out lent.
    pub(crate) fn alias(&self) -> (r: PyObject<'p>)
        ensures
            r == *self,
    {
        PyObject { ptr: self.ptr, py: self.py }
    }

    /// A value for the object at `ptr` that takes no reference. It is only
    /// ever handed out lent.
    pub(crate) fn unowned(py: Python<'p>, ptr: usize) -> (r: PyObject<'p>)
        ensures
            r.ptr() == ptr,
            r.spec_python() == py,
    {
        PyObject { ptr, py }
    }

    /// Makes the handle for `ptr` and takes over the reference that the caller
    /// holds: no count changes.
    pub fn from_owned_ptr(py: Python<'p>, ptr: usize) -> (r: PyObject<'p>)
        requires
            ptr != 0,
        ensures
            r.ptr() == ptr,
            r.spec_python() == py,
    {
        PyObject { py: py, ptr: ptr }
    }

    /// Makes the handle for `ptr`, which someone else holds a reference to,
    /// and takes a reference of its own.
    pub fn from_borrowed_ptr(py: Python<'p>, ptr: usize, calls: &mut Vec<Call>) -> (r: PyObject<'p>)
        requires
            ptr != 0,
        ensures
            r.ptr() == ptr,
            r.spec_python() == py,
            final(calls)@ == old(calls)@.push(Call::IncRef { ob: ptr }),
    {
        calls.push(Call::IncRef { ob: ptr });
        PyObject { py: py, ptr: ptr }
    }

    /// As [`PyObject::from_owned_ptr`], with null for "no object".
    pub fn from_owned_ptr_opt(py: Python<'p>, ptr: usize) -> (r: Option<PyObject<'p>>)
        ensures
            r is Some <==> ptr != 0,
            r matches Some(o) ==> o.ptr() == ptr && o.spec_python() == py,
    {
        if ptr == 0 {
            None
        } else {
            Some(PyObject::from_owned_ptr(py, ptr))
        }
    }

    /// As [`PyObject::from_borrowed_ptr`], with null for "no object", for which
    /// nothing is asked of the interpreter.
    pub fn from_borrowed_ptr_opt(py: Python<'p>, ptr: usize, calls: &mut Vec<Call>) -> (r: Option<
        PyObject<'p>,
    >)
        ensures
            r is Some <==> ptr != 0,
            r matches Some(o) ==> o.ptr() == ptr && o.spec_python() == py,
            ptr != 0 ==> final(calls)@ == old(calls)@.push(Call::IncRef { ob: ptr }),
            ptr == 0 ==> final(calls)@ == old(calls)@,
    {
        if ptr == 0 {
            None
        } else {
            Some(PyObject::from_borrowed_ptr(py, ptr, calls))
        }
    }

    /// Lends the handle for the address at `ptr`, whose reference stays with
    /// whoever holds it.
    pub fn borrow_from_owned_ptr<'a>(py: Python<'p>, ptr: &'a usize) -> (r: Borrowed<
        'a,
        PyObject<'p>,
    >)
        requires
            *ptr != 0,
        ensures
            r.view().ptr() == *ptr,
            r.view().spec_python() == py,
    {
        Borrowed::new(PyObject { py: py, ptr: *ptr })
    }

    /// Lends a handle for each of the addresses in `ptr`, in their order.
    pub fn borrow_from_owned_ptr_slice<'a>(py: Python<'p>, ptr: &'a [usize]) -> (r: Vec<
        Borrowed<'a, PyObject<'p>>,
    >)
        requires
            forall|i: int| 0 <= i < ptr@.len() ==> ptr@[i] != 0,
        ensures
            r@.len() == ptr@.len(),
            forall|i: int|
                0 <= i < ptr@.len() ==> (#[trigger] r@[i]).view().ptr() == ptr@[i]
                    && r@[i].view().spec_python() == py,
    {
        let mut out: Vec<Borrowed<'a, PyObject<'p>>> = Vec::with_capacity(ptr.len());
        let mut i: usize = 0;
        while i < ptr.len()
            invariant
                i <= ptr@.len(),
                out@.len() == i,
                forall|j: int|
                    0 <= j < i ==> (#[trigger] out@[j]).view().ptr() == ptr@[j]
                        && out@[j].view().spec_python() == py,
            decreases ptr@.len() - i,
        {
            out.push(Borrowed::new(PyObject { py: py, ptr: ptr[i] }));
            i += 1;
        }
        out
    }

    /// A second handle to the same object, with a reference of its own.
    pub fn clone(&self, calls: &mut Vec<Call>) -> (r: PyObject<'p>)
        requires
            self.is_live(),
        ensures
            r == *self,
            final(calls)@ == old(calls)@.push(Call::IncRef { ob: self.ptr() }),
    {
        calls.push(Call::IncRef { ob: self.ptr });
        PyObject { ptr: self.ptr, py: self.py }
    }

    /// Gives up the handle's reference: once. A handle that has given it up
    /// has a null address, and releasing it again asks nothing.
    pub fn release(&mut self, calls: &mut Vec<Call>)
        ensures
            final(self).ptr() == 0,
            final(self).spec_python() == old(self).spec_python(),
            final(calls)@ == old(calls)@ + released(old(self).ptr()),
    {
        if self.ptr != 0 {
            calls.push(Call::DecRef { ob: self.ptr });
            self.ptr = 0;
        }
    }

    /// The object's reference count, as the interpreter gave it in `op`.
    pub fn get_refcnt(&self, op: &ffi::PyObject) -> (r: usize)
        ensures
            r == op.ob_refcnt as usize,
    {
        ffi::Py_REFCNT(op) as usize
    }

    /// The object's type, as the interpreter gave it in `op`: lent for as long
    /// as the handle is borrowed, with no reference of its own.
    pub fn get_type<'a>(&'a self, op: &ffi::PyObject) -> (r: Borrowed<'a, PyType<'p>>)
        ensures
            r.view().ptr() == op.ob_type.addr,
            r.view().object().spec_python() == self.spec_python(),
    {
        let t = PyType::unchecked_downcast_from(PyObject { ptr: ffi::Py_TYPE(op).addr, py: self.py });
        proof {
            t.lemma_object_ptr();
        }
        Borrowed::new(t)
    }

    /// Takes the handle for a wrapper of category `T` without looking at the
    /// object.
    pub fn unchecked_cast_into<T>(self) -> (r: T) where T: PythonObject<'p>
        ensures
            r.object() == self,
    {
        T::unchecked_downcast_from(self)
    }

    /// Takes the handle for a wrapper of category `T` if the object belongs
    /// to it; see [`PythonObjectWithCheckedDowncast::downcast_from`].
    pub fn cast_into<T>(self, types: &StaticTypes, op: &ffi::PyObject, calls: &mut Vec<Call>) -> (r:
        Result<T, PythonObjectDowncastError<'p>>) where T: PythonObjectWithCheckedDowncast<'p>
        ensures
            r is Ok <==> T::accepts(*types, *op),
            r matches Ok(t) ==> t.object() == self && final(calls)@ == old(calls)@,
            r matches Err(e) ==> e.0 == self.spec_python() && final(calls)@ == old(calls)@
                + released(self.ptr()),
    {
        T::downcast_from(self, types, op, calls)
    }

    /// Lends the handle as a wrapper of category `T` without looking at the
    /// object.
    pub fn unchecked_cast_as<'s, T>(&'s self) -> (r: Borrowed<'s, T>) where T: PythonObject<'p>
        ensures
            r.view().object() == *self,
    {
        T::unchecked_downcast_borrow_from(self)
    }

    /// Lends the handle as a wrapper of category `T` if the object belongs to
    /// it; see [`PythonObjectWithCheckedDowncast::downcast_borrow_from`].
    pub fn cast_as<'s, T>(&'s self, types: &StaticTypes, op: &ffi::PyObject) -> (r: Result<
        Borrowed<'s, T>,
        PythonObjectDowncastError<'p>,
    >) where T: PythonObjectWithCheckedDowncast<'p>
        ensures
            r is Ok <==> T::accepts(*types, *op),
            r matches Ok(t) ==> t.view().object() == *self,
            r matches Err(e) ==> e.0 == self.spec_python(),
    {
        T::downcast_borrow_from(self, types, op)
    }

    /// What `from_py_object` makes of the object: the host value that it
    /// extracts, or its failure.
    pub fn extract<T, F>(&self, from_py_object: F) -> (r: PyResult<'p, T>) where
        F: FnOnce(&PyObject<'p>) -> PyResult<'p, T>,

        requires
            from_py_object.requires((self,)),
        ensures
            from_py_object.ensures((self,), r),
    {
        from_py_object(self)
    }
}

/// A handle that takes a reference of its own adds one to the count of its
/// object, and when the handle is released the count is what it was before.
pub proof fn lemma_borrow_then_release(calls: Seq<Call>, ob: usize, before: int)
    requires
        ob != 0,
    ensures
        refcnt_after(calls.push(Call::IncRef { ob }), ob, before) == refcnt_after(calls, ob, before)
            + 1,
        refcnt_after(calls.push(Call::IncRef { ob }) + released(ob), ob, before) == refcnt_after(
            calls,
            ob,
            before,
        ),
{
    let taken = calls.push(Call::IncRef { ob });
    let given = taken.push(Call::DecRef { ob });
    assert(taken.drop_last() =~= calls);
    assert(refcnt_after(taken, ob, before) == refcnt_after(calls, ob, before) + 1);
    assert(given.drop_last() =~= taken);
    assert(refcnt_after(given, ob, before) == refcnt_after(taken, ob, before) - 1);
    assert(taken + released(ob) =~= given);
}

/// Cloning a live handle and releasing the clone leaves the count of the
/// object as it was before the clone.
pub proof fn lemma_clone_then_release(h: PyObject, calls: Seq<Call>, before: int)
    requires
        h.is_live(),
    ensures
        refcnt_after(calls.push(Call::IncRef { ob: h.ptr() }) + released(h.ptr()), h.ptr(), before)
            == refcnt_after(calls, h.ptr(), before),
{
    lemma_borrow_then_release(calls, h.ptr(), before);
}

impl<'p> ToPythonPointer for PyObject<'p> {
    closed spec fn ptr(&self) -> usize {
        self.ptr
    }

    fn as_ptr(&self) -> (r: usize) {
        self.ptr
    }

    fn steal_ptr(self) -> (r: usize) {
        self.ptr
    }
}

impl<'p> PythonObject<'p> for PyObject<'p> {
    open spec fn object(&self) -> PyObject<'p> {
        *self
    }

    proof fn lemma_object_ptr(&self) {
    }

    fn as_object(&self) -> (r: &PyObject<'p>) {
        self
    }

    fn into_object(self) -> (r: PyObject<'p>) {
        self
    }

    fn unchecked_downcast_from(obj: PyObject<'p>) -> (r: PyObject<'p>) {
        obj
    }

    fn python(&self) -> (r: Python<'p>) {
        assert(self.object() == *self);
        self.py
    }
}

impl<'p> PythonObjectWithCheckedDowncast<'p> for PyObject<'p> {
    /// Every object is an object.
    open spec fn accepts(types: StaticTypes, op: ffi::PyObject) -> bool {
        true
    }

    fn downcast_from(
        obj: PyObject<'p>,
        types: &StaticTypes,
        op: &ffi::PyObject,
        calls: &mut Vec<Call>,
    ) -> (r: Result<PyObject<'p>, PythonObjectDowncastError<'p>>) {
        Ok(obj)
    }

    fn downcast_borrow_from<'a>(
        obj: &'a PyObject<'p>,
        types: &StaticTypes,
        op: &ffi::PyObject,
    ) -> (r: Result<Borrowed<'a, PyObject<'p>>, PythonObjectDowncastError<'p>>) {
        Ok(Borrowed::new(obj.alias()))
    }
}

impl<'p> PythonObjectWithTypeObject<'p> for PyObject<'p> {
    open spec fn type_ptr(types: StaticTypes) -> usize {
        types.PyBaseObject_Type()
    }

    fn type_object(py: Python<'p>, types: &StaticTypes, calls: &mut Vec<Call>) -> (r: PyType<'p>) {
        PyType::from_type_ptr(py, types.PyBaseObject_Type(), calls)
    }
}

} // verus!
