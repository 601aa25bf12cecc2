//! The execution context, and what every typed wrapper can do.
use vstd::prelude::*;
use core::marker::PhantomData;
use crate::ffi;
use crate::ffi::{Call, StaticTypes};
use crate::objects::object::{released, PyObject};
use crate::objects::typeobject::PyType;

verus! {

/// The token of a live interpreter session: who holds one may touch the
/// interpreter's objects. A handle is made under a token and carries it. The
/// token holds nothing; `'p` is the time for which the session is live.
#[derive(Clone, Copy, Debug)]
pub struct Python<'p>(PhantomData<&'p ()>);

impl<'p> Python<'p> {
    /// The token, for a caller who knows that the session is live and that
    /// they hold the interpreter for as long as `'p`.
    pub fn assume_gil_acquired() -> (r: Python<'p>) {
        Python(PhantomData)
    }
}

/// Says that an object was not of the type it was to be taken for. It holds
/// the context in which that was found, and no reference.
#[derive(Debug)]
pub struct PythonObjectDowncastError<'p>(pub Python<'p>);

/// A typed wrapper that is lent, not owned: it stands for an object without
/// holding a reference of its own, for as long as `'a`, the borrow of whoever
/// does hold one.
#[derive(Debug)]
pub struct Borrowed<'a, T> {
    value: T,
    owner: PhantomData<&'a T>,
}

impl<'a, T> Borrowed<'a, T> {
    /// The wrapper that is lent.
    pub closed spec fn view(&self) -> T {
        self.value
    }

    /// Lends `value`, which must hold no reference of its own.
    pub(crate) fn new(value: T) -> (r: Self)
        ensures
            r.view() == value,
    {
        Borrowed { value, owner: PhantomData }
    }

    /// The wrapper, to call its methods on.
    pub fn get(&self) -> (r: &T)
        ensures
            *r == self.view(),
    {
        &self.value
    }
}

/// What gives access to the address of an object.
pub trait ToPythonPointer {
    /// The address of the object.
    spec fn ptr(&self) -> usize;

    /// The address of the object. The reference count is left alone.
    fn as_ptr(&self) -> (r: usize)
        ensures
            r == self.ptr(),
    ;

    /// Gives up the wrapper and keeps its reference: the caller now holds the
    /// reference that the wrapper held, and has to pass it on or give it up.
    fn steal_ptr(self) -> (r: usize)
        ensures
            r == self.ptr(),
    ;
}

/// A typed wrapper: an owned handle that is known to stand for an object of
/// one category.
pub trait PythonObject<'p>: ToPythonPointer + Sized {
    /// The owned handle that the wrapper is.
    spec fn object(&self) -> PyObject<'p>;

    /// The wrapper and its handle stand for the same object.
    proof fn lemma_object_ptr(&self)
        ensures
            self.object().ptr() == self.ptr(),
    ;

    /// The wrapper as a plain handle.
    fn as_object(&self) -> (r: &PyObject<'p>)
        ensures
            *r == self.object(),
    ;

    /// Turns the wrapper into the plain handle, reference included.
    fn into_object(self) -> (r: PyObject<'p>)
        ensures
            r == self.object(),
    ;

    /// Takes the handle for a wrapper of this category without looking at the
    /// object. The caller knows that the object is of the category.
    fn unchecked_downcast_from(obj: PyObject<'p>) -> (r: Self)
        ensures
            r.object() == obj,
    ;

    /// Lends the handle as a wrapper of this category without looking at the
    /// object. The caller knows that the object is of the category.
    fn unchecked_downcast_borrow_from<'a>(obj: &'a PyObject<'p>) -> (r: Borrowed<'a, Self>)
        ensures
            r.view().object() == *obj,
    {
        Borrowed::new(Self::unchecked_downcast_from(obj.alias()))
    }

    /// The context that the wrapper was made under: the one that its handle
    /// carries.
    fn python(&self) -> (r: Python<'p>)
        ensures
            r == self.object().spec_python(),
    ;
}

/// A category that an object can be tested for.
pub trait PythonObjectWithCheckedDowncast<'p>: PythonObject<'p> {
    /// The category's predicate: whether an object of which the interpreter
    /// says `op` belongs to it, in a session with these static types.
    spec fn accepts(types: StaticTypes, op: ffi::PyObject) -> bool;

    /// Takes the handle for a wrapper of this category if the object, of
    /// which the interpreter says `op`, belongs to it. The wrapper then holds
    /// the handle's reference. If not, the handle is spent all the same: its
    /// reference is given up.
    fn downcast_from(
        obj: PyObject<'p>,
        types: &StaticTypes,
        op: &ffi::PyObject,
        calls: &mut Vec<Call>,
    ) -> (r: Result<Self, PythonObjectDowncastError<'p>>)
        ensures
            r is Ok <==> Self::accepts(*types, *op),
            r matches Ok(t) ==> t.object() == obj && final(calls)@ == old(calls)@,
            r matches Err(e) ==> e.0 == obj.spec_python() && final(calls)@ == old(calls)@
                + released(obj.ptr()),
    ;

    /// Lends the handle as a wrapper of this category if the object, of which
    /// the interpreter says `op`, belongs to it. No reference changes hands.
    fn downcast_borrow_from<'a>(
        obj: &'a PyObject<'p>,
        types: &StaticTypes,
        op: &ffi::PyObject,
    ) -> (r: Result<Borrowed<'a, Self>, PythonObjectDowncastError<'p>>)
        ensures
            r is Ok <==> Self::accepts(*types, *op),
            r matches Ok(t) ==> t.view().object() == *obj,
            r matches Err(e) ==> e.0 == obj.spec_python(),
    ;
}

/// A category that has a type object of its own.
pub trait PythonObjectWithTypeObject<'p>: PythonObject<'p> {
    /// The address of the category's type object among the static types.
    spec fn type_ptr(types: StaticTypes) -> usize;

    /// A new handle to the category's type object.
    fn type_object(py: Python<'p>, types: &StaticTypes, calls: &mut Vec<Call>) -> (r: PyType<'p>)
        ensures
            r.ptr() == Self::type_ptr(*types),
            r.ptr() != 0,
            r.object().spec_python() == py,
            final(calls)@ == old(calls)@.push(Call::IncRef { ob: Self::type_ptr(*types) }),
    ;
}

} // verus!
