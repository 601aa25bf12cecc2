//! The wrapper of modules.
use vstd::prelude::*;
use vstd::string::StringSliceAdditionalSpecFns;
use vstd::utf8::valid_utf8;
use crate::err::{is_raised, PyErr, PyResult};
use crate::ffi;
use crate::ffi::{Call, StaticTypes};
use crate::python::{
    Borrowed, Python, PythonObject, PythonObjectDowncastError, PythonObjectWithCheckedDowncast,
    PythonObjectWithTypeObject, ToPythonPointer,
};
use crate::objects::dict::PyDict;
use crate::objects::exc::{is_decode_error_create, PyExc_TypeError, UnicodeDecodeError};
use crate::objects::object::{released, PyObject};
use crate::objects::typeobject::PyType;
use crate::text::is_valid_up_to;

verus! {

/// An owned handle to a module.
#[derive(Debug)]
pub struct PyModule<'p>(PyObject<'p>);

/// Whether `call` asks to bind `key` to `value` in the dictionary at `dict`.
pub open spec fn is_dict_set_item(call: Call, dict: usize, key: Seq<char>, value: usize) -> bool {
    call matches Call::DictSetItem { dict: d, key: k, value: v } && d == dict && k@ == key && v
        == value
}

/// Whether `r` is what a name that the interpreter answered with decodes to,
/// for a module under the context `py`.
/// `None`, the null answer, is the interpreter's failure. Bytes that are UTF-8
/// are the text that they encode. Other bytes are a decode failure, whose call
/// asks for the exception that reports the bytes from the end of the valid text
/// to the end of the input.
pub open spec fn is_decoded<'a, 'p>(
    py: Python<'p>,
    answer: Option<&'a [u8]>,
    r: PyResult<'p, &'a str>,
) -> bool {
    match answer {
        None => r matches Err(e) && e == PyErr::Pending(py),
        Some(bytes) => match r {
            Ok(s) => valid_utf8(bytes@) && s.spec_bytes() == bytes@,
            Err(e) => !valid_utf8(bytes@) && (e matches PyErr::Decode(q, call) && q == py && exists|
                start: usize,
            |
                is_valid_up_to(bytes@, start as int) && is_decode_error_create(
                    call,
                    "utf-8"@,
                    bytes@,
                    start,
                    bytes@.len() as usize,
                    "invalid utf-8"@,
                )),
        },
    }
}

/// An object whose type is no subtype of `module` is not taken for a module.
pub proof fn lemma_unrelated_type_is_no_module<'p>(types: StaticTypes, op: ffi::PyObject)
    requires
        !ffi::is_subtype(op.ob_type, types.PyModule_Type()),
    ensures
        !PyModule::<'p>::accepts(types, op),
{
}

impl<'p> PyModule<'p> {
    /// Asks for a new module whose `__name__` is `name`. The answer goes to
    /// [`result_cast_from_owned_ptr`](crate::err::result_cast_from_owned_ptr).
    pub fn new(py: Python<'p>, name: &str) -> (r: Call)
        requires
            !name@.contains('\0'),
        ensures
            r matches Call::ModuleNew { name: n } && n@ == name@,
    {
        Call::ModuleNew { name: name.to_owned() }
    }

    /// Asks for the module named `name` to be imported. The answer goes to
    /// [`result_cast_from_owned_ptr`](crate::err::result_cast_from_owned_ptr).
    pub fn import(py: Python<'p>, name: &str) -> (r: Call)
        requires
            !name@.contains('\0'),
        ensures
            r matches Call::ImportModule { name: n } && n@ == name@,
    {
        Call::ImportModule { name: name.to_owned() }
    }

    /// What becomes of a module that was made for initialisation once `init`
    /// has run on it: the module if `init` succeeded; else the failure of
    /// `init`, and the module is given up.
    pub fn init_result(
        module: PyModule<'p>,
        outcome: PyResult<'p, ()>,
        calls: &mut Vec<Call>,
    ) -> (r: PyResult<'p, PyModule<'p>>)
        ensures
            outcome is Ok ==> r == Ok::<PyModule<'p>, PyErr<'p>>(module) && final(calls)@ == old(calls)@,
            outcome matches Err(e) ==> r == Err::<PyModule<'p>, PyErr<'p>>(e) && final(calls)@
                == old(calls)@ + released(module.ptr()),
    {
        match outcome {
            Ok(_) => Ok(module),
            Err(e) => {
                let mut obj = module.into_object();
                obj.release(calls);
                Err(e)
            },
        }
    }

    /// Initialises the module that the interpreter made from a module
    /// definition and answered with `reply`; `op` is what the interpreter says
    /// of it. Null is the interpreter's failure; an object that is no module
    /// is given up; on a module `init` runs, and
    /// [`PyModule::init_result`] says what becomes of it.
    pub fn _init<F>(
        py: Python<'p>,
        types: &StaticTypes,
        reply: usize,
        op: &ffi::PyObject,
        init: F,
        calls: &mut Vec<Call>,
    ) -> (r: PyResult<'p, PyModule<'p>>) where
        F: FnOnce(Python<'p>, &PyModule<'p>) -> PyResult<'p, ()>,

        requires
            forall|m: PyModule<'p>| m.ptr() == reply ==> init.requires((py, &m)),
        ensures
            reply == 0 ==> (r matches Err(e) && e == PyErr::Pending(py)),
            reply == 0 ==> final(calls)@ == old(calls)@,
            reply != 0 && !PyModule::accepts(*types, *op) ==> (r matches Err(e) && is_raised(
                e,
                types.PyExc(PyExc_TypeError),
                0,
                0,
            )),
            reply != 0 && !PyModule::accepts(*types, *op) ==> final(calls)@ == old(calls)@.push(
                Call::DecRef { ob: reply },
            ).push(Call::IncRef { ob: types.PyExc(PyExc_TypeError) }),
            reply != 0 && PyModule::accepts(*types, *op) ==> exists|
                m: PyModule<'p>,
                outcome: PyResult<'p, ()>,
            |
                {
                    &&& m.ptr() == reply
                    &&& m.object().spec_python() == py
                    &&& init.ensures((py, &m), outcome)
                    &&& outcome is Ok ==> r == Ok::<PyModule<'p>, PyErr<'p>>(m) && final(calls)@
                        == old(calls)@
                    &&& outcome matches Err(e) ==> r == Err::<PyModule<'p>, PyErr<'p>>(e)
                        && final(calls)@ == old(calls)@.push(Call::DecRef { ob: reply })
                },
    {
        let made = crate::err::result_cast_from_owned_ptr::<PyModule>(py, types, reply, op, calls);
        match made {
            Err(e) => Err(e),
            Ok(module) => {
                let ghost m = module;
                let outcome = init(py, &module);
                let r = PyModule::init_result(module, outcome, calls);
                proof {
                    assert(released(reply) =~= seq![Call::DecRef { ob: reply }]);
                    assert(init.ensures((py, &m), outcome));
                }
                r
            },
        }
    }

    /// The dictionary that is the module's namespace, which the interpreter
    /// answered with `reply`: lent for as long as the module is borrowed, with
    /// no reference of its own. Nothing is asked of the interpreter, and no
    /// count changes.
    pub fn dict<'a>(&'a self, reply: usize) -> (r: Borrowed<'a, PyDict<'p>>)
        requires
            reply != 0,
        ensures
            r.view().ptr() == reply,
            r.view().object().spec_python() == self.object().spec_python(),
    {
        let d = PyDict::unchecked_downcast_from(PyObject::unowned(self.python(), reply));
        proof {
            d.lemma_object_ptr();
        }
        Borrowed::new(d)
    }

    /// Decodes a name that the interpreter answered with: `None` for null,
    /// else the bytes of the C string; see [`is_decoded`].
    pub fn str_from_ptr<'a>(&'a self, ptr: Option<&'a [u8]>) -> (r: PyResult<'p, &'a str>)
        ensures
            is_decoded(self.object().spec_python(), ptr, r),
    {
        let py = self.python();
        match ptr {
            None => Err(PyErr::fetch(py)),
            Some(slice) => match core::str::from_utf8(slice) {
                Ok(s) => Ok(s),
                Err(e) => {
                    let call = UnicodeDecodeError::new_utf8(py, slice, e);
                    Err(PyErr::Decode(py, call))
                },
            },
        }
    }

    /// The module's name, from what the interpreter answered when asked for
    /// it; see [`PyModule::str_from_ptr`].
    pub fn name<'a>(&'a self, reply: Option<&'a [u8]>) -> (r: PyResult<'p, &'a str>)
        ensures
            is_decoded(self.object().spec_python(), reply, r),
    {
        self.str_from_ptr(reply)
    }

    /// The module's file name, from what the interpreter answered when asked
    /// for it; see [`PyModule::str_from_ptr`].
    pub fn filename<'a>(&'a self, reply: Option<&'a [u8]>) -> (r: PyResult<'p, &'a str>)
        ensures
            is_decoded(self.object().spec_python(), reply, r),
    {
        self.str_from_ptr(reply)
    }

    /// Asks for the member `name` of the module. The answer goes to
    /// [`result_from_owned_ptr`](crate::err::result_from_owned_ptr).
    pub fn get(&self, name: &str) -> (r: Call)
        ensures
            r matches Call::GetAttr { ob, name: n } && ob == self.ptr() && n@ == name@,
    {
        Call::GetAttr { ob: self.as_ptr(), name: name.to_owned() }
    }

    /// Adds `value` to the module as the member `name`, in the module's
    /// namespace, which is the dictionary at `dict`. The dictionary is only
    /// looked at through the module: no reference to it is taken or given up.
    /// It takes a reference of its own to `value`; the one that `value` held is
    /// given up. The status of the `DictSetItem` goes to
    /// [`error_on_minusone`](crate::err::error_on_minusone).
    pub fn add(&self, name: &str, value: PyObject<'p>, dict: usize, calls: &mut Vec<Call>)
        requires
            dict != 0,
        ensures
            ({
                let n = old(calls)@.len() as int;
                &&& final(calls)@.len() == n + 1 + released(value.ptr()).len()
                &&& final(calls)@.subrange(0, n) == old(calls)@
                &&& is_dict_set_item(final(calls)@[n], dict, name@, value.ptr())
                &&& final(calls)@.subrange(n + 1, final(calls)@.len() as int) == released(
                    value.ptr(),
                )
            }),
    {
        let ghost before = calls@;
        let ghost held = value.ptr();
        let namespace = self.dict(dict);
        calls.push(
            Call::DictSetItem {
                dict: namespace.get().as_ptr(),
                key: name.to_owned(),
                value: value.as_ptr(),
            },
        );
        let mut value = value;
        value.release(calls);
        proof {
            assert(calls@.subrange(0, before.len() as int) =~= before);
            assert(calls@.subrange(before.len() as int + 1, calls@.len() as int) =~= released(held));
        }
    }
}

impl<'p> ToPythonPointer for PyModule<'p> {
    closed spec fn ptr(&self) -> usize {
        self.0.ptr()
    }

    fn as_ptr(&self) -> (r: usize) {
        self.0.as_ptr()
    }

    fn steal_ptr(self) -> (r: usize) {
        self.0.steal_ptr()
    }
}

impl<'p> PythonObject<'p> for PyModule<'p> {
    closed spec fn object(&self) -> PyObject<'p> {
        self.0
    }

    proof fn lemma_object_ptr(&self) {
    }

    fn as_object(&self) -> (r: &PyObject<'p>) {
        &self.0
    }

    fn into_object(self) -> (r: PyObject<'p>) {
        self.0
    }

    fn unchecked_downcast_from(obj: PyObject<'p>) -> (r: PyModule<'p>) {
        PyModule(obj)
    }

    fn python(&self) -> (r: Python<'p>) {
        self.0.python()
    }
}

impl<'p> PythonObjectWithCheckedDowncast<'p> for PyModule<'p> {
    /// A module is an object that passes the type check against `module`.
    open spec fn accepts(types: StaticTypes, op: ffi::PyObject) -> bool {
        ffi::type_check(op.ob_type, types.PyModule_Type())
    }

    fn downcast_from(
        obj: PyObject<'p>,
        types: &StaticTypes,
        op: &ffi::PyObject,
        calls: &mut Vec<Call>,
    ) -> (r: Result<PyModule<'p>, PythonObjectDowncastError<'p>>) {
        if ffi::PyModule_Check(op, types) != 0 {
            Ok(PyModule(obj))
        } else {
            let mut obj = obj;
            obj.release(calls);
            Err(PythonObjectDowncastError(obj.python()))
        }
    }

    fn downcast_borrow_from<'a>(
        obj: &'a PyObject<'p>,
        types: &StaticTypes,
        op: &ffi::PyObject,
    ) -> (r: Result<Borrowed<'a, PyModule<'p>>, PythonObjectDowncastError<'p>>) {
        if ffi::PyModule_Check(op, types) != 0 {
            Ok(Self::unchecked_downcast_borrow_from(obj))
        } else {
            Err(PythonObjectDowncastError(obj.python()))
        }
    }
}

impl<'p> PythonObjectWithTypeObject<'p> for PyModule<'p> {
    open spec fn type_ptr(types: StaticTypes) -> usize {
        types.PyModule_Type()
    }

    fn type_object(py: Python<'p>, types: &StaticTypes, calls: &mut Vec<Call>) -> (r: PyType<'p>) {
        PyType::from_type_ptr(py, types.PyModule_Type(), calls)
    }
}

} // verus!
