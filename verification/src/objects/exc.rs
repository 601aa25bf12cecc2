//! The exception types.
//!
//! One wrapper serves them all. `Exc<'p, KIND>` is the wrapper of the
//! exception type that [`StaticTypes::PyExc`](crate::ffi::StaticTypes) has for
//! the kind `KIND`; each type has its kind as a constant and its wrapper as an
//! alias.
use vstd::prelude::*;
use core::ops::Range;
use core::str::Utf8Error;
use crate::ffi;
use crate::ffi::{Call, PyExc_COUNT, StaticTypes};
use crate::python::{
    Borrowed, Python, PythonObject, PythonObjectDowncastError, PythonObjectWithCheckedDowncast,
    PythonObjectWithTypeObject, ToPythonPointer,
};
use crate::objects::object::PyObject;
use crate::objects::typeobject::PyType;
use crate::text::{
    is_valid_up_to, lemma_valid_text_ends_where_no_char_begins, lemma_valid_up_to_unique,
    valid_prefix_len,
};
use vstd::utf8::{valid_first_scalar, valid_utf8};

verus! {

pub const PyExc_BaseException: usize = 0;

pub const PyExc_Exception: usize = 1;

pub const PyExc_LookupError: usize = 2;

pub const PyExc_AssertionError: usize = 3;

pub const PyExc_AttributeError: usize = 4;

pub const PyExc_EOFError: usize = 5;

pub const PyExc_EnvironmentError: usize = 6;

pub const PyExc_FloatingPointError: usize = 7;

pub const PyExc_IOError: usize = 8;

pub const PyExc_ImportError: usize = 9;

pub const PyExc_IndexError: usize = 10;

pub const PyExc_KeyError: usize = 11;

pub const PyExc_KeyboardInterrupt: usize = 12;

pub const PyExc_MemoryError: usize = 13;

pub const PyExc_NameError: usize = 14;

pub const PyExc_NotImplementedError: usize = 15;

pub const PyExc_OSError: usize = 16;

pub const PyExc_OverflowError: usize = 17;

pub const PyExc_ReferenceError: usize = 18;

pub const PyExc_RuntimeError: usize = 19;

pub const PyExc_SyntaxError: usize = 20;

pub const PyExc_SystemError: usize = 21;

pub const PyExc_SystemExit: usize = 22;

pub const PyExc_TypeError: usize = 23;

pub const PyExc_ValueError: usize = 24;

pub const PyExc_ZeroDivisionError: usize = 25;

pub const PyExc_UnicodeDecodeError: usize = 26;

pub const PyExc_UnicodeEncodeError: usize = 27;

pub const PyExc_UnicodeTranslateError: usize = 28;

/// An owned handle to an exception of the type of the kind `KIND`.
#[derive(Debug)]
pub struct Exc<'p, const KIND: usize>(PyObject<'p>);

pub type BaseException<'p> = Exc<'p, PyExc_BaseException>;

pub type Exception<'p> = Exc<'p, PyExc_Exception>;

pub type LookupError<'p> = Exc<'p, PyExc_LookupError>;

pub type AssertionError<'p> = Exc<'p, PyExc_AssertionError>;

pub type AttributeError<'p> = Exc<'p, PyExc_AttributeError>;

pub type EOFError<'p> = Exc<'p, PyExc_EOFError>;

pub type EnvironmentError<'p> = Exc<'p, PyExc_EnvironmentError>;

pub type FloatingPointError<'p> = Exc<'p, PyExc_FloatingPointError>;

pub type IOError<'p> = Exc<'p, PyExc_IOError>;

pub type ImportError<'p> = Exc<'p, PyExc_ImportError>;

pub type IndexError<'p> = Exc<'p, PyExc_IndexError>;

pub type KeyError<'p> = Exc<'p, PyExc_KeyError>;

pub type KeyboardInterrupt<'p> = Exc<'p, PyExc_KeyboardInterrupt>;

pub type MemoryError<'p> = Exc<'p, PyExc_MemoryError>;

pub type NameError<'p> = Exc<'p, PyExc_NameError>;

pub type NotImplementedError<'p> = Exc<'p, PyExc_NotImplementedError>;

pub type OSError<'p> = Exc<'p, PyExc_OSError>;

pub type OverflowError<'p> = Exc<'p, PyExc_OverflowError>;

pub type ReferenceError<'p> = Exc<'p, PyExc_ReferenceError>;

pub type RuntimeError<'p> = Exc<'p, PyExc_RuntimeError>;

pub type SyntaxError<'p> = Exc<'p, PyExc_SyntaxError>;

pub type SystemError<'p> = Exc<'p, PyExc_SystemError>;

pub type SystemExit<'p> = Exc<'p, PyExc_SystemExit>;

pub type TypeError<'p> = Exc<'p, PyExc_TypeError>;

pub type ValueError<'p> = Exc<'p, PyExc_ValueError>;

pub type ZeroDivisionError<'p> = Exc<'p, PyExc_ZeroDivisionError>;

pub type UnicodeDecodeError<'p> = Exc<'p, PyExc_UnicodeDecodeError>;

pub type UnicodeEncodeError<'p> = Exc<'p, PyExc_UnicodeEncodeError>;

pub type UnicodeTranslateError<'p> = Exc<'p, PyExc_UnicodeTranslateError>;

impl<'p, const KIND: usize> ToPythonPointer for Exc<'p, KIND> {
    closed spec fn ptr(&self) -> usize {
        self.0.ptr()
    }

    fn as_ptr(&self) -> (r: usize) {
        self.0.as_ptr()
    }

    fn steal_ptr(self) -> (r: usize) {
        self.0.steal_ptr()
    }
}

impl<'p, const KIND: usize> PythonObject<'p> for Exc<'p, KIND> {
    closed spec fn object(&self) -> PyObject<'p> {
        self.0
    }

    proof fn lemma_object_ptr(&self) {
    }

    fn as_object(&self) -> (r: &PyObject<'p>) {
        &self.0
    }

    fn into_object(self) -> (r: PyObject<'p>) {
        self.0
    }

    fn unchecked_downcast_from(obj: PyObject<'p>) -> (r: Exc<'p, KIND>) {
        Exc(obj)
    }

    fn python(&self) -> (r: Python<'p>) {
        self.0.python()
    }
}

impl<'p, const KIND: usize> PythonObjectWithCheckedDowncast<'p> for Exc<'p, KIND> {
    /// An exception of a type is an object that passes the type check
    /// against that exception type: the flags of the built-in families have
    /// no part in it.
    open spec fn accepts(types: StaticTypes, op: ffi::PyObject) -> bool {
        KIND < PyExc_COUNT && ffi::type_check(op.ob_type, types.PyExc(KIND))
    }

    fn downcast_from(
        obj: PyObject<'p>,
        types: &StaticTypes,
        op: &ffi::PyObject,
        calls: &mut Vec<Call>,
    ) -> (r: Result<Exc<'p, KIND>, PythonObjectDowncastError<'p>>) {
        if KIND < PyExc_COUNT && ffi::PyObject_TypeCheck(op, types.PyExc(KIND)) != 0 {
            Ok(Exc(obj))
        } else {
            let mut obj = obj;
            obj.release(calls);
            Err(PythonObjectDowncastError(obj.python()))
        }
    }

    fn downcast_borrow_from<'a>(
        obj: &'a PyObject<'p>,
        types: &StaticTypes,
        op: &ffi::PyObject,
    ) -> (r: Result<Borrowed<'a, Exc<'p, KIND>>, PythonObjectDowncastError<'p>>) {
        if KIND < PyExc_COUNT && ffi::PyObject_TypeCheck(op, types.PyExc(KIND)) != 0 {
            Ok(Self::unchecked_downcast_borrow_from(obj))
        } else {
            Err(PythonObjectDowncastError(obj.python()))
        }
    }
}

impl<'p> PythonObjectWithTypeObject<'p> for BaseException<'p> {
    open spec fn type_ptr(types: StaticTypes) -> usize {
        types.PyExc(PyExc_BaseException)
    }

    fn type_object(py: Python<'p>, types: &StaticTypes, calls: &mut Vec<Call>) -> (r: PyType<'p>) {
        PyType::from_type_ptr(py, types.PyExc(PyExc_BaseException), calls)
    }
}

impl<'p> PythonObjectWithTypeObject<'p> for Exception<'p> {
    open spec fn type_ptr(types: StaticTypes) -> usize {
        types.PyExc(PyExc_Exception)
    }

    fn type_object(py: Python<'p>, types: &StaticTypes, calls: &mut Vec<Call>) -> (r: PyType<'p>) {
        PyType::from_type_ptr(py, types.PyExc(PyExc_Exception), calls)
    }
}

impl<'p> PythonObjectWithTypeObject<'p> for LookupError<'p> {
    open spec fn type_ptr(types: StaticTypes) -> usize {
        types.PyExc(PyExc_LookupError)
    }

    fn type_object(py: Python<'p>, types: &StaticTypes, calls: &mut Vec<Call>) -> (r: PyType<'p>) {
        PyType::from_type_ptr(py, types.PyExc(PyExc_LookupError), calls)
    }
}

impl<'p> PythonObjectWithTypeObject<'p> for AssertionError<'p> {
    open spec fn type_ptr(types: StaticTypes) -> usize {
        types.PyExc(PyExc_AssertionError)
    }

    fn type_object(py: Python<'p>, types: &StaticTypes, calls: &mut Vec<Call>) -> (r: PyType<'p>) {
        PyType::from_type_ptr(py, types.PyExc(PyExc_AssertionError), calls)
    }
}

impl<'p> PythonObjectWithTypeObject<'p> for AttributeError<'p> {
    open spec fn type_ptr(types: StaticTypes) -> usize {
        types.PyExc(PyExc_AttributeError)
    }

    fn type_object(py: Python<'p>, types: &StaticTypes, calls: &mut Vec<Call>) -> (r: PyType<'p>) {
        PyType::from_type_ptr(py, types.PyExc(PyExc_AttributeError), calls)
    }
}

impl<'p> PythonObjectWithTypeObject<'p> for EOFError<'p> {
    open spec fn type_ptr(types: StaticTypes) -> usize {
        types.PyExc(PyExc_EOFError)
    }

    fn type_object(py: Python<'p>, types: &StaticTypes, calls: &mut Vec<Call>) -> (r: PyType<'p>) {
        PyType::from_type_ptr(py, types.PyExc(PyExc_EOFError), calls)
    }
}

impl<'p> PythonObjectWithTypeObject<'p> for EnvironmentError<'p> {
    open spec fn type_ptr(types: StaticTypes) -> usize {
        types.PyExc(PyExc_EnvironmentError)
    }

    fn type_object(py: Python<'p>, types: &StaticTypes, calls: &mut Vec<Call>) -> (r: PyType<'p>) {
        PyType::from_type_ptr(py, types.PyExc(PyExc_EnvironmentError), calls)
    }
}

impl<'p> PythonObjectWithTypeObject<'p> for FloatingPointError<'p> {
    open spec fn type_ptr(types: StaticTypes) -> usize {
        types.PyExc(PyExc_FloatingPointError)
    }

    fn type_object(py: Python<'p>, types: &StaticTypes, calls: &mut Vec<Call>) -> (r: PyType<'p>) {
        PyType::from_type_ptr(py, types.PyExc(PyExc_FloatingPointError), calls)
    }
}

impl<'p> PythonObjectWithTypeObject<'p> for IOError<'p> {
    open spec fn type_ptr(types: StaticTypes) -> usize {
        types.PyExc(PyExc_IOError)
    }

    fn type_object(py: Python<'p>, types: &StaticTypes, calls: &mut Vec<Call>) -> (r: PyType<'p>) {
        PyType::from_type_ptr(py, types.PyExc(PyExc_IOError), calls)
    }
}

impl<'p> PythonObjectWithTypeObject<'p> for ImportError<'p> {
    open spec fn type_ptr(types: StaticTypes) -> usize {
        types.PyExc(PyExc_ImportError)
    }

    fn type_object(py: Python<'p>, types: &StaticTypes, calls: &mut Vec<Call>) -> (r: PyType<'p>) {
        PyType::from_type_ptr(py, types.PyExc(PyExc_ImportError), calls)
    }
}

impl<'p> PythonObjectWithTypeObject<'p> for IndexError<'p> {
    open spec fn type_ptr(types: StaticTypes) -> usize {
        types.PyExc(PyExc_IndexError)
    }

    fn type_object(py: Python<'p>, types: &StaticTypes, calls: &mut Vec<Call>) -> (r: PyType<'p>) {
        PyType::from_type_ptr(py, types.PyExc(PyExc_IndexError), calls)
    }
}

impl<'p> PythonObjectWithTypeObject<'p> for KeyError<'p> {
    open spec fn type_ptr(types: StaticTypes) -> usize {
        types.PyExc(PyExc_KeyError)
    }

    fn type_object(py: Python<'p>, types: &StaticTypes, calls: &mut Vec<Call>) -> (r: PyType<'p>) {
        PyType::from_type_ptr(py, types.PyExc(PyExc_KeyError), calls)
    }
}

impl<'p> PythonObjectWithTypeObject<'p> for KeyboardInterrupt<'p> {
    open spec fn type_ptr(types: StaticTypes) -> usize {
        types.PyExc(PyExc_KeyboardInterrupt)
    }

    fn type_object(py: Python<'p>, types: &StaticTypes, calls: &mut Vec<Call>) -> (r: PyType<'p>) {
        PyType::from_type_ptr(py, types.PyExc(PyExc_KeyboardInterrupt), calls)
    }
}

impl<'p> PythonObjectWithTypeObject<'p> for MemoryError<'p> {
    open spec fn type_ptr(types: StaticTypes) -> usize {
        types.PyExc(PyExc_MemoryError)
    }

    fn type_object(py: Python<'p>, types: &StaticTypes, calls: &mut Vec<Call>) -> (r: PyType<'p>) {
        PyType::from_type_ptr(py, types.PyExc(PyExc_MemoryError), calls)
    }
}

impl<'p> PythonObjectWithTypeObject<'p> for NameError<'p> {
    open spec fn type_ptr(types: StaticTypes) -> usize {
        types.PyExc(PyExc_NameError)
    }

    fn type_object(py: Python<'p>, types: &StaticTypes, calls: &mut Vec<Call>) -> (r: PyType<'p>) {
        PyType::from_type_ptr(py, types.PyExc(PyExc_NameError), calls)
    }
}

impl<'p> PythonObjectWithTypeObject<'p> for NotImplementedError<'p> {
    open spec fn type_ptr(types: StaticTypes) -> usize {
        types.PyExc(PyExc_NotImplementedError)
    }

    fn type_object(py: Python<'p>, types: &StaticTypes, calls: &mut Vec<Call>) -> (r: PyType<'p>) {
        PyType::from_type_ptr(py, types.PyExc(PyExc_NotImplementedError), calls)
    }
}

impl<'p> PythonObjectWithTypeObject<'p> for OSError<'p> {
    open spec fn type_ptr(types: StaticTypes) -> usize {
        types.PyExc(PyExc_OSError)
    }

    fn type_object(py: Python<'p>, types: &StaticTypes, calls: &mut Vec<Call>) -> (r: PyType<'p>) {
        PyType::from_type_ptr(py, types.PyExc(PyExc_OSError), calls)
    }
}

impl<'p> PythonObjectWithTypeObject<'p> for OverflowError<'p> {
    open spec fn type_ptr(types: StaticTypes) -> usize {
        types.PyExc(PyExc_OverflowError)
    }

    fn type_object(py: Python<'p>, types: &StaticTypes, calls: &mut Vec<Call>) -> (r: PyType<'p>) {
        PyType::from_type_ptr(py, types.PyExc(PyExc_OverflowError), calls)
    }
}

impl<'p> PythonObjectWithTypeObject<'p> for ReferenceError<'p> {
    open spec fn type_ptr(types: StaticTypes) -> usize {
        types.PyExc(PyExc_ReferenceError)
    }

    fn type_object(py: Python<'p>, types: &StaticTypes, calls: &mut Vec<Call>) -> (r: PyType<'p>) {
        PyType::from_type_ptr(py, types.PyExc(PyExc_ReferenceError), calls)
    }
}

impl<'p> PythonObjectWithTypeObject<'p> for RuntimeError<'p> {
    open spec fn type_ptr(types: StaticTypes) -> usize {
        types.PyExc(PyExc_RuntimeError)
    }

    fn type_object(py: Python<'p>, types: &StaticTypes, calls: &mut Vec<Call>) -> (r: PyType<'p>) {
        PyType::from_type_ptr(py, types.PyExc(PyExc_RuntimeError), calls)
    }
}

impl<'p> PythonObjectWithTypeObject<'p> for SyntaxError<'p> {
    open spec fn type_ptr(types: StaticTypes) -> usize {
        types.PyExc(PyExc_SyntaxError)
    }

    fn type_object(py: Python<'p>, types: &StaticTypes, calls: &mut Vec<Call>) -> (r: PyType<'p>) {
        PyType::from_type_ptr(py, types.PyExc(PyExc_SyntaxError), calls)
    }
}

impl<'p> PythonObjectWithTypeObject<'p> for SystemError<'p> {
    open spec fn type_ptr(types: StaticTypes) -> usize {
        types.PyExc(PyExc_SystemError)
    }

    fn type_object(py: Python<'p>, types: &StaticTypes, calls: &mut Vec<Call>) -> (r: PyType<'p>) {
        PyType::from_type_ptr(py, types.PyExc(PyExc_SystemError), calls)
    }
}

impl<'p> PythonObjectWithTypeObject<'p> for SystemExit<'p> {
    open spec fn type_ptr(types: StaticTypes) -> usize {
        types.PyExc(PyExc_SystemExit)
    }

    fn type_object(py: Python<'p>, types: &StaticTypes, calls: &mut Vec<Call>) -> (r: PyType<'p>) {
        PyType::from_type_ptr(py, types.PyExc(PyExc_SystemExit), calls)
    }
}

impl<'p> PythonObjectWithTypeObject<'p> for TypeError<'p> {
    open spec fn type_ptr(types: StaticTypes) -> usize {
        types.PyExc(PyExc_TypeError)
    }

    fn type_object(py: Python<'p>, types: &StaticTypes, calls: &mut Vec<Call>) -> (r: PyType<'p>) {
        PyType::from_type_ptr(py, types.PyExc(PyExc_TypeError), calls)
    }
}

impl<'p> PythonObjectWithTypeObject<'p> for ValueError<'p> {
    open spec fn type_ptr(types: StaticTypes) -> usize {
        types.PyExc(PyExc_ValueError)
    }

    fn type_object(py: Python<'p>, types: &StaticTypes, calls: &mut Vec<Call>) -> (r: PyType<'p>) {
        PyType::from_type_ptr(py, types.PyExc(PyExc_ValueError), calls)
    }
}

impl<'p> PythonObjectWithTypeObject<'p> for ZeroDivisionError<'p> {
    open spec fn type_ptr(types: StaticTypes) -> usize {
        types.PyExc(PyExc_ZeroDivisionError)
    }

    fn type_object(py: Python<'p>, types: &StaticTypes, calls: &mut Vec<Call>) -> (r: PyType<'p>) {
        PyType::from_type_ptr(py, types.PyExc(PyExc_ZeroDivisionError), calls)
    }
}

impl<'p> PythonObjectWithTypeObject<'p> for UnicodeDecodeError<'p> {
    open spec fn type_ptr(types: StaticTypes) -> usize {
        types.PyExc(PyExc_UnicodeDecodeError)
    }

    fn type_object(py: Python<'p>, types: &StaticTypes, calls: &mut Vec<Call>) -> (r: PyType<'p>) {
        PyType::from_type_ptr(py, types.PyExc(PyExc_UnicodeDecodeError), calls)
    }
}

impl<'p> PythonObjectWithTypeObject<'p> for UnicodeEncodeError<'p> {
    open spec fn type_ptr(types: StaticTypes) -> usize {
        types.PyExc(PyExc_UnicodeEncodeError)
    }

    fn type_object(py: Python<'p>, types: &StaticTypes, calls: &mut Vec<Call>) -> (r: PyType<'p>) {
        PyType::from_type_ptr(py, types.PyExc(PyExc_UnicodeEncodeError), calls)
    }
}

impl<'p> PythonObjectWithTypeObject<'p> for UnicodeTranslateError<'p> {
    open spec fn type_ptr(types: StaticTypes) -> usize {
        types.PyExc(PyExc_UnicodeTranslateError)
    }

    fn type_object(py: Python<'p>, types: &StaticTypes, calls: &mut Vec<Call>) -> (r: PyType<'p>) {
        PyType::from_type_ptr(py, types.PyExc(PyExc_UnicodeTranslateError), calls)
    }
}

/// Whether `call` asks for a `UnicodeDecodeError` with these contents.
pub open spec fn is_decode_error_create(
    call: Call,
    encoding: Seq<char>,
    input: Seq<u8>,
    start: usize,
    end: usize,
    reason: Seq<char>,
) -> bool {
    call matches Call::UnicodeDecodeErrorCreate { encoding: e, input: i, start: s, end: n, reason: r }
        && e@ == encoding && i@ == input && s == start && n == end && r@ == reason
}

/// The exception for bytes that are valid text up to `k` and go on with bytes
/// with which no character begins reports the range that starts at `k` and
/// ends with the input. `start` is where the call says that the range starts.
pub proof fn lemma_decode_error_starts_at_invalid_byte(
    input: Seq<u8>,
    k: int,
    call: Call,
    start: usize,
)
    requires
        0 <= k < input.len() <= usize::MAX,
        valid_utf8(input.subrange(0, k)),
        !valid_first_scalar(input.subrange(k, input.len() as int)),
        is_valid_up_to(input, start as int),
        is_decode_error_create(
            call,
            "utf-8"@,
            input,
            start,
            input.len() as usize,
            "invalid utf-8"@,
        ),
    ensures
        call matches Call::UnicodeDecodeErrorCreate { start: s, end: e, .. } && s == k && e
            == input.len(),
{
    lemma_valid_text_ends_where_no_char_begins(input, k);
    lemma_valid_up_to_unique(input, k, start as int);
}

/// An object whose type is no subtype of an exception type is not taken for
/// an exception of that type.
pub proof fn lemma_unrelated_type_is_no_exception<'p, const KIND: usize>(
    types: StaticTypes,
    op: ffi::PyObject,
)
    requires
        !ffi::is_subtype(op.ob_type, types.PyExc(KIND)),
    ensures
        !Exc::<'p, KIND>::accepts(types, op),
{
}

impl<'p> UnicodeDecodeError<'p> {
    /// Asks for the exception that says that the bytes in `range` of `input`
    /// could not be decoded as `encoding`, for `reason`. The answer goes to
    /// [`result_cast_from_owned_ptr`](crate::err::result_cast_from_owned_ptr).
    pub fn new(
        py: Python<'p>,
        encoding: &str,
        input: &[u8],
        range: Range<usize>,
        reason: &str,
    ) -> (r: Call)
        requires
            !encoding@.contains('\0'),
            !reason@.contains('\0'),
        ensures
            is_decode_error_create(r, encoding@, input@, range.start, range.end, reason@),
    {
        Call::UnicodeDecodeErrorCreate {
            encoding: encoding.to_owned(),
            input: vstd::slice::slice_to_vec(input),
            start: range.start,
            end: range.end,
            reason: reason.to_owned(),
        }
    }

    /// Asks for the exception that reports `err`, which decoding `input` as
    /// UTF-8 gave: the bytes from where the valid text ends to the end of the
    /// input are at fault.
    pub fn new_utf8(py: Python<'p>, input: &[u8], err: Utf8Error) -> (r: Call)
        ensures
            is_decode_error_create(
                r,
                "utf-8"@,
                input@,
                valid_prefix_len(err),
                input@.len() as usize,
                "invalid utf-8"@,
            ),
    {
        let pos = err.valid_up_to();
        proof {
            reveal_strlit("utf-8");
            reveal_strlit("invalid utf-8");
            assert forall|i: int| 0 <= i < "utf-8"@.len() implies "utf-8"@[i] != '\0' by {}
            assert forall|i: int| 0 <= i < "invalid utf-8"@.len() implies "invalid utf-8"@[i]
                != '\0' by {}
        }
        UnicodeDecodeError::new(py, "utf-8", input, pos..input.len(), "invalid utf-8")
    }
}

} // verus!
