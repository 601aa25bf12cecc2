use cpython::ffi::{self, Call, StaticTypes};
use cpython::objects::dict::PyDict;
use cpython::objects::exc::{Exc, KeyError, LookupError, TypeError, UnicodeDecodeError};
use cpython::objects::list::PyList;
use cpython::objects::module::PyModule;
use cpython::objects::object::PyObject;
use cpython::objects::typeobject::PyType;
use cpython::python::{Python, PythonObject, PythonObjectWithTypeObject, ToPythonPointer};

const OBJECT: usize = 0x1000;
const TYPE: usize = 0x1010;
const LIST: usize = 0x1020;
const DICT: usize = 0x1030;
const MODULE: usize = 0x1040;
const STR: usize = 0x1050;

fn exc_type(kind: usize) -> usize {
    0x2000 + 16 * kind
}

fn static_types() -> StaticTypes {
    let exceptions = (0..29).map(|k| 0x2000 + 16 * k).collect();
    StaticTypes::new(0x1000, 0x1010, 0x1020, 0x1030, 0x1040, 0x1050, exceptions).unwrap()
}

fn object_of(ty: usize, flags: u64, mro: Vec<usize>) -> ffi::PyObject {
    ffi::PyObject {
        ob_refcnt: 1,
        ob_type: ffi::PyTypeObject { addr: ty, tp_flags: flags, tp_mro: mro },
    }
}

fn a_list() -> ffi::PyObject {
    object_of(LIST, ffi::Py_TPFLAGS_LIST_SUBCLASS, vec![LIST, OBJECT])
}

fn a_dict() -> ffi::PyObject {
    object_of(DICT, ffi::Py_TPFLAGS_DICT_SUBCLASS, vec![DICT, OBJECT])
}

fn a_key_error() -> ffi::PyObject {
    // KeyError -> LookupError -> Exception -> BaseException -> object
    object_of(
        exc_type(11),
        0x4000_0000,
        vec![exc_type(11), exc_type(2), exc_type(1), exc_type(0), OBJECT],
    )
}

#[test]
fn flag_tests_read_the_type_flags() {
    let types = static_types();
    let text = object_of(STR, ffi::Py_TPFLAGS_UNICODE_SUBCLASS, vec![STR, OBJECT]);
    let derived = object_of(0x9000, ffi::Py_TPFLAGS_UNICODE_SUBCLASS | 0x200, vec![0x9000, STR, OBJECT]);
    assert_eq!(ffi::PyUnicode_Check(&text), 1);
    assert_eq!(ffi::PyUnicode_Check(&derived), 1);
    assert_eq!(ffi::PyUnicode_Check(&a_list()), 0);
    assert_eq!(ffi::PyUnicode_CheckExact(&text, &types), 1);
    assert_eq!(ffi::PyUnicode_CheckExact(&derived, &types), 0);
    assert_eq!(ffi::PyUnicode_CheckExact(&a_list(), &types), 0);
    assert_eq!(ffi::PyList_Check(&a_list()), 1);
    assert_eq!(ffi::PyList_Check(&a_dict()), 0);
    assert_eq!(ffi::PyDict_Check(&a_dict()), 1);
    assert_eq!(ffi::PyDict_Check(&a_list()), 0);
    let meta = object_of(TYPE, ffi::Py_TPFLAGS_TYPE_SUBCLASS, vec![TYPE, OBJECT]);
    assert_eq!(ffi::PyType_Check(&meta), 1);
    assert_eq!(ffi::PyType_Check(&text), 0);
    assert_eq!(ffi::PyType_HasFeature(&text.ob_type, 0x1000_0000), 1);
    assert_eq!(ffi::PyType_HasFeature(&text.ob_type, 0x0fff_ffff), 0);
    assert_eq!(ffi::PyType_FastSubclass(&text.ob_type, 0x3000_0000), 1);
}

#[test]
fn subtype_walk_reads_the_resolution_order() {
    let types = static_types();
    let key_error = a_key_error();
    assert_eq!(ffi::PyType_IsSubtype(&key_error.ob_type, exc_type(2)), 1);
    assert_eq!(ffi::PyType_IsSubtype(&key_error.ob_type, OBJECT), 1);
    assert_eq!(ffi::PyType_IsSubtype(&key_error.ob_type, exc_type(23)), 0);
    assert_eq!(ffi::PyObject_TypeCheck(&key_error, exc_type(11)), 1);
    assert_eq!(ffi::PyObject_TypeCheck(&key_error, exc_type(0)), 1);
    assert_eq!(ffi::PyObject_TypeCheck(&key_error, LIST), 0);
    // the type itself passes even where the resolution order is not there yet
    let raw = object_of(MODULE, 0, vec![]);
    assert_eq!(ffi::PyType_IsSubtype(&raw.ob_type, MODULE), 1);
    assert_eq!(ffi::PyType_IsSubtype(&raw.ob_type, OBJECT), 0);
    assert_eq!(ffi::PyObject_TypeCheck(&raw, MODULE), 1);
    assert_eq!(ffi::PyModule_Check(&raw, &types), 1);
    assert_eq!(ffi::PyModule_Check(&a_list(), &types), 0);
}

#[test]
fn checked_downcast_succeeds_on_the_category() {
    let types = static_types();
    let py = Python::assume_gil_acquired();
    let mut calls = Vec::new();
    let list = PyObject::from_owned_ptr(py, 0x5000).cast_into::<PyList>(&types, &a_list(), &mut calls);
    assert_eq!(list.unwrap().as_ptr(), 0x5000);
    let dict = PyObject::from_owned_ptr(py, 0x5010).cast_into::<PyDict>(&types, &a_dict(), &mut calls);
    assert_eq!(dict.unwrap().as_ptr(), 0x5010);
    let any = PyObject::from_owned_ptr(py, 0x5020).cast_into::<PyObject>(&types, &a_dict(), &mut calls);
    assert_eq!(any.unwrap().as_ptr(), 0x5020);
    let meta = object_of(TYPE, ffi::Py_TPFLAGS_TYPE_SUBCLASS, vec![TYPE, OBJECT]);
    let ty = PyObject::from_owned_ptr(py, LIST).cast_into::<PyType>(&types, &meta, &mut calls);
    assert_eq!(ty.unwrap().as_type_ptr(), LIST);
    let package = object_of(0x9100, 0, vec![0x9100, MODULE, OBJECT]);
    let module = PyObject::from_owned_ptr(py, 0x5030).cast_into::<PyModule>(&types, &package, &mut calls);
    assert_eq!(module.unwrap().as_ptr(), 0x5030);
    // success moves the reference into the wrapper: nothing is asked
    assert!(calls.is_empty());
}

#[test]
fn checked_downcast_of_another_type_fails_and_spends_the_handle() {
    let types = static_types();
    let py = Python::assume_gil_acquired();
    let mut calls = Vec::new();
    let r = PyObject::from_owned_ptr(py, 0x5000).cast_into::<PyList>(&types, &a_dict(), &mut calls);
    assert!(r.is_err());
    assert_eq!(calls, vec![Call::DecRef { ob: 0x5000 }]);
    calls.clear();
    let r = PyObject::from_owned_ptr(py, 0x5010).cast_into::<PyModule>(&types, &a_list(), &mut calls);
    assert!(r.is_err());
    let r = PyObject::from_owned_ptr(py, 0x5020).cast_into::<PyType>(&types, &a_list(), &mut calls);
    assert!(r.is_err());
    let r = PyObject::from_owned_ptr(py, 0x5030).cast_into::<PyDict>(&types, &a_list(), &mut calls);
    assert!(r.is_err());
    assert_eq!(
        calls,
        vec![Call::DecRef { ob: 0x5010 }, Call::DecRef { ob: 0x5020 }, Call::DecRef { ob: 0x5030 }]
    );
}

#[test]
fn exceptions_are_told_by_the_type_check_alone() {
    let types = static_types();
    let py = Python::assume_gil_acquired();
    let mut calls = Vec::new();
    let exact = PyObject::from_owned_ptr(py, 0x6000).cast_into::<KeyError>(&types, &a_key_error(), &mut calls);
    assert_eq!(exact.unwrap().as_ptr(), 0x6000);
    let base = PyObject::from_owned_ptr(py, 0x6000).cast_into::<LookupError>(&types, &a_key_error(), &mut calls);
    assert_eq!(base.unwrap().as_ptr(), 0x6000);
    assert!(calls.is_empty());
    let other = PyObject::from_owned_ptr(py, 0x6000).cast_into::<TypeError>(&types, &a_key_error(), &mut calls);
    assert!(other.is_err());
    assert_eq!(calls, vec![Call::DecRef { ob: 0x6000 }]);
    calls.clear();
    // the flag of the exception family does not make an object a KeyError
    let flagged = object_of(0x9200, 0x4000_0000, vec![0x9200, OBJECT]);
    let r = PyObject::from_owned_ptr(py, 0x6010).cast_into::<KeyError>(&types, &flagged, &mut calls);
    assert!(r.is_err());
    // a kind that the session has no type for takes nothing
    let r = PyObject::from_owned_ptr(py, 0x6020).cast_into::<Exc<29>>(&types, &a_key_error(), &mut calls);
    assert!(r.is_err());
}

#[test]
fn borrowed_downcast_changes_no_count() {
    let types = static_types();
    let py = Python::assume_gil_acquired();
    let h = PyObject::from_owned_ptr(py, 0x5000);
    let lent = h.cast_as::<PyList>(&types, &a_list()).unwrap();
    assert_eq!(lent.get().as_ptr(), 0x5000);
    assert!(h.cast_as::<PyList>(&types, &a_dict()).is_err());
    assert!(h.cast_as::<PyDict>(&types, &a_dict()).is_ok());
    assert!(h.cast_as::<PyModule>(&types, &a_dict()).is_err());
    assert!(h.cast_as::<PyType>(&types, &a_dict()).is_err());
    assert!(h.cast_as::<PyObject>(&types, &a_dict()).is_ok());
    assert!(h.cast_as::<KeyError>(&types, &a_key_error()).is_ok());
    assert!(h.cast_as::<UnicodeDecodeError>(&types, &a_key_error()).is_err());
    let unchecked = h.unchecked_cast_as::<PyDict>();
    assert_eq!(unchecked.get().as_ptr(), 0x5000);
    assert_eq!(h.as_ptr(), 0x5000);
}

#[test]
fn type_objects_answer_subtype_and_instance() {
    let types = static_types();
    let py = Python::assume_gil_acquired();
    let mut calls = Vec::new();
    let lookup = LookupError::type_object(py, &types, &mut calls);
    let key = KeyError::type_object(py, &types, &mut calls);
    let list = PyList::type_object(py, &types, &mut calls);
    assert_eq!(lookup.as_type_ptr(), exc_type(2));
    assert_eq!(key.as_type_ptr(), exc_type(11));
    assert_eq!(list.as_type_ptr(), LIST);
    assert_eq!(PyModule::type_object(py, &types, &mut calls).as_type_ptr(), MODULE);
    assert_eq!(PyDict::type_object(py, &types, &mut calls).as_type_ptr(), DICT);
    assert_eq!(PyType::type_object(py, &types, &mut calls).as_type_ptr(), TYPE);
    assert_eq!(calls.len(), 6);
    assert_eq!(calls[0], Call::IncRef { ob: exc_type(2) });

    let key_error = a_key_error();
    assert!(key.is_subtype_of(&lookup, &key_error.ob_type));
    assert!(key.is_subtype_of(&key, &key_error.ob_type));
    let bare = ffi::PyTypeObject { addr: LIST, tp_flags: 0, tp_mro: vec![] };
    assert!(list.is_subtype_of(&list, &bare));
    assert!(!list.is_subtype_of(&key, &bare));
    assert!(!key.is_subtype_of(&list, &key_error.ob_type));
    let obj = PyObject::from_owned_ptr(py, 0x6000);
    assert!(lookup.is_instance(&obj, &key_error));
    assert!(key.is_instance(&obj, &key_error));
    assert!(!list.is_instance(&obj, &key_error));
    let _py: Python = key.python();
}
