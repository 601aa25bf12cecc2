use std::collections::HashMap;

use cpython::err::{error_on_minusone, result_cast_from_owned_ptr, result_from_owned_ptr, PyErr};
use cpython::ffi::{self, Call, StaticTypes};
use cpython::objects::exc::UnicodeDecodeError;
use cpython::objects::module::PyModule;
use cpython::objects::object::PyObject;
use cpython::python::{Python, PythonObject, ToPythonPointer};

fn static_types() -> StaticTypes {
    let exceptions = (0..29).map(|k| 0x2000 + 16 * k).collect();
    StaticTypes::new(0x1000, 0x1010, 0x1020, 0x1030, 0x1040, 0x1050, exceptions).unwrap()
}

/// Whether the failure is a `TypeError` without a value.
fn is_type_error(e: &PyErr) -> bool {
    matches!(e, PyErr::Raised { ptype, pvalue: None, ptraceback: None } if ptype.as_ptr() == 0x2000 + 16 * 23)
}

fn a_module() -> ffi::PyObject {
    ffi::PyObject {
        ob_refcnt: 1,
        ob_type: ffi::PyTypeObject { addr: 0x1040, tp_flags: 0, tp_mro: vec![0x1040, 0x1000] },
    }
}

fn a_list() -> ffi::PyObject {
    ffi::PyObject {
        ob_refcnt: 1,
        ob_type: ffi::PyTypeObject {
            addr: 0x1020,
            tp_flags: ffi::Py_TPFLAGS_LIST_SUBCLASS,
            tp_mro: vec![0x1020, 0x1000],
        },
    }
}

/// A stand-in for the interpreter: modules with a name and a namespace.
struct Heap {
    counts: HashMap<usize, isize>,
    names: HashMap<usize, Vec<u8>>,
    dict_of: HashMap<usize, usize>,
    dicts: HashMap<usize, HashMap<String, usize>>,
    next: usize,
}

impl Heap {
    fn new() -> Heap {
        Heap {
            counts: HashMap::new(),
            names: HashMap::new(),
            dict_of: HashMap::new(),
            dicts: HashMap::new(),
            next: 0xa000,
        }
    }

    fn fresh(&mut self) -> usize {
        self.next += 0x10;
        self.counts.insert(self.next, 1);
        self.next
    }

    /// Makes the call and gives its answer: an address, or a status.
    fn perform(&mut self, call: &Call) -> isize {
        match call {
            Call::IncRef { ob } => {
                *self.counts.get_mut(ob).unwrap() += 1;
                0
            }
            Call::DecRef { ob } => {
                *self.counts.get_mut(ob).unwrap() -= 1;
                0
            }
            Call::ModuleNew { name } => {
                let module = self.fresh();
                let dict = self.fresh();
                self.names.insert(module, name.as_bytes().to_vec());
                self.dict_of.insert(module, dict);
                self.dicts.insert(dict, HashMap::new());
                module as isize
            }
            Call::DictSetItem { dict, key, value } => {
                self.dicts.get_mut(dict).unwrap().insert(key.clone(), *value);
                *self.counts.get_mut(value).unwrap() += 1;
                0
            }
            Call::GetAttr { ob, name } => match self.dicts[&self.dict_of[ob]].get(name) {
                Some(value) => {
                    *self.counts.get_mut(value).unwrap() += 1;
                    *value as isize
                }
                None => 0,
            },
            other => panic!("no module call: {:?}", other),
        }
    }
}

#[test]
fn new_module_is_named_as_asked() {
    let types = static_types();
    let py = Python::assume_gil_acquired();
    let mut heap = Heap::new();
    let mut calls = Vec::new();

    let call = PyModule::new(py, "foo");
    assert_eq!(call, Call::ModuleNew { name: "foo".to_string() });
    let reply = heap.perform(&call) as usize;
    let module = result_cast_from_owned_ptr::<PyModule>(py, &types, reply, &a_module(), &mut calls).unwrap();
    assert_eq!(module.as_ptr(), reply);
    assert!(calls.is_empty());

    let name = heap.names[&reply].clone();
    assert_eq!(module.name(Some(&name)).unwrap(), "foo");
}

#[test]
fn added_member_is_found_again_by_identity() {
    let types = static_types();
    let py = Python::assume_gil_acquired();
    let mut heap = Heap::new();
    let mut calls = Vec::new();
    let reply = heap.perform(&PyModule::new(py, "foo")) as usize;
    let module = result_cast_from_owned_ptr::<PyModule>(py, &types, reply, &a_module(), &mut calls).unwrap();

    let v = heap.fresh();
    let value = PyObject::from_owned_ptr(py, v);
    let kept = value.clone(&mut calls);
    let dict = heap.dict_of[&reply];
    module.add("x", value, dict, &mut calls);
    assert_eq!(
        calls,
        vec![
            Call::IncRef { ob: v },
            Call::DictSetItem { dict, key: "x".to_string(), value: v },
            Call::DecRef { ob: v },
        ]
    );
    let mut status = 0;
    for call in calls.drain(..) {
        let answer = heap.perform(&call);
        if matches!(call, Call::DictSetItem { .. }) {
            status = answer as i32;
        }
    }
    assert!(error_on_minusone(py, status).is_ok());
    assert_eq!(heap.counts[&dict], 1);
    assert_eq!(heap.counts[&v], 2);

    let ask = module.get("x");
    assert_eq!(ask, Call::GetAttr { ob: reply, name: "x".to_string() });
    let found = result_from_owned_ptr(py, heap.perform(&ask) as usize).unwrap();
    assert!(found == kept);
    assert_eq!(heap.counts[&v], 3);

    let missing = module.get("y");
    let none = result_from_owned_ptr(py, heap.perform(&missing) as usize);
    assert!(matches!(none, Err(PyErr::Pending(_))));
}

#[test]
fn import_asks_for_the_module_by_name() {
    let types = static_types();
    let py = Python::assume_gil_acquired();
    assert_eq!(PyModule::import(py, "os.path"), Call::ImportModule { name: "os.path".to_string() });
    let mut calls = Vec::new();
    let failed = result_cast_from_owned_ptr::<PyModule>(py, &types, 0, &a_module(), &mut calls);
    assert!(matches!(failed, Err(PyErr::Pending(_))));
    let no_module = result_cast_from_owned_ptr::<PyModule>(py, &types, 0xa000, &a_list(), &mut calls);
    assert!(is_type_error(&no_module.unwrap_err()));
    assert_eq!(calls, vec![Call::DecRef { ob: 0xa000 }, Call::IncRef { ob: 0x2000 + 16 * 23 }]);
}

#[test]
fn dict_is_lent_and_changes_no_count() {
    let py = Python::assume_gil_acquired();
    let mut heap = Heap::new();
    let reply = heap.perform(&PyModule::new(py, "foo")) as usize;
    let module = PyObject::from_owned_ptr(py, reply).unchecked_cast_into::<PyModule>();
    let at = heap.dict_of[&reply];
    let before = heap.counts[&at];
    {
        // the view takes no journal: there is nothing for the interpreter to do
        let dict = module.dict(at);
        assert_eq!(dict.get().as_ptr(), at);
    }
    assert_eq!(heap.counts[&at], before);
    // it is the namespace of the module: what is set through it, the module finds
    let v = heap.fresh();
    let dict = module.dict(at);
    let set = Call::DictSetItem { dict: dict.get().as_ptr(), key: "x".to_string(), value: v };
    assert_eq!(heap.perform(&set), 0);
    assert_eq!(heap.perform(&module.get("x")) as usize, v);
    assert_eq!(heap.counts[&at], before);
}

#[test]
fn name_without_an_answer_is_the_pending_error() {
    let types = static_types();
    let py = Python::assume_gil_acquired();
    let module = PyObject::from_owned_ptr(py, 0xa000).unchecked_cast_into::<PyModule>();
    assert!(matches!(module.name(None), Err(PyErr::Pending(_))));
    assert!(matches!(module.filename(None), Err(PyErr::Pending(_))));
    assert!(matches!(module.str_from_ptr(None), Err(PyErr::Pending(_))));
}

#[test]
fn name_is_decoded_as_utf8() {
    let types = static_types();
    let py = Python::assume_gil_acquired();
    let module = PyObject::from_owned_ptr(py, 0xa000).unchecked_cast_into::<PyModule>();
    assert_eq!(module.name(Some(b"")).unwrap(), "");
    assert_eq!(module.filename(Some(b"/usr/lib/foo.py")).unwrap(), "/usr/lib/foo.py");
    assert_eq!(module.str_from_ptr(Some("gr\u{fc}n".as_bytes())).unwrap(), "gr\u{fc}n");
    assert_eq!(module.name(Some(&[0xe2, 0x82, 0xac])).unwrap(), "\u{20ac}");
}

fn decode_failure(bytes: &[u8]) -> Call {
    let types = static_types();
    let py = Python::assume_gil_acquired();
    let module = PyObject::from_owned_ptr(py, 0xa000).unchecked_cast_into::<PyModule>();
    let r = match module.name(Some(bytes)) {
        Err(PyErr::Decode(_, call)) => call,
        other => panic!("no decode failure: {:?}", other),
    };
    r
}

fn decode_error(input: &[u8], start: usize) -> Call {
    Call::UnicodeDecodeErrorCreate {
        encoding: "utf-8".to_string(),
        input: input.to_vec(),
        start,
        end: input.len(),
        reason: "invalid utf-8".to_string(),
    }
}

#[test]
fn decode_failure_starts_where_the_valid_text_ends() {
    assert_eq!(decode_failure(b"ab\xffcd"), decode_error(b"ab\xffcd", 2));
    assert_eq!(decode_failure(b"\xff"), decode_error(b"\xff", 0));
    assert_eq!(decode_failure(b"abc\x80"), decode_error(b"abc\x80", 3));
    // a character that is cut off
    assert_eq!(decode_failure(b"a\xe2\x82"), decode_error(b"a\xe2\x82", 1));
    // valid text of more than one byte to a character before the fault
    assert_eq!(decode_failure(b"\xe2\x82\xac\xc0\xaf"), decode_error(b"\xe2\x82\xac\xc0\xaf", 3));
    // a surrogate
    assert_eq!(decode_failure(b"xy\xed\xa0\x80"), decode_error(b"xy\xed\xa0\x80", 2));
}

#[test]
fn decode_error_packs_encoding_range_and_reason() {
    let types = static_types();
    let py = Python::assume_gil_acquired();
    let call = UnicodeDecodeError::new(py, "ascii", b"caf\xe9", 3..4, "ordinal not in range(128)");
    assert_eq!(
        call,
        Call::UnicodeDecodeErrorCreate {
            encoding: "ascii".to_string(),
            input: b"caf\xe9".to_vec(),
            start: 3,
            end: 4,
            reason: "ordinal not in range(128)".to_string(),
        }
    );
    let err = std::str::from_utf8(b"caf\xe9").unwrap_err();
    assert_eq!(UnicodeDecodeError::new_utf8(py, b"caf\xe9", err), decode_error(b"caf\xe9", 3));

    // the answer to the call is the exception, or the interpreter's failure
    let exc = ffi::PyObject {
        ob_refcnt: 1,
        ob_type: ffi::PyTypeObject {
            addr: 0x2000 + 16 * 26,
            tp_flags: 0x4000_0000,
            tp_mro: vec![0x2000 + 16 * 26, 0x2000 + 16 * 24, 0x2010, 0x2000, 0x1000],
        },
    };
    let mut calls = Vec::new();
    let made = result_cast_from_owned_ptr::<UnicodeDecodeError>(py, &types, 0xb000, &exc, &mut calls).unwrap();
    assert_eq!(made.as_ptr(), 0xb000);
    let raised = PyErr::new(made, &exc, &mut calls);
    assert!(matches!(
        raised,
        PyErr::Raised { ref ptype, pvalue: Some(ref value), ptraceback: None }
            if ptype.as_ptr() == 0x2000 + 16 * 26 && value.as_ptr() == 0xb000
    ));
    assert_eq!(calls, vec![Call::IncRef { ob: 0x2000 + 16 * 26 }]);
    let failed = result_cast_from_owned_ptr::<UnicodeDecodeError>(py, &types, 0, &exc, &mut calls);
    assert!(matches!(failed, Err(PyErr::Pending(_))));
}

#[test]
fn answer_to_a_decode_request_is_the_raised_exception() {
    let types = static_types();
    let py = Python::assume_gil_acquired();
    let decode_error = 0x2000 + 16 * 26;
    let exc = ffi::PyObject {
        ob_refcnt: 1,
        ob_type: ffi::PyTypeObject {
            addr: decode_error,
            tp_flags: 0x4000_0000,
            tp_mro: vec![decode_error, 0x2000 + 16 * 24, 0x2010, 0x2000, 0x1000],
        },
    };
    let mut calls = Vec::new();
    let raised = PyErr::from_decode_answer(py, &types, 0xb000, &exc, &mut calls);
    assert!(matches!(
        raised,
        PyErr::Raised { ref ptype, pvalue: Some(ref value), ptraceback: None }
            if ptype.as_ptr() == decode_error && value.as_ptr() == 0xb000
    ));
    assert_eq!(calls, vec![Call::IncRef { ob: decode_error }]);

    // a subclass is raised as what it is
    let sub = ffi::PyObject {
        ob_refcnt: 1,
        ob_type: ffi::PyTypeObject {
            addr: 0x9300,
            tp_flags: 0x4000_0000,
            tp_mro: vec![0x9300, decode_error, 0x2000, 0x1000],
        },
    };
    calls.clear();
    let raised = PyErr::from_decode_answer(py, &types, 0xb010, &sub, &mut calls);
    assert!(matches!(
        raised,
        PyErr::Raised { ref ptype, pvalue: Some(ref value), ptraceback: None }
            if ptype.as_ptr() == 0x9300 && value.as_ptr() == 0xb010
    ));
    assert_eq!(calls, vec![Call::IncRef { ob: 0x9300 }]);

    calls.clear();
    let null = PyErr::from_decode_answer(py, &types, 0, &exc, &mut calls);
    assert!(matches!(null, PyErr::Pending(_)));
    assert!(calls.is_empty());

    let other = PyErr::from_decode_answer(py, &types, 0xb020, &a_list(), &mut calls);
    assert!(is_type_error(&other));
    assert_eq!(calls, vec![Call::DecRef { ob: 0xb020 }, Call::IncRef { ob: 0x2000 + 16 * 23 }]);
}

#[test]
fn init_runs_on_the_new_module() {
    let types = static_types();
    let py = Python::assume_gil_acquired();
    let mut calls = Vec::new();
    let made = PyModule::_init(py, &types, 0xa000, &a_module(), |_py, m: &PyModule| {
        assert_eq!(m.as_ptr(), 0xa000);
        Ok(())
    }, &mut calls);
    assert_eq!(made.unwrap().as_ptr(), 0xa000);
    assert!(calls.is_empty());
}

#[test]
fn init_that_fails_gives_up_the_module() {
    let types = static_types();
    let py = Python::assume_gil_acquired();
    let mut calls = Vec::new();
    let made = PyModule::_init(py, &types, 0xa000, &a_module(), |py, _m: &PyModule| Err(PyErr::fetch(py)), &mut calls);
    assert!(matches!(made, Err(PyErr::Pending(_))));
    assert_eq!(calls, vec![Call::DecRef { ob: 0xa000 }]);

    calls.clear();
    let null = PyModule::_init(py, &types, 0, &a_module(), |_py, _m: &PyModule| Ok(()), &mut calls);
    assert!(matches!(null, Err(PyErr::Pending(_))));
    assert!(calls.is_empty());
    let other = PyModule::_init(py, &types, 0xa000, &a_list(), |_py, _m: &PyModule| Ok(()), &mut calls);
    assert!(is_type_error(&other.unwrap_err()));
    assert_eq!(calls, vec![Call::DecRef { ob: 0xa000 }, Call::IncRef { ob: 0x2000 + 16 * 23 }]);

    let module = PyObject::from_owned_ptr(py, 0xa000).unchecked_cast_into::<PyModule>();
    calls.clear();
    let kept = PyModule::init_result(module, Ok(()), &mut calls);
    assert_eq!(kept.unwrap().into_object().as_ptr(), 0xa000);
    assert!(calls.is_empty());
}
