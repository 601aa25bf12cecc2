//! The runtime as the binding sees it.
//!
//! The binding never touches the interpreter's memory. What it reads of an
//! object (its reference count, its type, the type's flags and ancestry) it is
//! handed as plain values, in the structs of this module; where the interpreter
//! has a static type object, the binding has its address in [`StaticTypes`]; and
//! what it wants done to an object it states as a [`Call`], which the embedding
//! carries out.
use vstd::prelude::*;

verus! {

/// The interpreter's signed size type.
pub type Py_ssize_t = isize;

/// Set in `tp_flags` of `list` and of every type derived from it.
pub const Py_TPFLAGS_LIST_SUBCLASS: u64 = 0x0200_0000;

/// Set in `tp_flags` of `str` and of every type derived from it.
pub const Py_TPFLAGS_UNICODE_SUBCLASS: u64 = 0x1000_0000;

/// Set in `tp_flags` of `dict` and of every type derived from it.
pub const Py_TPFLAGS_DICT_SUBCLASS: u64 = 0x2000_0000;

/// Set in `tp_flags` of `type` and of every type derived from it.
pub const Py_TPFLAGS_TYPE_SUBCLASS: u64 = 0x8000_0000;

/// Number of the kinds of exception that the binding names.
pub const PyExc_COUNT: usize = 29;

/// What the binding reads of a type object.
#[derive(Debug)]
pub struct PyTypeObject {
    /// Where the type object lives; two types are the same type when this is equal.
    pub addr: usize,
    /// The type's feature flags.
    pub tp_flags: u64,
    /// The addresses of the type's ancestors in method resolution order, the
    /// type itself first.
    pub tp_mro: Vec<usize>,
}

/// What the binding reads of an object: the head that every object starts with.
#[derive(Debug)]
pub struct PyObject {
    /// How many references to the object are held.
    pub ob_refcnt: Py_ssize_t,
    /// The object's type.
    pub ob_type: PyTypeObject,
}

/// Where the interpreter keeps the type objects that the binding names: the
/// address of each. None of them is null, and there is one for each kind of
/// exception.
#[derive(Debug)]
pub struct StaticTypes {
    object: usize,
    type_: usize,
    list: usize,
    dict: usize,
    module: usize,
    unicode: usize,
    exceptions: Vec<usize>,
}

/// Whether these addresses are a full set of type objects: none is null, and
/// `PyExc` has an address for each kind of exception.
pub open spec fn all_there(
    PyBaseObject_Type: usize,
    PyType_Type: usize,
    PyList_Type: usize,
    PyDict_Type: usize,
    PyModule_Type: usize,
    PyUnicode_Type: usize,
    PyExc: Seq<usize>,
) -> bool {
    &&& PyBaseObject_Type != 0
    &&& PyType_Type != 0
    &&& PyList_Type != 0
    &&& PyDict_Type != 0
    &&& PyModule_Type != 0
    &&& PyUnicode_Type != 0
    &&& PyExc.len() == PyExc_COUNT
    &&& forall|k: int| 0 <= k < PyExc.len() ==> PyExc[k] != 0
}

impl StaticTypes {
    #[verifier::type_invariant]
    spec fn inv(self) -> bool {
        all_there(
            self.object,
            self.type_,
            self.list,
            self.dict,
            self.module,
            self.unicode,
            self.exceptions@,
        )
    }

    /// The address of `object`.
    pub closed spec fn spec_PyBaseObject_Type(&self) -> usize {
        self.object
    }

    /// The address of `type`.
    pub closed spec fn spec_PyType_Type(&self) -> usize {
        self.type_
    }

    /// The address of `list`.
    pub closed spec fn spec_PyList_Type(&self) -> usize {
        self.list
    }

    /// The address of `dict`.
    pub closed spec fn spec_PyDict_Type(&self) -> usize {
        self.dict
    }

    /// The address of `module`.
    pub closed spec fn spec_PyModule_Type(&self) -> usize {
        self.module
    }

    /// The address of `str`.
    pub closed spec fn spec_PyUnicode_Type(&self) -> usize {
        self.unicode
    }

    /// The address of the exception type of the kind `kind`, one of the
    /// constants of `objects::exc`.
    pub closed spec fn spec_PyExc(&self, kind: usize) -> usize
        recommends
            kind < PyExc_COUNT,
    {
        self.exceptions@[kind as int]
    }

    /// The table of these addresses, `PyExc` holding the exception types in the
    /// order of their kinds; none where a type object is missing.
    pub fn new(
        PyBaseObject_Type: usize,
        PyType_Type: usize,
        PyList_Type: usize,
        PyDict_Type: usize,
        PyModule_Type: usize,
        PyUnicode_Type: usize,
        PyExc: Vec<usize>,
    ) -> (r: Option<StaticTypes>)
        ensures
            r is Some <==> all_there(
                PyBaseObject_Type,
                PyType_Type,
                PyList_Type,
                PyDict_Type,
                PyModule_Type,
                PyUnicode_Type,
                PyExc@,
            ),
            r matches Some(t) ==> {
                &&& t.PyBaseObject_Type() == PyBaseObject_Type
                &&& t.PyType_Type() == PyType_Type
                &&& t.PyList_Type() == PyList_Type
                &&& t.PyDict_Type() == PyDict_Type
                &&& t.PyModule_Type() == PyModule_Type
                &&& t.PyUnicode_Type() == PyUnicode_Type
                &&& forall|k: usize| k < PyExc_COUNT ==> #[trigger] t.PyExc(k) == PyExc@[k as int]
            },
    {
        if PyBaseObject_Type == 0 || PyType_Type == 0 || PyList_Type == 0 || PyDict_Type == 0
            || PyModule_Type == 0 || PyUnicode_Type == 0 || PyExc.len() != PyExc_COUNT {
            return None;
        }
        let mut k: usize = 0;
        while k < PyExc.len()
            invariant
                k <= PyExc@.len(),
                forall|j: int| 0 <= j < k ==> PyExc@[j] != 0,
            decreases PyExc@.len() - k,
        {
            if PyExc[k] == 0 {
                return None;
            }
            k += 1;
        }
        Some(
            StaticTypes {
                object: PyBaseObject_Type,
                type_: PyType_Type,
                list: PyList_Type,
                dict: PyDict_Type,
                module: PyModule_Type,
                unicode: PyUnicode_Type,
                exceptions: PyExc,
            },
        )
    }

    /// The address of `object`.
    #[verifier::when_used_as_spec(spec_PyBaseObject_Type)]
    pub fn PyBaseObject_Type(&self) -> (r: usize)
        ensures
            r == self.PyBaseObject_Type(),
            r != 0,
    {
        proof {
            use_type_invariant(self);
        }
        self.object
    }

    /// The address of `type`.
    #[verifier::when_used_as_spec(spec_PyType_Type)]
    pub fn PyType_Type(&self) -> (r: usize)
        ensures
            r == self.PyType_Type(),
            r != 0,
    {
        proof {
            use_type_invariant(self);
        }
        self.type_
    }

    /// The address of `list`.
    #[verifier::when_used_as_spec(spec_PyList_Type)]
    pub fn PyList_Type(&self) -> (r: usize)
        ensures
            r == self.PyList_Type(),
            r != 0,
    {
        proof {
            use_type_invariant(self);
        }
        self.list
    }

    /// The address of `dict`.
    #[verifier::when_used_as_spec(spec_PyDict_Type)]
    pub fn PyDict_Type(&self) -> (r: usize)
        ensures
            r == self.PyDict_Type(),
            r != 0,
    {
        proof {
            use_type_invariant(self);
        }
        self.dict
    }

    /// The address of `module`.
    #[verifier::when_used_as_spec(spec_PyModule_Type)]
    pub fn PyModule_Type(&self) -> (r: usize)
        ensures
            r == self.PyModule_Type(),
            r != 0,
    {
        proof {
            use_type_invariant(self);
        }
        self.module
    }

    /// The address of `str`.
    #[verifier::when_used_as_spec(spec_PyUnicode_Type)]
    pub fn PyUnicode_Type(&self) -> (r: usize)
        ensures
            r == self.PyUnicode_Type(),
            r != 0,
    {
        proof {
            use_type_invariant(self);
        }
        self.unicode
    }

    /// The address of the exception type of the kind `kind`, one of the
    /// constants of `objects::exc`.
    #[verifier::when_used_as_spec(spec_PyExc)]
    pub fn PyExc(&self, kind: usize) -> (r: usize)
        requires
            kind < PyExc_COUNT,
        ensures
            r == self.PyExc(kind),
            r != 0,
    {
        proof {
            use_type_invariant(self);
        }
        self.exceptions[kind]
    }
}

/// Whether `flags` has one of the bits of `feature`.
pub open spec fn has_feature(flags: u64, feature: u64) -> bool {
    flags & feature != 0
}

/// Whether the type `a` is a subtype of the type at `b`: it is that type, or
/// `b` is among its ancestors.
pub open spec fn is_subtype(a: PyTypeObject, b: usize) -> bool {
    a.addr == b || a.tp_mro@.contains(b)
}

/// Whether an object of type `ty` passes the type check against the type at
/// `tp`: its type is a subtype of it.
pub open spec fn type_check(ty: PyTypeObject, tp: usize) -> bool {
    is_subtype(ty, tp)
}

/// The number a C predicate returns for `b`.
pub open spec fn c_bool(b: bool) -> i32 {
    if b {
        1
    } else {
        0
    }
}

/// The object's reference count.
pub fn Py_REFCNT(ob: &PyObject) -> (r: Py_ssize_t)
    ensures
        r == ob.ob_refcnt,
{
    ob.ob_refcnt
}

/// The object's type.
pub fn Py_TYPE(ob: &PyObject) -> (r: &PyTypeObject)
    ensures
        *r == ob.ob_type,
{
    &ob.ob_type
}

/// 1 when the type has one of the flags in `f`, else 0.
pub fn PyType_HasFeature(t: &PyTypeObject, f: u64) -> (r: i32)
    ensures
        r == c_bool(has_feature(t.tp_flags, f)),
{
    if t.tp_flags & f != 0 {
        1
    } else {
        0
    }
}

/// The flag test by which the interpreter recognises the built-in families:
/// 1 when the type has the family's flag `f`, else 0.
pub fn PyType_FastSubclass(t: &PyTypeObject, f: u64) -> (r: i32)
    ensures
        r == c_bool(has_feature(t.tp_flags, f)),
{
    PyType_HasFeature(t, f)
}

/// 1 when `a` is the type at `b` or `b` is among the ancestors of `a`, else 0.
pub fn PyType_IsSubtype(a: &PyTypeObject, b: usize) -> (r: i32)
    ensures
        r == c_bool(is_subtype(*a, b)),
{
    if a.addr == b {
        return 1;
    }
    let mut i: usize = 0;
    while i < a.tp_mro.len()
        invariant
            i <= a.tp_mro@.len(),
            a.addr != b,
            forall|j: int| 0 <= j < i ==> a.tp_mro@[j] != b,
        decreases a.tp_mro@.len() - i,
    {
        if a.tp_mro[i] == b {
            return 1;
        }
        i += 1;
    }
    0
}

/// 1 when the object's type is the type at `tp` or a subtype of it, else 0.
/// The subtype walk is made only where the two addresses differ.
pub fn PyObject_TypeCheck(ob: &PyObject, tp: usize) -> (r: i32)
    ensures
        r == c_bool(type_check(ob.ob_type, tp)),
{
    if Py_TYPE(ob).addr == tp || PyType_IsSubtype(Py_TYPE(ob), tp) != 0 {
        1
    } else {
        0
    }
}

/// 1 when the object is a `str` or of a type derived from it, else 0.
pub fn PyUnicode_Check(op: &PyObject) -> (r: i32)
    ensures
        r == c_bool(has_feature(op.ob_type.tp_flags, Py_TPFLAGS_UNICODE_SUBCLASS)),
{
    PyType_FastSubclass(Py_TYPE(op), Py_TPFLAGS_UNICODE_SUBCLASS)
}

/// 1 when the object's type is `str` itself, else 0.
pub fn PyUnicode_CheckExact(op: &PyObject, types: &StaticTypes) -> (r: i32)
    ensures
        r == c_bool(op.ob_type.addr == types.PyUnicode_Type()),
{
    if Py_TYPE(op).addr == types.PyUnicode_Type() {
        1
    } else {
        0
    }
}

/// 1 when the object is a `list` or of a type derived from it, else 0.
pub fn PyList_Check(op: &PyObject) -> (r: i32)
    ensures
        r == c_bool(has_feature(op.ob_type.tp_flags, Py_TPFLAGS_LIST_SUBCLASS)),
{
    PyType_FastSubclass(Py_TYPE(op), Py_TPFLAGS_LIST_SUBCLASS)
}

/// 1 when the object is a `dict` or of a type derived from it, else 0.
pub fn PyDict_Check(op: &PyObject) -> (r: i32)
    ensures
        r == c_bool(has_feature(op.ob_type.tp_flags, Py_TPFLAGS_DICT_SUBCLASS)),
{
    PyType_FastSubclass(Py_TYPE(op), Py_TPFLAGS_DICT_SUBCLASS)
}

/// 1 when the object is a type object, else 0.
pub fn PyType_Check(op: &PyObject) -> (r: i32)
    ensures
        r == c_bool(has_feature(op.ob_type.tp_flags, Py_TPFLAGS_TYPE_SUBCLASS)),
{
    PyType_FastSubclass(Py_TYPE(op), Py_TPFLAGS_TYPE_SUBCLASS)
}

/// 1 when the object is a module or of a type derived from `module`, else 0.
pub fn PyModule_Check(op: &PyObject, types: &StaticTypes) -> (r: i32)
    ensures
        r == c_bool(type_check(op.ob_type, types.PyModule_Type())),
{
    PyObject_TypeCheck(op, types.PyModule_Type())
}

/// Something the binding asks of the interpreter. The embedding makes the
/// calls in the order in which the binding wrote them down, and turns host
/// integers and text into the interpreter's as it does.
#[derive(Debug, PartialEq, Eq)]
pub enum Call {
    /// Take one more reference to the object.
    IncRef { ob: usize },
    /// Give up one reference to the object.
    DecRef { ob: usize },
    /// Make a list of `len` slots, each of them empty. Answered by a new
    /// reference, or by null.
    ListNew { len: usize },
    /// Put `item` at `index` of the list. The list takes over the caller's
    /// reference to `item` and gives up its reference to what was there.
    ListSetItem { list: usize, index: usize, item: usize },
    /// Insert `item` before `index` of the list. The list takes a reference of
    /// its own.
    ListInsert { list: usize, index: usize, item: usize },
    /// Bind `key` to `value` in the dictionary, which takes a reference of its
    /// own to `value`. Answered by a status: -1 when it failed.
    DictSetItem { dict: usize, key: String, value: usize },
    /// Look up the attribute `name` of the object. Answered by a new reference,
    /// or by null.
    GetAttr { ob: usize, name: String },
    /// Make a module named `name`. Answered by a new reference, or by null.
    ModuleNew { name: String },
    /// Import the module named `name`. Answered by a new reference, or by null.
    ImportModule { name: String },
    /// Make a `UnicodeDecodeError` that says that the bytes from `start` up to
    /// `end` of `input` could not be decoded as `encoding`, for `reason`.
    /// Answered by a new reference, or by null.
    UnicodeDecodeErrorCreate {
        encoding: String,
        input: Vec<u8>,
        start: usize,
        end: usize,
        reason: String,
    },
}

/// What the `IncRef` and `DecRef` calls among `calls` make of the reference
/// count of `ob`, if it was `before`: each `IncRef` of `ob` adds one, each
/// `DecRef` of `ob` takes one away. The other calls are not counted here: what
/// they do to a count is the interpreter's own bookkeeping (a list that is
/// handed a reference to an item keeps the item's count as it is).
pub open spec fn refcnt_after(calls: Seq<Call>, ob: usize, before: int) -> int
    decreases calls.len(),
{
    if calls.len() == 0 {
        before
    } else {
        let rest = refcnt_after(calls.drop_last(), ob, before);
        match calls.last() {
            Call::IncRef { ob: o } => if o == ob {
                rest + 1
            } else {
                rest
            },
            Call::DecRef { ob: o } => if o == ob {
                rest - 1
            } else {
                rest
            },
            _ => rest,
        }
    }
}

/// What a list holds that `ListNew` has made with `len` slots: a null in each.
pub open spec fn new_list(len: usize) -> Seq<usize> {
    Seq::new(len as nat, |i: int| 0usize)
}

/// What the list at `list` holds after the embedding has made `calls`, if it
/// held `before`: the addresses of its items, in order. An item is put at an
/// index that the list has, and nowhere else; an item is inserted before an
/// index that the list has, or after the last item.
pub open spec fn list_after(calls: Seq<Call>, list: usize, before: Seq<usize>) -> Seq<usize>
    decreases calls.len(),
{
    if calls.len() == 0 {
        before
    } else {
        let rest = list_after(calls.drop_last(), list, before);
        match calls.last() {
            Call::ListSetItem { list: l, index, item } => if l == list && index < rest.len() {
                rest.update(index as int, item)
            } else {
                rest
            },
            Call::ListInsert { list: l, index, item } => if l != list {
                rest
            } else if index <= rest.len() {
                rest.insert(index as int, item)
            } else {
                rest.push(item)
            },
            _ => rest,
        }
    }
}

} // verus!
