//! The wrapper of lists.
use vstd::prelude::*;
use crate::err::{is_raised, PyErr, PyResult};
use crate::ffi;
use crate::ffi::{list_after, new_list, refcnt_after, Call, Py_ssize_t, StaticTypes};
use crate::python::{
    Borrowed, Python, PythonObject, PythonObjectDowncastError, PythonObjectWithCheckedDowncast,
    PythonObjectWithTypeObject, ToPythonPointer,
};
use crate::objects::exc::PyExc_TypeError;
use crate::objects::object::PyObject;
use crate::objects::typeobject::PyType;

verus! {

/// An owned handle to a list.
#[derive(Debug)]
pub struct PyList<'p>(PyObject<'p>);

/// The addresses of the objects that the handles stand for, in order.
pub open spec fn ptrs<'p>(elements: Seq<PyObject<'p>>) -> Seq<usize> {
    elements.map_values(|e: PyObject<'p>| e.ptr())
}

/// The calls that fill the new list at `list` with `items`: for each item in
/// turn, one more reference is taken to it and handed to the list, which puts
/// it at the item's index.
pub open spec fn fill_calls(list: usize, items: Seq<usize>) -> Seq<Call> {
    Seq::new(
        2 * items.len(),
        |k: int|
            if k % 2 == 0 {
                Call::IncRef { ob: items[k / 2] }
            } else {
                Call::ListSetItem { list, index: (k / 2) as usize, item: items[k / 2] }
            },
    )
}

/// The calls that hand `items` to the new list at `list`, which puts each at
/// its index. No reference is taken: the list gets the one that came with the
/// item.
pub open spec fn store_calls(list: usize, items: Seq<usize>) -> Seq<Call> {
    Seq::new(
        items.len(),
        |k: int| Call::ListSetItem { list, index: k as usize, item: items[k] },
    )
}

/// The calls that a walk over `items` makes: for each item in turn, a
/// reference is taken for the time it is looked at, and given up after.
pub open spec fn visit_calls(items: Seq<usize>) -> Seq<Call> {
    Seq::new(
        2 * items.len(),
        |k: int|
            if k % 2 == 0 {
                Call::IncRef { ob: items[k / 2] }
            } else {
                Call::DecRef { ob: items[k / 2] }
            },
    )
}

/// While a new list is filled, the items that were handed to it are in their
/// places, and the slots after them are as they were.
proof fn lemma_fill_prefix(list: usize, items: Seq<usize>, before: Seq<usize>, n: int)
    requires
        0 <= n <= items.len(),
        items.len() == before.len(),
        items.len() <= usize::MAX,
    ensures
        list_after(fill_calls(list, items.take(n)), list, before) == items.take(n) + before.skip(n),
    decreases n,
{
    let calls = fill_calls(list, items.take(n));
    if n == 0 {
        assert(items.take(0) + before.skip(0) =~= before);
    } else {
        lemma_fill_prefix(list, items, before, n - 1);
        let taken = calls.drop_last();
        let earlier = fill_calls(list, items.take(n - 1));
        assert(taken.drop_last() =~= earlier);
        assert(taken.last() == Call::IncRef { ob: items[n - 1] });
        assert(calls.last() == Call::ListSetItem {
            list,
            index: (n - 1) as usize,
            item: items[n - 1],
        });
        let held = items.take(n - 1) + before.skip(n - 1);
        assert(list_after(taken, list, before) == held);
        assert(list_after(calls, list, before) == held.update(n - 1, items[n - 1]));
        assert(held.update(n - 1, items[n - 1]) =~= items.take(n) + before.skip(n));
    }
}

/// How often `ob` is among `items`.
pub open spec fn occurrences(items: Seq<usize>, ob: usize) -> nat
    decreases items.len(),
{
    if items.len() == 0 {
        0
    } else if items.last() == ob {
        occurrences(items.drop_last(), ob) + 1
    } else {
        occurrences(items.drop_last(), ob)
    }
}

/// Filling a new list takes one reference to an element for each place that
/// it has in the list, and no other. Those are the references that the list is
/// handed.
pub proof fn lemma_new_list_takes_a_reference_for_each_place(
    list: usize,
    items: Seq<usize>,
    ob: usize,
    before: int,
)
    ensures
        refcnt_after(fill_calls(list, items), ob, before) == before + occurrences(items, ob),
    decreases items.len(),
{
    let calls = fill_calls(list, items);
    if items.len() > 0 {
        lemma_new_list_takes_a_reference_for_each_place(list, items.drop_last(), ob, before);
        let taken = calls.drop_last();
        assert(taken.drop_last() =~= fill_calls(list, items.drop_last()));
        assert(taken.last() == Call::IncRef { ob: items.last() });
        assert(calls.last() == Call::ListSetItem {
            list,
            index: (items.len() - 1) as usize,
            item: items.last(),
        });
        assert(refcnt_after(taken, ob, before) == refcnt_after(taken.drop_last(), ob, before) + (
        if items.last() == ob {
            1int
        } else {
            0int
        }));
        assert(refcnt_after(calls, ob, before) == refcnt_after(taken, ob, before));
    }
}

/// Reading a list into host values leaves every count as it was: each
/// reference that is taken for an item is given up again.
pub proof fn lemma_visit_leaves_counts(items: Seq<usize>, ob: usize, before: int)
    ensures
        refcnt_after(visit_calls(items), ob, before) == before,
    decreases items.len(),
{
    let calls = visit_calls(items);
    if items.len() > 0 {
        lemma_visit_leaves_counts(items.drop_last(), ob, before);
        let taken = calls.drop_last();
        assert(taken.drop_last() =~= visit_calls(items.drop_last()));
        assert(taken.last() == Call::IncRef { ob: items.last() });
        assert(calls.last() == Call::DecRef { ob: items.last() });
        assert(refcnt_after(taken, ob, before) == refcnt_after(taken.drop_last(), ob, before) + (
        if items.last() == ob {
            1int
        } else {
            0int
        }));
        assert(refcnt_after(calls, ob, before) == refcnt_after(taken, ob, before) - (
        if items.last() == ob {
            1int
        } else {
            0int
        }));
    }
}

/// Looking at a list changes nothing in it: the calls that a handle to an
/// item takes and gives up its reference by leave the list as it holds.
pub proof fn lemma_reading_leaves_the_list(calls: Seq<Call>, list: usize, item: usize, held: Seq<usize>)
    ensures
        list_after(calls.push(Call::IncRef { ob: item }), list, held) == list_after(calls, list, held),
        list_after(calls.push(Call::DecRef { ob: item }), list, held) == list_after(calls, list, held),
{
    assert(calls.push(Call::IncRef { ob: item }).drop_last() =~= calls);
    assert(calls.push(Call::DecRef { ob: item }).drop_last() =~= calls);
}

/// A list that is made from host elements holds them: once the embedding has
/// made the call of [`PyList::storage_for`] and, on the list that it was
/// answered with, the calls of [`PyList::new`], the list has as many items as
/// there were elements, and at each index the object of the element that was
/// there. So [`PyList::len`] makes the number of the elements of the size
/// that the interpreter then answers with, and [`PyList::get_item`] makes a
/// handle to the element's object of the item that it answers with for an
/// index; and by [`lemma_reading_leaves_the_list`] neither changes the list.
pub proof fn lemma_new_list_holds_elements(list: usize, elements: Seq<PyObject>)
    requires
        elements.len() <= usize::MAX,
    ensures
        ({
            let slots = new_list(elements.len() as usize);
            let held = list_after(fill_calls(list, ptrs(elements)), list, slots);
            &&& held.len() == elements.len()
            &&& elements.len() <= isize::MAX ==> (held.len() as isize) as usize == elements.len()
            &&& forall|i: int| 0 <= i < elements.len() ==> held[i] == (#[trigger] elements[i]).ptr()
        }),
{
    let items = ptrs(elements);
    let slots = new_list(elements.len() as usize);
    lemma_fill_prefix(list, items, slots, items.len() as int);
    assert(items.take(items.len() as int) =~= items);
    assert(items + slots.skip(items.len() as int) =~= items);
}

impl<'p> PyList<'p> {
    /// Asks for the list that is to hold `elements`: a new list with one empty
    /// slot for each of them. The answer is the `storage` of [`PyList::new`]
    /// and of [`to_py_object`].
    pub fn storage_for<T>(py: Python<'p>, elements: &[T]) -> (r: Call)
        ensures
            r == (Call::ListNew { len: elements@.len() as usize }),
    {
        Call::ListNew { len: elements.len() }
    }

    /// The list with the given elements, built in `storage`, the answer to
    /// [`PyList::storage_for`]: the new list with an empty slot for each
    /// element. The elements stay with the caller; the list gets a reference
    /// of its own to each.
    pub fn new(py: Python<'p>, elements: &[PyObject<'p>], storage: usize, calls: &mut Vec<Call>) -> (r:
        PyList<'p>)
        requires
            storage != 0,
            forall|i: int| 0 <= i < elements@.len() ==> (#[trigger] elements@[i]).is_live(),
        ensures
            r.ptr() == storage,
            r.object().spec_python() == py,
            final(calls)@ == old(calls)@ + fill_calls(storage, ptrs(elements@)),
    {
        let ghost before = calls@;
        let ghost items = ptrs(elements@);
        let t = PyObject::from_owned_ptr(py, storage).unchecked_cast_into::<PyList>();
        proof {
            t.lemma_object_ptr();
            assert(calls@ =~= before + fill_calls(storage, items.take(0)));
        }
        let mut i: usize = 0;
        while i < elements.len()
            invariant
                i <= elements@.len(),
                items == ptrs(elements@),
                forall|j: int| 0 <= j < elements@.len() ==> (#[trigger] elements@[j]).is_live(),
                calls@ == before + fill_calls(storage, items.take(i as int)),
            decreases elements@.len() - i,
        {
            let item = elements[i].clone(calls).steal_ptr();
            calls.push(Call::ListSetItem { list: storage, index: i, item });
            proof {
                assert(calls@ =~= before + fill_calls(storage, items.take(i + 1)));
            }
            i += 1;
        }
        proof {
            assert(items.take(i as int) =~= items);
        }
        t
    }

    /// The length of the list, from the size that the interpreter answered
    /// with.
    pub fn len(&self, size: Py_ssize_t) -> (r: usize)
        ensures
            r == size as usize,
    {
        size as usize
    }

    /// A handle to the item at `index`, with a reference of its own. `len` is
    /// the length of the list, `item` the address that the interpreter
    /// answered with when asked for the item.
    pub fn get_item(&self, index: usize, len: usize, item: usize, calls: &mut Vec<Call>) -> (r:
        PyObject<'p>)
        requires
            index < len,
            item != 0,
        ensures
            r.ptr() == item,
            r.spec_python() == self.object().spec_python(),
            final(calls)@ == old(calls)@.push(Call::IncRef { ob: item }),
    {
        PyObject::from_borrowed_ptr(self.python(), item, calls)
    }

    /// Puts `item` at `index` of the list, of length `len`. The list takes
    /// over the reference that `item` held.
    pub fn set_item(&self, index: usize, item: PyObject<'p>, len: usize, calls: &mut Vec<Call>)
        requires
            index < len,
        ensures
            final(calls)@ == old(calls)@.push(
                Call::ListSetItem { list: self.ptr(), index, item: item.ptr() },
            ),
    {
        calls.push(Call::ListSetItem { list: self.as_ptr(), index, item: item.steal_ptr() });
    }

    /// Inserts `item` before `index` of the list, of length `len`. The list
    /// takes a reference of its own; the one that `item` held is given up.
    pub fn insert_item(&self, index: usize, item: PyObject<'p>, len: usize, calls: &mut Vec<Call>)
        requires
            index < len,
            item.is_live(),
        ensures
            final(calls)@ == old(calls)@.push(
                Call::ListInsert { list: self.ptr(), index, item: item.ptr() },
            ).push(Call::DecRef { ob: item.ptr() }),
    {
        calls.push(Call::ListInsert { list: self.as_ptr(), index, item: item.as_ptr() });
        let mut item = item;
        item.release(calls);
    }

    /// A second handle to the list, with a reference of its own.
    pub fn clone(&self, calls: &mut Vec<Call>) -> (r: PyList<'p>)
        requires
            self.ptr() != 0,
        ensures
            r == *self,
            final(calls)@ == old(calls)@.push(Call::IncRef { ob: self.ptr() }),
    {
        PyList(self.0.clone(calls))
    }

    /// Walks the list, which the walk takes over.
    pub fn into_iter(self) -> (r: PyListIterator<'p>)
        ensures
            r.spec_list() == self,
            r.spec_index() == 0,
    {
        PyListIterator { list: self, index: 0 }
    }

    /// Walks the list through a second handle to it.
    pub fn iter(&self, calls: &mut Vec<Call>) -> (r: PyListIterator<'p>)
        requires
            self.ptr() != 0,
        ensures
            r.spec_list() == *self,
            r.spec_index() == 0,
            final(calls)@ == old(calls)@.push(Call::IncRef { ob: self.ptr() }),
    {
        PyListIterator { list: self.clone(calls), index: 0 }
    }
}

/// A walk over a list, from the first item on. The walk does not know the
/// length of the list: it is told the length at each step, so that a list that
/// grows or shrinks meanwhile is walked to the end it then has.
#[derive(Debug)]
pub struct PyListIterator<'p> {
    list: PyList<'p>,
    index: usize,
}

/// What a step of a walk at `index` does when the list has `len` items: it
/// gives the index of the item that is next, and moves on by one; or, at or
/// past the end, gives nothing and stays.
pub open spec fn next_step(index: usize, len: usize) -> (Option<usize>, usize) {
    if index < len {
        (Some(index), (index + 1) as usize)
    } else {
        (None, index)
    }
}

/// Where a walk that began at `index` is after one step for each of `lens`,
/// the lengths that the list had at those steps.
pub open spec fn walk(index: usize, lens: Seq<usize>) -> usize
    decreases lens.len(),
{
    if lens.len() == 0 {
        index
    } else {
        next_step(walk(index, lens.drop_last()), lens.last()).1
    }
}

/// A walk whose steps all gave an item has moved on by one for each.
proof fn lemma_walk_advances(index: usize, lens: Seq<usize>, n: int)
    requires
        0 <= n <= lens.len(),
        forall|k: int| 0 <= k < n ==> next_step(walk(index, #[trigger] lens.take(k)), lens[k]).0 is Some,
    ensures
        walk(index, lens.take(n)) == index + n,
    decreases n,
{
    if n > 0 {
        lemma_walk_advances(index, lens, n - 1);
        assert(lens.take(n).drop_last() =~= lens.take(n - 1));
        assert(lens.take(n).last() == lens[n - 1]);
        assert(next_step(walk(index, lens.take(n - 1)), lens[n - 1]).0 is Some);
    }
}

/// A walk ends, whatever happens to the list meanwhile. Each step is decided
/// by the length that the list has at that step, not by the length that it had
/// when the walk began; so if the list never has more than `bound` items, then
/// among more than `bound - index` steps of a walk that began at `index` there
/// is one that found the end.
pub proof fn lemma_walk_ends(index: usize, lens: Seq<usize>, bound: usize)
    requires
        forall|k: int| 0 <= k < lens.len() ==> lens[k] <= bound,
        lens.len() > bound - index,
        lens.len() > 0,
    ensures
        exists|k: int|
            0 <= k < lens.len() && next_step(walk(index, #[trigger] lens.take(k)), lens[k]).0 is None,
{
    if forall|k: int|
        0 <= k < lens.len() ==> next_step(walk(index, #[trigger] lens.take(k)), lens[k]).0 is Some {
        let n = lens.len() as int - 1;
        lemma_walk_advances(index, lens, n);
        assert(next_step(walk(index, lens.take(n)), lens[n]).0 is Some);
        assert(false);
    }
}

/// A walk from the first item over a list that keeps its length `len` gives
/// each index below `len` once, in order, and then finds the end.
pub proof fn lemma_walk_of_a_steady_list(lens: Seq<usize>, len: usize)
    requires
        lens.len() == len + 1,
        forall|k: int| 0 <= k < lens.len() ==> lens[k] == len,
    ensures
        forall|k: int|
            0 <= k < len ==> next_step(walk(0, #[trigger] lens.take(k)), len).0 == Some(k as usize),
        next_step(walk(0, lens.take(len as int)), len).0 is None,
{
    assert forall|k: int| 0 <= k <= len implies walk(0, #[trigger] lens.take(k)) == k by {
        lemma_steady_walk_advances(lens, len, k);
    }
}

/// Below its end, a walk over a list that keeps its length is where its steps
/// have taken it.
proof fn lemma_steady_walk_advances(lens: Seq<usize>, len: usize, n: int)
    requires
        0 <= n <= len,
        lens.len() == len + 1,
        forall|k: int| 0 <= k < lens.len() ==> lens[k] == len,
    ensures
        walk(0, lens.take(n)) == n,
    decreases n,
{
    if n > 0 {
        lemma_steady_walk_advances(lens, len, n - 1);
        assert(lens.take(n).drop_last() =~= lens.take(n - 1));
        assert(lens.take(n).last() == lens[n - 1]);
    }
}

impl<'p> PyListIterator<'p> {
    /// The list that is walked.
    pub closed spec fn spec_list(&self) -> PyList<'p> {
        self.list
    }

    /// The index of the item that is next.
    pub closed spec fn spec_index(&self) -> usize {
        self.index
    }

    /// The list that is walked.
    pub fn list(&self) -> (r: &PyList<'p>)
        ensures
            *r == self.spec_list(),
    {
        &self.list
    }

    /// The index of the item that is next.
    pub fn index(&self) -> (r: usize)
        ensures
            r == self.spec_index(),
    {
        self.index
    }

    /// Moves on by one item. `len` is the length that the list has now. The
    /// result is the index of the item that is next, for
    /// [`PyList::get_item`] to make a handle of; or `None` at the end.
    pub fn next(&mut self, len: usize) -> (r: Option<usize>)
        ensures
            final(self).spec_list() == old(self).spec_list(),
            (r, final(self).spec_index()) == next_step(old(self).spec_index(), len),
    {
        if self.index < len {
            let item = self.index;
            self.index += 1;
            Some(item)
        } else {
            None
        }
    }
}

/// The list of what `convert` makes of each of the elements, built in
/// `storage`, the answer to [`PyList::storage_for`]: the new list with an empty
/// slot for each element, of which the interpreter says `op`. The list takes
/// over the reference of each converted element.
///
/// `convert` runs while this function runs; the journal is carried out after
/// it has returned. So every element is converted before the first of them is
/// put into the list, and until then each converted element is held by the
/// journal's pending `ListSetItem` alone.
pub fn to_py_object<'p, T, F>(
    elements: &[T],
    py: Python<'p>,
    types: &StaticTypes,
    storage: usize,
    op: &ffi::PyObject,
    convert: F,
    calls: &mut Vec<Call>,
) -> (r: PyList<'p>) where F: Fn(&T) -> PyObject<'p>
    requires
        storage != 0,
        PyList::accepts(*types, *op),
        forall|i: int| 0 <= i < elements@.len() ==> convert.requires((&#[trigger] elements@[i],)),
    ensures
        r.ptr() == storage,
        r.object().spec_python() == py,
        exists|made: Seq<PyObject<'p>>|
            {
                &&& made.len() == elements@.len()
                &&& forall|i: int|
                    0 <= i < elements@.len() ==> convert.ensures((&elements@[i],), #[trigger] made[i])
                &&& final(calls)@ == old(calls)@ + store_calls(storage, ptrs(made))
            },
{
    let ghost before = calls@;
    let t: PyList<'p> = crate::err::cast_from_owned_ptr_or_panic(py, types, storage, op);
    let ghost mut made: Seq<PyObject<'p>> = Seq::empty();
    proof {
        assert(calls@ =~= before + store_calls(storage, ptrs(made)));
    }
    let mut i: usize = 0;
    while i < elements.len()
        invariant
            i <= elements@.len(),
            forall|j: int| 0 <= j < elements@.len() ==> convert.requires((&#[trigger] elements@[j],)),
            made.len() == i,
            forall|j: int| 0 <= j < i ==> convert.ensures((&elements@[j],), #[trigger] made[j]),
            calls@ == before + store_calls(storage, ptrs(made)),
        decreases elements@.len() - i,
    {
        let obj = convert(&elements[i]);
        let ghost prev = made;
        proof {
            made = made.push(obj);
        }
        calls.push(Call::ListSetItem { list: storage, index: i, item: obj.steal_ptr() });
        proof {
            assert(ptrs(made) =~= ptrs(prev).push(obj.ptr()));
            assert(calls@ =~= before + store_calls(storage, ptrs(made)));
        }
        i += 1;
    }
    t
}

/// Whether `outcome` is what `extract` can make of a handle to the object at
/// `ptr`.
pub open spec fn extracts<'p, T, F>(extract: F, ptr: usize, outcome: PyResult<'p, T>) -> bool where
    F: Fn(&PyObject<'p>) -> PyResult<'p, T>,
 {
    exists|o: PyObject<'p>| o.ptr() == ptr && extract.ensures((&o,), outcome)
}

/// Whether `got` is what `extract` made of the first items of `items`, one
/// value for each, all of them successes.
pub open spec fn extracted<'p, T, F>(extract: F, items: Seq<usize>, got: Seq<T>) -> bool where
    F: Fn(&PyObject<'p>) -> PyResult<'p, T>,
 {
    &&& got.len() <= items.len()
    &&& forall|i: int|
        0 <= i < got.len() ==> extracts(extract, items[i], Ok::<T, PyErr<'p>>(#[trigger] got[i]))
}

/// The host values that `extract` makes of the items of a list. `s` is to be
/// the list, of which the interpreter says `op`, and `items` are the addresses
/// of what it holds, in order.
///
/// An object that is no list is a `TypeError`, and nothing is looked at.
/// Else the items are looked at in turn, each through a handle with a
/// reference of its own that is given up after; the first item that `extract`
/// fails on ends the walk with that failure.
///
/// `extract` runs while this function runs; the journal is carried out after
/// it has returned. So the reference that is taken for an item is not yet
/// held while `extract` looks at the item: what keeps the item alive then is
/// the list, which `extract` must leave as it is.
pub fn from_py_object<'p, T, F>(
    s: &PyObject<'p>,
    types: &StaticTypes,
    op: &ffi::PyObject,
    items: &[usize],
    extract: F,
    calls: &mut Vec<Call>,
) -> (r: PyResult<'p, Vec<T>>) where F: Fn(&PyObject<'p>) -> PyResult<'p, T>
    requires
        forall|i: int| 0 <= i < items@.len() ==> items@[i] != 0,
        forall|o: PyObject<'p>|
            items@.contains(o.ptr()) && o.spec_python() == s.spec_python() ==> extract.requires(
                (&o,),
            ),
    ensures
        !PyList::accepts(*types, *op) ==> (r matches Err(e) && is_raised(
            e,
            types.PyExc(PyExc_TypeError),
            0,
            0,
        )),
        !PyList::accepts(*types, *op) ==> final(calls)@ == old(calls)@.push(
            Call::IncRef { ob: types.PyExc(PyExc_TypeError) },
        ),
        PyList::accepts(*types, *op) ==> (r matches Ok(v) ==> {
            &&& v@.len() == items@.len()
            &&& extracted(extract, items@, v@)
            &&& final(calls)@ == old(calls)@ + visit_calls(items@)
        }),
        PyList::accepts(*types, *op) ==> (r matches Err(e) ==> exists|got: Seq<T>|
            {
                &&& got.len() < items@.len()
                &&& #[trigger] extracted(extract, items@, got)
                &&& extracts(extract, items@[got.len() as int], Err::<T, PyErr<'p>>(e))
                &&& final(calls)@ == old(calls)@ + visit_calls(items@.take(got.len() as int + 1))
            }),
{
    let ghost before = calls@;
    let list = match s.cast_as::<PyList>(types, op) {
        Ok(list) => list,
        Err(e) => {
            return Err(PyErr::from_downcast(e, types, calls));
        },
    };
    let mut v: Vec<T> = Vec::with_capacity(items.len());
    proof {
        assert(calls@ =~= before + visit_calls(items@.take(0)));
    }
    let mut i: usize = 0;
    while i < items.len()
        invariant
            i <= items@.len(),
            before == old(calls)@,
            PyList::accepts(*types, *op),
            list.view().object() == *s,
            forall|j: int| 0 <= j < items@.len() ==> items@[j] != 0,
            forall|o: PyObject<'p>|
                items@.contains(o.ptr()) && o.spec_python() == s.spec_python()
                    ==> extract.requires((&o,)),
            v@.len() == i,
            extracted(extract, items@, v@),
            calls@ == before + visit_calls(items@.take(i as int)),
        decreases items@.len() - i,
    {
        let mut item = list.get().get_item(i, items.len(), items[i], calls);
        proof {
            assert(items@.contains(items@[i as int]));
        }
        let outcome = extract(&item);
        proof {
            assert(extracts(extract, items@[i as int], outcome));
        }
        item.release(calls);
        proof {
            assert(calls@ =~= before + visit_calls(items@.take(i + 1)));
        }
        match outcome {
            Ok(t) => {
                v.push(t);
            },
            Err(e) => {
                proof {
                    assert(extracted(extract, items@, v@));
                    assert(extracts(extract, items@[v@.len() as int], Err::<T, PyErr<'p>>(e)));
                }
                return Err(e);
            },
        }
        i += 1;
    }
    proof {
        assert(items@.take(i as int) =~= items@);
    }
    Ok(v)
}

impl<'p> ToPythonPointer for PyList<'p> {
    closed spec fn ptr(&self) -> usize {
        self.0.ptr()
    }

    fn as_ptr(&self) -> (r: usize) {
        self.0.as_ptr()
    }

    fn steal_ptr(self) -> (r: usize) {
        self.0.steal_ptr()
    }
}

impl<'p> PythonObject<'p> for PyList<'p> {
    closed spec fn object(&self) -> PyObject<'p> {
        self.0
    }

    proof fn lemma_object_ptr(&self) {
    }

    fn as_object(&self) -> (r: &PyObject<'p>) {
        &self.0
    }

    fn into_object(self) -> (r: PyObject<'p>) {
        self.0
    }

    fn unchecked_downcast_from(obj: PyObject<'p>) -> (r: PyList<'p>) {
        PyList(obj)
    }

    fn python(&self) -> (r: Python<'p>) {
        self.0.python()
    }
}

impl<'p> PythonObjectWithCheckedDowncast<'p> for PyList<'p> {
    /// A list is an object whose type has the flag of the `list` family.
    open spec fn accepts(types: StaticTypes, op: ffi::PyObject) -> bool {
        ffi::has_feature(op.ob_type.tp_flags, ffi::Py_TPFLAGS_LIST_SUBCLASS)
    }

    fn downcast_from(
        obj: PyObject<'p>,
        types: &StaticTypes,
        op: &ffi::PyObject,
        calls: &mut Vec<Call>,
    ) -> (r: Result<PyList<'p>, PythonObjectDowncastError<'p>>) {
        if ffi::PyList_Check(op) != 0 {
            Ok(PyList(obj))
        } else {
            let mut obj = obj;
            obj.release(calls);
            Err(PythonObjectDowncastError(obj.python()))
        }
    }

    fn downcast_borrow_from<'a>(
        obj: &'a PyObject<'p>,
        types: &StaticTypes,
        op: &ffi::PyObject,
    ) -> (r: Result<Borrowed<'a, PyList<'p>>, PythonObjectDowncastError<'p>>) {
        if ffi::PyList_Check(op) != 0 {
            Ok(Self::unchecked_downcast_borrow_from(obj))
        } else {
            Err(PythonObjectDowncastError(obj.python()))
        }
    }
}

impl<'p> PythonObjectWithTypeObject<'p> for PyList<'p> {
    open spec fn type_ptr(types: StaticTypes) -> usize {
        types.PyList_Type()
    }

    fn type_object(py: Python<'p>, types: &StaticTypes, calls: &mut Vec<Call>) -> (r: PyType<'p>) {
        PyType::from_type_ptr(py, types.PyList_Type(), calls)
    }
}

} // verus!
