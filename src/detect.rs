//! Change detection against the store's current contents.
use vstd::prelude::*;
use crate::store::ResultStore;

verus! {

/// A value is a change for `id` when nothing is recorded for it yet, or
/// something else is.
pub open spec fn is_change(m: Map<Seq<char>, Seq<char>>, id: Seq<char>, value: Seq<char>) -> bool {
    !m.contains_key(id) || m[id] != value
}

/// The store's contents after observing `value` for `id`: recorded when it
/// is a change, left alone otherwise.
pub open spec fn observe(m: Map<Seq<char>, Seq<char>>, id: Seq<char>, value: Seq<char>) -> Map<
    Seq<char>,
    Seq<char>,
> {
    if is_change(m, id, value) {
        m.insert(id, value)
    } else {
        m
    }
}

/// Whether `value` is a change for `id`. The store is not touched.
pub fn detect(store: &ResultStore, id: &String, value: &String) -> (r: bool)
    requires
        store.wf(),
    ensures
        r == is_change(store@, id@, value@),
{
    match store.get(id) {
        Some(last) => *last != *value,
        None => true,
    }
}

/// The first observation for an identifier not yet in the store is always a
/// change, and records the observed value.
pub proof fn lemma_first_observation_is_change(
    m: Map<Seq<char>, Seq<char>>,
    id: Seq<char>,
    value: Seq<char>,
)
    requires
        !m.contains_key(id),
    ensures
        is_change(m, id, value),
        observe(m, id, value) == m.insert(id, value),
        observe(m, id, value)[id] == value,
{
}

/// Observing the same value twice in a row: the second observation is no
/// change and leaves the store as the first one left it.
pub proof fn lemma_repeat_is_no_change(
    m: Map<Seq<char>, Seq<char>>,
    id: Seq<char>,
    value: Seq<char>,
)
    ensures
        !is_change(observe(m, id, value), id, value),
        observe(observe(m, id, value), id, value) == observe(m, id, value),
{
}

/// A value other than the recorded one is a change, and the store then
/// holds the new value for that identifier and is otherwise unchanged.
pub proof fn lemma_new_value_is_recorded(
    m: Map<Seq<char>, Seq<char>>,
    id: Seq<char>,
    value: Seq<char>,
)
    requires
        m.contains_key(id),
        m[id] != value,
    ensures
        is_change(m, id, value),
        observe(m, id, value) == m.insert(id, value),
{
}

} // verus!
