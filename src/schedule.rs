//! What the timers decide after ticks: whether the store is saved, and what
//! a run of serialized ticks does to it.
use vstd::prelude::*;
use crate::detect::{is_change, observe};
use crate::store::pairs_map;
use crate::tick::TickEnd;

verus! {

/// After a task's own tick the store is saved exactly when the tick
/// recorded a new value.
pub fn should_persist(end: &TickEnd) -> (r: bool)
    ensures
        r == end.changed(),
{
    end.is_changed()
}

/// Some tick of a sweep recorded a new value.
pub open spec fn any_changed(ends: Seq<TickEnd>) -> bool {
    exists|i: int| 0 <= i < ends.len() && #[trigger] ends[i].changed()
}

/// After a global sweep over every task the store is saved once, exactly
/// when some tick of the sweep recorded a new value.
pub fn sweep_should_persist(ends: &Vec<TickEnd>) -> (r: bool)
    ensures
        r == any_changed(ends@),
{
    let mut i: usize = 0;
    while i < ends.len()
        invariant
            0 <= i <= ends@.len(),
            forall|j: int| 0 <= j < i ==> !(#[trigger] ends@[j].changed()),
        decreases ends@.len() - i,
    {
        if ends[i].is_changed() {
            return true;
        }
        i = i + 1;
    }
    false
}

/// A failing action does not stand in the way of saving: a tick whose
/// action failed still counts as a change, in a task's own tick and in a
/// sweep, and the value it recorded stays in the store.
pub proof fn lemma_failed_action_still_persists(ends: Seq<TickEnd>, i: int)
    requires
        0 <= i < ends.len(),
        ends[i] matches TickEnd::Changed { action_succeeded } && !action_succeeded,
    ensures
        ends[i].changed(),
        any_changed(ends),
{
    assert(ends[i].changed());
}

/// The store after a run of observations, made one at a time in order.
pub open spec fn observe_all(
    m: Map<Seq<char>, Seq<char>>,
    obs: Seq<(Seq<char>, Seq<char>)>,
) -> Map<Seq<char>, Seq<char>>
    decreases obs.len(),
{
    if obs.len() == 0 {
        m
    } else {
        let last = obs.last();
        observe(observe_all(m, obs.drop_last()), last.0, last.1)
    }
}

/// Observing a value leaves the store holding it for that identifier, and
/// everything else as it was.
pub proof fn lemma_observe_records(m: Map<Seq<char>, Seq<char>>, id: Seq<char>, value: Seq<char>)
    ensures
        observe(m, id, value) == m.insert(id, value),
{
    if !is_change(m, id, value) {
        assert(m.insert(id, value) =~= m);
    }
}

/// No lost updates: when ticks are serialized, the store after any run of
/// observations is the starting store with each identifier's last observed
/// value written over it; every other identifier keeps its entry.
pub proof fn lemma_serialized_ticks_keep_last(
    m: Map<Seq<char>, Seq<char>>,
    obs: Seq<(Seq<char>, Seq<char>)>,
)
    ensures
        observe_all(m, obs) == m.union_prefer_right(pairs_map(obs)),
    decreases obs.len(),
{
    if obs.len() > 0 {
        let t = obs.drop_last();
        let last = obs.last();
        lemma_serialized_ticks_keep_last(m, t);
        lemma_observe_records(observe_all(m, t), last.0, last.1);
        assert(m.union_prefer_right(pairs_map(t)).insert(last.0, last.1) =~= m.union_prefer_right(
            pairs_map(t).insert(last.0, last.1),
        ));
    } else {
        assert(m.union_prefer_right(pairs_map(obs)) =~= m);
    }
}

} // verus!
