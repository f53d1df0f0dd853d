use crate::state::{is_listing, Action, ConState};
use vstd::prelude::*;

verus! {

/// Source `index` has an input port after `actions` only if one of them
/// connected it.
pub proof fn lemma_unconnected_source_has_no_port<C, I, O, L>(
    actions: Seq<Action<C, I, O, L>>,
    index: usize,
)
    requires
        forall|k: int| 0 <= k < actions.len() ==> !(#[trigger] actions[k]).connects_source(index),
    ensures
        !ConState::<C, I, O, L>::initial().replay(actions).inputs.contains_key(index),
    decreases actions.len(),
{
    if actions.len() > 0 {
        assert(!actions[actions.len() - 1].connects_source(index));
        lemma_unconnected_source_has_no_port(actions.drop_last(), index);
    }
}

/// Starting from a new manager, a source that no operation connected is
/// listed as not connected.
pub proof fn lemma_unconnected_source_listed_false<C, I, O, L>(
    actions: Seq<Action<C, I, O, L>>,
    index: usize,
    names: Seq<Option<String>>,
    entries: Seq<(usize, bool, String)>,
)
    requires
        forall|k: int| 0 <= k < actions.len() ==> !(#[trigger] actions[k]).connects_source(index),
        is_listing(entries, names, ConState::<C, I, O, L>::initial().replay(actions).inputs.dom()),
        index < entries.len(),
    ensures
        !entries[index as int].1,
{
    lemma_unconnected_source_has_no_port(actions, index);
    assert(entries[index as int].0 == index);
}

/// A source is listed as connected once it has been connected, and as not
/// connected again once it has been disconnected.
pub proof fn lemma_connect_then_disconnect_listing<C, I, O, L>(
    s: ConState<C, I, O, L>,
    index: usize,
    port: I,
    names: Seq<Option<String>>,
    after_connect: Seq<(usize, bool, String)>,
    after_disconnect: Seq<(usize, bool, String)>,
)
    requires
        index < names.len(),
        is_listing(
            after_connect,
            names,
            s.apply(Action::ConnectSource(index, port)).inputs.dom(),
        ),
        is_listing(
            after_disconnect,
            names,
            s.apply(Action::ConnectSource(index, port)).apply(
                Action::DisconnectSource(index),
            ).inputs.dom(),
        ),
    ensures
        after_connect[index as int].1,
        !after_disconnect[index as int].1,
{
    assert(after_connect[index as int].0 == index);
    assert(after_disconnect[index as int].0 == index);
}

/// The listener registered last is the one that notifications reach,
/// whatever other operations follow it.
pub proof fn lemma_latest_listener_observes<C, I, O, L>(
    s: ConState<C, I, O, L>,
    listener: L,
    later: Seq<Action<C, I, O, L>>,
)
    requires
        forall|k: int| 0 <= k < later.len() ==> !(#[trigger] later[k]).sets_listener(),
    ensures
        s.apply(Action::SetListener(listener)).replay(later).listener == Some(listener),
    decreases later.len(),
{
    if later.len() > 0 {
        assert(!later[later.len() - 1].sets_listener());
        lemma_latest_listener_observes(s, listener, later.drop_last());
    }
}

} // verus!
