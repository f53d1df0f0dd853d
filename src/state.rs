use vstd::prelude::*;

verus! {

/// The name shown for an endpoint whose name the driver cannot supply.
pub open spec fn unknown_name() -> Seq<char> {
    seq!['U', 'n', 'k', 'n', 'o', 'w', 'n']
}

/// The name listed for an endpoint, given what the driver reported for it.
pub open spec fn display_name(name: Option<String>) -> Seq<char> {
    match name {
        Some(n) => n@,
        None => unknown_name(),
    }
}

/// `entries` lists the endpoints whose driver names are `names`, in driver
/// order, each flagged as connected exactly when its index is in `connected`.
pub open spec fn is_listing(
    entries: Seq<(usize, bool, String)>,
    names: Seq<Option<String>>,
    connected: Set<usize>,
) -> bool {
    &&& entries.len() == names.len()
    &&& forall|k: int|
        0 <= k < entries.len() ==> {
            &&& (#[trigger] entries[k]).0 == k
            &&& entries[k].1 == connected.contains(k as usize)
            &&& entries[k].2@ == display_name(names[k])
        }
}

/// The first position in `names` that holds exactly `name`, if any.
pub open spec fn first_named(names: Seq<Option<String>>, name: Seq<char>) -> Option<int>
    decreases names.len(),
{
    if names.len() == 0 {
        None
    } else {
        match first_named(names.drop_last(), name) {
            Some(k) => Some(k),
            None => if names.last() matches Some(n) && n@ == name {
                Some(names.len() - 1)
            } else {
                None
            },
        }
    }
}

/// Abstract state of a connection manager: the driver client, the open
/// input and output ports keyed by endpoint index, and the listener.
pub struct ConState<C, I, O, L> {
    pub client: Option<C>,
    pub listener: Option<L>,
    pub inputs: Map<usize, I>,
    pub outputs: Map<usize, O>,
}

/// A change of the manager's state made by a successful operation.
pub enum Action<C, I, O, L> {
    AttachClient(C),
    SetListener(L),
    ConnectSource(usize, I),
    DisconnectSource(usize),
    ConnectDestination(usize, O),
    DisconnectDestination(usize),
}

impl<C, I, O, L> Action<C, I, O, L> {
    /// Whether this action opens an input port for source `index`.
    pub open spec fn connects_source(self, index: usize) -> bool {
        self matches Action::ConnectSource(i, _) && i == index
    }

    /// Whether this action registers a notification listener.
    pub open spec fn sets_listener(self) -> bool {
        self is SetListener
    }
}

impl<C, I, O, L> ConState<C, I, O, L> {
    /// The state of a manager that has just been created.
    pub open spec fn initial() -> Self {
        ConState { client: None, listener: None, inputs: Map::empty(), outputs: Map::empty() }
    }

    /// The state after `action`. A client, once attached, is never replaced.
    pub open spec fn apply(self, action: Action<C, I, O, L>) -> Self {
        match action {
            Action::AttachClient(c) => if self.client is None {
                ConState { client: Some(c), ..self }
            } else {
                self
            },
            Action::SetListener(l) => ConState { listener: Some(l), ..self },
            Action::ConnectSource(i, p) => ConState { inputs: self.inputs.insert(i, p), ..self },
            Action::DisconnectSource(i) => ConState { inputs: self.inputs.remove(i), ..self },
            Action::ConnectDestination(i, p) => ConState {
                outputs: self.outputs.insert(i, p),
                ..self
            },
            Action::DisconnectDestination(i) => ConState {
                outputs: self.outputs.remove(i),
                ..self
            },
        }
    }

    /// The state after the actions in order.
    pub open spec fn replay(self, actions: Seq<Action<C, I, O, L>>) -> Self
        decreases actions.len(),
    {
        if actions.len() == 0 {
            self
        } else {
            self.replay(actions.drop_last()).apply(actions.last())
        }
    }
}

} // verus!
