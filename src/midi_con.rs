use crate::state::{first_named, is_listing, unknown_name, Action, ConState};
use std::collections::HashMap;
use vstd::prelude::*;

verus! {

broadcast use vstd::std_specs::hash::group_hash_axioms;

/// An edge-triggered signal that the set of visible devices has changed.
#[derive(Debug)]
pub struct Notification {}

/// Why an operation of the connection manager did not take effect.
#[derive(Debug, Clone, Copy, PartialEq, Eq, Structural)]
pub enum MidiError {
    /// No driver client has been attached yet.
    NotReady,
    /// The index or name does not resolve to a live endpoint.
    UnknownDevice,
    /// The driver refused the request with the given status code.
    DriverRejected(i32),
}

/// The connection manager: the driver client, the open ports keyed by
/// endpoint index, and the single notification listener.
///
/// `C` is the driver client, `I` and `O` the open input and output ports,
/// `L` the notification listener. All driver work is handed in by the
/// caller, so the manager decides what happens and keeps the books.
pub struct MidiCon<C, I, O, L> {
    opt_client: Option<C>,
    opt_notification_callback: Option<L>,
    in_ports: HashMap<usize, I>,
    out_ports: HashMap<usize, O>,
}

impl<C, I, O, L> View for MidiCon<C, I, O, L> {
    type V = ConState<C, I, O, L>;

    closed spec fn view(&self) -> ConState<C, I, O, L> {
        ConState {
            client: self.opt_client,
            listener: self.opt_notification_callback,
            inputs: self.in_ports@,
            outputs: self.out_ports@,
        }
    }
}

/// Lists the endpoints named `names`, flagging those with a port in `ports`.
fn list_endpoints<P>(
    names: &Vec<Option<String>>,
    ports: &HashMap<usize, P>,
) -> (r: Vec<(usize, bool, String)>)
    ensures
        is_listing(r@, names@, ports@.dom()),
{
    let mut r: Vec<(usize, bool, String)> = Vec::new();
    let mut k: usize = 0;
    while k < names.len()
        invariant
            k <= names.len(),
            is_listing(r@, names@.take(k as int), ports@.dom()),
        decreases names.len() - k,
    {
        let name = match &names[k] {
            Some(n) => n.clone(),
            None => {
                let u = "Unknown".to_string();
                proof {
                    reveal_strlit("Unknown");
                    assert(u@ =~= unknown_name());
                }
                u
            },
        };
        let connected = ports.contains_key(&k);
        r.push((k, connected, name));
        k += 1;
    }
    assert(names@.take(names.len() as int) =~= names@);
    r
}

impl<C, I, O, L> MidiCon<C, I, O, L> {
    /// A manager with no client, no ports and no listener.
    pub fn new() -> (r: Self)
        ensures
            r@ == ConState::<C, I, O, L>::initial(),
    {
        MidiCon {
            opt_client: None,
            opt_notification_callback: None,
            in_ports: HashMap::new(),
            out_ports: HashMap::new(),
        }
    }

    /// Attaches the driver client. Only the first client is kept; the
    /// result says whether this one was.
    pub fn set_client(&mut self, client: C) -> (r: bool)
        ensures
            r == (old(self)@.client is None),
            final(self)@ == old(self)@.apply(Action::AttachClient(client)),
    {
        if self.opt_client.is_none() {
            self.opt_client = Some(client);
            true
        } else {
            false
        }
    }

    /// Lists the sources whose driver names are `names`, in driver order,
    /// each flagged as connected when an input port is open for its index.
    pub fn list_sources(&self, names: &Vec<Option<String>>) -> (r: Vec<(usize, bool, String)>)
        ensures
            is_listing(r@, names@, self@.inputs.dom()),
    {
        list_endpoints(names, &self.in_ports)
    }

    /// Lists the destinations whose driver names are `names`, in driver
    /// order, each flagged as connected when an output port is open for it.
    pub fn list_destinations(&self, names: &Vec<Option<String>>) -> (r: Vec<(usize, bool, String)>)
        ensures
            is_listing(r@, names@, self@.outputs.dom()),
    {
        list_endpoints(names, &self.out_ports)
    }

    /// Opens an input port on the source at `source_index`.
    ///
    /// `source` is what the driver resolved that index to; `open` asks the
    /// driver for a port bound to it. A port already open for the index is
    /// replaced and released.
    pub fn connect_source_by_index<S, F>(
        &mut self,
        source_index: usize,
        source: Option<S>,
        open: F,
    ) -> (r: Result<(), MidiError>) where F: FnOnce(&C, S) -> Result<I, i32>
        requires
            forall|c: &C, s: S| call_requires(open, (c, s)),
        ensures
            (r == Err::<(), MidiError>(MidiError::NotReady)) == (old(self)@.client is None),
            (r == Err::<(), MidiError>(MidiError::UnknownDevice)) == (old(self)@.client is Some
                && source is None),
            r is Err ==> final(self)@ == old(self)@,
            r matches Err(MidiError::DriverRejected(status)) ==> {
                &&& old(self)@.client is Some
                &&& source is Some
                &&& call_ensures(
                    open,
                    (&old(self)@.client->Some_0, source->Some_0),
                    Err::<I, i32>(status),
                )
            },
            r is Ok ==> {
                let port = final(self)@.inputs[source_index];
                &&& old(self)@.client is Some
                &&& source is Some
                &&& call_ensures(open, (&old(self)@.client->Some_0, source->Some_0), Ok::<I, i32>(port))
                &&& final(self)@ == old(self)@.apply(Action::ConnectSource(source_index, port))
            },
    {
        match &self.opt_client {
            None => Err(MidiError::NotReady),
            Some(client) => match source {
                None => Err(MidiError::UnknownDevice),
                Some(s) => match open(client, s) {
                    Err(status) => Err(MidiError::DriverRejected(status)),
                    Ok(port) => {
                        self.in_ports.insert(source_index, port);
                        Ok(())
                    },
                },
            },
        }
    }

    /// Opens an input port on the first source in `directory` whose driver
    /// name is `source_name`, and registers it under that source's index.
    pub fn connect_source_by_name<S, F>(
        &mut self,
        source_name: &str,
        directory: Vec<(S, Option<String>)>,
        open: F,
    ) -> (r: Result<(), MidiError>) where F: FnOnce(&C, S) -> Result<I, i32>
        requires
            forall|c: &C, s: S| call_requires(open, (c, s)),
        ensures
            ({
                let names = directory@.map_values(|e: (S, Option<String>)| e.1);
                let found = first_named(names, source_name@);
                &&& (r == Err::<(), MidiError>(MidiError::NotReady)) == (old(self)@.client is None)
                &&& (r == Err::<(), MidiError>(MidiError::UnknownDevice)) == (old(self)@.client is Some
                    && found is None)
                &&& r is Err ==> final(self)@ == old(self)@
                &&& r matches Err(MidiError::DriverRejected(status)) ==> {
                    &&& old(self)@.client is Some
                    &&& found is Some
                    &&& call_ensures(
                        open,
                        (&old(self)@.client->Some_0, directory@[found->Some_0].0),
                        Err::<I, i32>(status),
                    )
                }
                &&& r is Ok ==> {
                    let k = found->Some_0;
                    let port = final(self)@.inputs[k as usize];
                    &&& old(self)@.client is Some
                    &&& found is Some
                    &&& call_ensures(open, (&old(self)@.client->Some_0, directory@[k].0), Ok::<I, i32>(port))
                    &&& final(self)@ == old(self)@.apply(Action::ConnectSource(k as usize, port))
                }
            }),
    {
        if self.opt_client.is_none() {
            return Err(MidiError::NotReady);
        }
        let ghost names = directory@.map_values(|e: (S, Option<String>)| e.1);
        let wanted = source_name.to_owned();
        let mut k: usize = 0;
        while k < directory.len()
            invariant
                k <= directory.len(),
                names == directory@.map_values(|e: (S, Option<String>)| e.1),
                wanted@ == source_name@,
                first_named(names.take(k as int), source_name@) is None,
                forall|c: &C, s: S| call_requires(open, (c, s)),
                self@ == old(self)@,
                self@.client is Some,
            decreases directory.len() - k,
        {
            let hit = match &directory[k].1 {
                Some(n) => *n == wanted,
                None => false,
            };
            proof {
                assert(names.take(k + 1).drop_last() =~= names.take(k as int));
            }
            if hit {
                proof {
                    lemma_first_named_prefix(names, source_name@, k as int + 1);
                }
                let mut directory = directory;
                let (source, _) = directory.swap_remove(k);
                return self.connect_source_by_index(k, Some(source), open);
            }
            k += 1;
        }
        proof {
            assert(names.take(directory.len() as int) =~= names);
        }
        Err(MidiError::UnknownDevice)
    }

    /// Opens an output port for the destination at `destination_index`.
    ///
    /// `destination_exists` says whether the driver resolves that index to a
    /// destination; `open` asks the driver for an output port. A port already
    /// open for the index is replaced and released.
    pub fn connect_destination_by_index<F>(
        &mut self,
        destination_index: usize,
        destination_exists: bool,
        open: F,
    ) -> (r: Result<(), MidiError>) where F: FnOnce(&C) -> Result<O, i32>
        requires
            forall|c: &C| call_requires(open, (c,)),
        ensures
            (r == Err::<(), MidiError>(MidiError::NotReady)) == (old(self)@.client is None),
            (r == Err::<(), MidiError>(MidiError::UnknownDevice)) == (old(self)@.client is Some
                && !destination_exists),
            r is Err ==> final(self)@ == old(self)@,
            r matches Err(MidiError::DriverRejected(status)) ==> {
                &&& old(self)@.client is Some
                &&& destination_exists
                &&& call_ensures(open, (&old(self)@.client->Some_0,), Err::<O, i32>(status))
            },
            r is Ok ==> {
                let port = final(self)@.outputs[destination_index];
                &&& old(self)@.client is Some
                &&& destination_exists
                &&& call_ensures(open, (&old(self)@.client->Some_0,), Ok::<O, i32>(port))
                &&& final(self)@ == old(self)@.apply(Action::ConnectDestination(destination_index, port))
            },
    {
        match &self.opt_client {
            None => Err(MidiError::NotReady),
            Some(client) => if !destination_exists {
                Err(MidiError::UnknownDevice)
            } else {
                match open(client) {
                    Err(status) => Err(MidiError::DriverRejected(status)),
                    Ok(port) => {
                        self.out_ports.insert(destination_index, port);
                        Ok(())
                    },
                }
            },
        }
    }

    /// Sends `data` to the destination at `destination_index` through the
    /// output port open for it.
    ///
    /// Without such a port nothing is sent and the result is `Ok(false)`.
    /// Otherwise `destination` is what the driver resolves the index to at
    /// this moment, and `transmit` hands the bytes, unchanged, to the driver
    /// as one packet; `Ok(true)` says the driver took them.
    pub fn send<D, F>(
        &self,
        destination_index: usize,
        data: &[u8],
        destination: Option<D>,
        transmit: F,
    ) -> (r: Result<bool, MidiError>) where F: FnOnce(&O, D, &[u8]) -> Result<(), i32>
        requires
            forall|p: &O, d: D, b: &[u8]| call_requires(transmit, (p, d, b)),
        ensures
            (r == Ok::<bool, MidiError>(false)) == !self@.outputs.contains_key(destination_index),
            (r == Err::<bool, MidiError>(MidiError::UnknownDevice)) == (self@.outputs.contains_key(
                destination_index,
            ) && destination is None),
            self@.outputs.contains_key(destination_index) && destination is Some ==> (r == Ok::<
                bool,
                MidiError,
            >(true) || r matches Err(MidiError::DriverRejected(_))),
            r == Ok::<bool, MidiError>(true) ==> {
                &&& self@.outputs.contains_key(destination_index)
                &&& destination is Some
                &&& exists|sent: Result<(), i32>|
                    sent is Ok && #[trigger] call_ensures(
                        transmit,
                        (&self@.outputs[destination_index], destination->Some_0, data),
                        sent,
                    )
            },
            r matches Err(MidiError::DriverRejected(status)) ==> {
                &&& self@.outputs.contains_key(destination_index)
                &&& destination is Some
                &&& call_ensures(
                    transmit,
                    (&self@.outputs[destination_index], destination->Some_0, data),
                    Err::<(), i32>(status),
                )
            },
    {
        match self.out_ports.get(&destination_index) {
            None => Ok(false),
            Some(port) => match destination {
                None => Err(MidiError::UnknownDevice),
                Some(d) => {
                    let sent = transmit(port, d, data);
                    match sent {
                        Ok(()) => Ok(true),
                        Err(status) => Err(MidiError::DriverRejected(status)),
                    }
                },
            },
        }
    }

    /// Closes the input port open for `source_index`, if any; the result
    /// says whether there was one.
    pub fn disconnect_source(&mut self, source_index: usize) -> (r: bool)
        ensures
            r == old(self)@.inputs.contains_key(source_index),
            final(self)@ == old(self)@.apply(Action::DisconnectSource(source_index)),
            !r ==> final(self)@ == old(self)@,
    {
        let removed = self.in_ports.remove(&source_index);
        proof {
            if !old(self)@.inputs.contains_key(source_index) {
                assert(old(self)@.inputs.remove(source_index) =~= old(self)@.inputs);
            }
        }
        removed.is_some()
    }

    /// Closes the output port open for `destination_index`, if any; the
    /// result says whether there was one.
    pub fn disconnect_destination(&mut self, destination_index: usize) -> (r: bool)
        ensures
            r == old(self)@.outputs.contains_key(destination_index),
            final(self)@ == old(self)@.apply(Action::DisconnectDestination(destination_index)),
            !r ==> final(self)@ == old(self)@,
    {
        let removed = self.out_ports.remove(&destination_index);
        proof {
            if !old(self)@.outputs.contains_key(destination_index) {
                assert(old(self)@.outputs.remove(destination_index) =~= old(self)@.outputs);
            }
        }
        removed.is_some()
    }

    /// Whether a driver client is attached.
    pub fn is_ready(&self) -> (r: bool)
        ensures
            r == (self@.client is Some),
    {
        self.opt_client.is_some()
    }

    /// Makes `cb` the one listener for topology notifications, replacing
    /// any earlier one.
    pub fn set_notification_callback(&mut self, cb: L)
        ensures
            final(self)@ == old(self)@.apply(Action::SetListener(cb)),
    {
        self.opt_notification_callback = Some(cb);
    }

    /// The listener that a topology notification is relayed to.
    pub fn notification_listener(&self) -> (r: Option<&L>)
        ensures
            match r {
                Some(l) => self@.listener == Some(*l),
                None => self@.listener is None,
            },
    {
        self.opt_notification_callback.as_ref()
    }
}

/// A name found within a prefix is found at the same place in the whole.
proof fn lemma_first_named_prefix(names: Seq<Option<String>>, name: Seq<char>, n: int)
    requires
        0 <= n <= names.len(),
        first_named(names.take(n), name) is Some,
    ensures
        first_named(names, name) == first_named(names.take(n), name),
    decreases names.len() - n,
{
    if n < names.len() {
        assert(names.take(n + 1).drop_last() =~= names.take(n));
        lemma_first_named_prefix(names, name, n + 1);
    } else {
        assert(names.take(n) =~= names);
    }
}

} // verus!
