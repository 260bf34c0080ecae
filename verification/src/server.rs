//! The registry: the machines, networks and instances of the host by their
//! identifiers, with names that are unique within each kind, and the
//! bridges that running instances keep up.

use crate::assoc::{
    assoc_map, distinct_keys, lemma_assoc_absent, lemma_assoc_at, lemma_assoc_empty,
    lemma_assoc_push, lemma_assoc_remove,
};
use crate::id::Id;
use crate::instance::{
    all_set, Instance, InstanceError, InstanceState, InstanceStatus, InstanceView, StartPlan,
    StopPlan,
};
use crate::machine::{Machine, MachineConfig};
use crate::net::{bridge_name, tap_name};
use crate::network::{delete_commands, delete_rules, Network, NetworkConfig};
use crate::script::Script;
use crate::text::same_text;
use vstd::prelude::*;

verus! {

/// How often an identifier is drawn before the search for a free one is
/// given up.
pub const ID_ATTEMPTS: usize = 32;

/// The kinds of entities that have names.
#[derive(Debug, Clone, Copy, PartialEq, Eq, Hash, Structural)]
pub enum EntityKind {
    Machine,
    Network,
}

/// Why an operation of the registry failed.
#[derive(Debug, Clone, Copy, PartialEq, Eq, Structural)]
pub enum ServerError {
    /// Another entity of the kind has the name.
    DuplicateName(EntityKind),
    /// The identifier is taken.
    DuplicateId,
    /// No machine has the identifier.
    MachineNotFound,
    /// No network has the identifier.
    NetworkNotFound,
    /// No instance has the identifier.
    InstanceNotFound,
    /// The operating system gave no random bytes.
    NoEntropy,
    /// Every identifier that was drawn is taken.
    NoFreeId,
    /// The instance could not be made.
    Instance(InstanceError),
}

/// The registry.
pub struct Server {
    machines: Vec<Machine>,
    networks: Vec<Network>,
    instances: Vec<Instance>,
}

/// The registry as contracts see it.
pub struct ServerView {
    pub machines: Map<u128, Machine>,
    pub networks: Map<u128, Network>,
    pub instances: Map<u128, InstanceView>,
}

/// What starting an instance takes.
#[derive(Debug, PartialEq, Eq)]
pub struct ServerStart {
    /// The steps of the instance.
    pub plan: StartPlan,
    /// Whether no running instance was on the network before: the bridge
    /// is then created, and otherwise found.
    pub first_on_network: bool,
}

/// What stopping an instance takes.
#[derive(Debug, PartialEq, Eq)]
pub struct ServerStop {
    /// The steps of the instance.
    pub plan: StopPlan,
    /// The removal of the instance's TAP device, if the instance ran.
    pub delete_tap: Option<Script>,
    /// The removal of the network's bridge, if the instance ran and was
    /// the last running one on the network.
    pub delete_bridge: Option<Script>,
}

/// Reads the identifier of a machine.
pub closed spec fn machine_key() -> spec_fn(Machine) -> u128 {
    |m: Machine| m.spec_id()@
}

/// Reads a machine as it is.
pub closed spec fn machine_itself() -> spec_fn(Machine) -> Machine {
    |m: Machine| m
}

/// Reads the identifier of a network.
pub closed spec fn network_key() -> spec_fn(Network) -> u128 {
    |n: Network| n.spec_id()@
}

/// Reads a network as it is.
pub closed spec fn network_itself() -> spec_fn(Network) -> Network {
    |n: Network| n
}

/// Reads the identifier of an instance.
pub closed spec fn instance_key() -> spec_fn(Instance) -> u128 {
    |i: Instance| i@.id
}

/// Reads the view of an instance.
pub closed spec fn instance_view() -> spec_fn(Instance) -> InstanceView {
    |i: Instance| i@
}

/// Some machine has the name.
pub open spec fn machine_name_taken(state: ServerView, name: Seq<char>) -> bool {
    exists|id: u128| #[trigger]
        state.machines.dom().contains(id) && state.machines[id].spec_config().name@ == name
}

/// Some network has the name.
pub open spec fn network_name_taken(state: ServerView, name: Seq<char>) -> bool {
    exists|id: u128| #[trigger]
        state.networks.dom().contains(id) && state.networks[id].spec_config().name@ == name
}

/// The running instances on a network.
pub open spec fn running_on(state: ServerView, network: u128) -> Set<u128> {
    Set::new(
        |id: u128|
            state.instances.dom().contains(id) && state.instances[id].status
                == InstanceStatus::Running && state.instances[id].network.spec_id()@ == network,
    )
}

/// The bridge of a network is up exactly when a running instance is on the
/// network.
pub open spec fn bridge_up(state: ServerView, network: u128) -> bool {
    exists|id: u128| running_on(state, network).contains(id)
}

/// The registry with one more machine, or why it is refused: its
/// identifier or its name is taken.
pub open spec fn machine_added(state: ServerView, machine: Machine) -> Result<
    ServerView,
    ServerError,
> {
    if state.machines.dom().contains(machine.spec_id()@) {
        Err(ServerError::DuplicateId)
    } else if machine_name_taken(state, machine.spec_config().name@) {
        Err(ServerError::DuplicateName(EntityKind::Machine))
    } else {
        Ok(ServerView { machines: state.machines.insert(machine.spec_id()@, machine), ..state })
    }
}

/// The registry with one more network, or why it is refused: its
/// identifier or its name is taken.
pub open spec fn network_added(state: ServerView, network: Network) -> Result<
    ServerView,
    ServerError,
> {
    if state.networks.dom().contains(network.spec_id()@) {
        Err(ServerError::DuplicateId)
    } else if network_name_taken(state, network.spec_config().name@) {
        Err(ServerError::DuplicateName(EntityKind::Network))
    } else {
        Ok(ServerView { networks: state.networks.insert(network.spec_id()@, network), ..state })
    }
}

/// The registry with one more instance, or why it is refused: its
/// identifier is taken, or its machine or network is not in the registry.
pub open spec fn instance_added(state: ServerView, instance: InstanceView) -> Result<
    ServerView,
    ServerError,
> {
    if state.instances.dom().contains(instance.id) {
        Err(ServerError::DuplicateId)
    } else if !state.machines.dom().contains(instance.machine.spec_id()@) {
        Err(ServerError::MachineNotFound)
    } else if !state.networks.dom().contains(instance.network.spec_id()@) {
        Err(ServerError::NetworkNotFound)
    } else {
        Ok(ServerView { instances: state.instances.insert(instance.id, instance), ..state })
    }
}

/// The registry after the first `n` machines of `loaded` were added in
/// order, or the first refusal.
pub open spec fn machines_read(state: ServerView, loaded: Seq<Machine>, n: int) -> Result<
    ServerView,
    ServerError,
>
    decreases n,
{
    if n <= 0 {
        Ok(state)
    } else {
        match machines_read(state, loaded, n - 1) {
            Err(e) => Err(e),
            Ok(s) => machine_added(s, loaded[n - 1]),
        }
    }
}

/// The registry after the first `n` networks of `loaded` were added in
/// order, or the first refusal.
pub open spec fn networks_read(state: ServerView, loaded: Seq<Network>, n: int) -> Result<
    ServerView,
    ServerError,
>
    decreases n,
{
    if n <= 0 {
        Ok(state)
    } else {
        match networks_read(state, loaded, n - 1) {
            Err(e) => Err(e),
            Ok(s) => network_added(s, loaded[n - 1]),
        }
    }
}

/// The registry after the first `n` instances of `loaded` were added in
/// order, or the first refusal.
pub open spec fn instances_read(state: ServerView, loaded: Seq<InstanceView>, n: int) -> Result<
    ServerView,
    ServerError,
>
    decreases n,
{
    if n <= 0 {
        Ok(state)
    } else {
        match instances_read(state, loaded, n - 1) {
            Err(e) => Err(e),
            Ok(s) => instance_added(s, loaded[n - 1]),
        }
    }
}

/// The views of instances.
pub open spec fn instance_views(instances: Seq<Instance>) -> Seq<InstanceView> {
    Seq::new(instances.len(), |i: int| instances[i]@)
}

/// The registry after an instance was started.
pub open spec fn instance_started(state: ServerView, id: u128) -> ServerView {
    ServerView {
        instances: state.instances.insert(
            id,
            InstanceView {
                status: InstanceStatus::Running,
                share_dirs: all_set(state.instances[id].share_dirs, true),
                ..state.instances[id]
            },
        ),
        ..state
    }
}

/// The registry after an instance was stopped.
pub open spec fn instance_stopped(state: ServerView, id: u128) -> ServerView {
    ServerView {
        instances: state.instances.insert(
            id,
            InstanceView {
                status: InstanceStatus::Stopped,
                share_dirs: all_set(state.instances[id].share_dirs, false),
                ..state.instances[id]
            },
        ),
        ..state
    }
}

/// What creating an instance does to the registry: the new instance is
/// filed under a fresh identifier, never started, with the network and the
/// machine that were asked for; a machine or a network that is not in the
/// registry is the error, in this order, and every error leaves the
/// registry as it was.
pub open spec fn instance_created(
    before: ServerView,
    after: ServerView,
    machine_id: Id,
    network_id: Id,
    r: Result<InstanceState, ServerError>,
) -> bool {
    match r {
        Ok(state) => {
            &&& before.machines.dom().contains(machine_id@)
            &&& before.networks.dom().contains(network_id@)
            &&& !before.instances.dom().contains(state.id@)
            &&& state.boot_seq == 0
            &&& state.machine_id == machine_id
            &&& state.network_id == network_id
            &&& after.machines == before.machines
            &&& after.networks == before.networks
            &&& after.instances.dom() == before.instances.dom().insert(state.id@)
            &&& forall|other: u128|
                before.instances.dom().contains(other) ==> after.instances[other]
                    == before.instances[other]
            &&& after.instances[state.id@].id == state.id@
            &&& after.instances[state.id@].boot_seq == 0
            &&& after.instances[state.id@].status == InstanceStatus::New
            &&& after.instances[state.id@].network == before.networks[network_id@]
            &&& after.instances[state.id@].machine.spec_id() == machine_id
        },
        Err(e) => {
            &&& after == before
            &&& !before.machines.dom().contains(machine_id@) ==> e == ServerError::MachineNotFound
            &&& before.machines.dom().contains(machine_id@) && !before.networks.dom().contains(
                network_id@,
            ) ==> e == ServerError::NetworkNotFound
            &&& e == ServerError::MachineNotFound ==> !before.machines.dom().contains(machine_id@)
            &&& e == ServerError::NetworkNotFound ==> !before.networks.dom().contains(network_id@)
        },
    }
}

impl Server {
    /// The registry as contracts see it.
    pub closed spec fn view(&self) -> ServerView {
        ServerView {
            machines: assoc_map(self.machines@, machine_key(), machine_itself()),
            networks: assoc_map(self.networks@, network_key(), network_itself()),
            instances: assoc_map(self.instances@, instance_key(), instance_view()),
        }
    }

    /// The registry is consistent: identifiers are unique within each kind,
    /// and so are the names of machines and of networks.
    pub closed spec fn wf(&self) -> bool {
        &&& distinct_keys(self.machines@, machine_key())
        &&& distinct_keys(self.networks@, network_key())
        &&& distinct_keys(self.instances@, instance_key())
        &&& forall|i: int, j: int|
            0 <= i < self.machines@.len() && 0 <= j < self.machines@.len() && i != j ==> (
            #[trigger] self.machines@[i]).spec_config().name@ != (
            #[trigger] self.machines@[j]).spec_config().name@
        &&& forall|i: int, j: int|
            0 <= i < self.networks@.len() && 0 <= j < self.networks@.len() && i != j ==> (
            #[trigger] self.networks@[i]).spec_config().name@ != (
            #[trigger] self.networks@[j]).spec_config().name@
    }

    /// In a consistent registry every machine is filed under its own
    /// identifier, and no two machines, and no two networks, have the same
    /// name.
    pub proof fn lemma_names_unique(&self)
        requires
            self.wf(),
        ensures
            forall|a: u128, b: u128|
                self@.machines.dom().contains(a) && self@.machines.dom().contains(b) && a != b
                    ==> (#[trigger] self@.machines[a]).spec_config().name@ != (
                #[trigger] self@.machines[b]).spec_config().name@,
            forall|a: u128, b: u128|
                self@.networks.dom().contains(a) && self@.networks.dom().contains(b) && a != b
                    ==> (#[trigger] self@.networks[a]).spec_config().name@ != (
                #[trigger] self@.networks[b]).spec_config().name@,
            forall|a: u128| #[trigger]
                self@.machines.dom().contains(a) ==> self@.machines[a].spec_id()@ == a,
            forall|a: u128| #[trigger]
                self@.networks.dom().contains(a) ==> self@.networks[a].spec_id()@ == a,
            forall|a: u128| #[trigger]
                self@.instances.dom().contains(a) ==> self@.instances[a].id == a,
    {
        assert forall|a: u128| #[trigger] self@.machines.dom().contains(a) implies exists|i: int|
            0 <= i < self.machines@.len() && self.machines@[i].spec_id()@ == a
                && self@.machines[a] == #[trigger] self.machines@[i] by {
            let i = choose|i: int|
                0 <= i < self.machines@.len() && machine_key()(#[trigger] self.machines@[i]) == a;
            lemma_assoc_at(self.machines@, machine_key(), machine_itself(), i);
        }
        assert forall|a: u128| #[trigger] self@.networks.dom().contains(a) implies exists|i: int|
            0 <= i < self.networks@.len() && self.networks@[i].spec_id()@ == a
                && self@.networks[a] == #[trigger] self.networks@[i] by {
            let i = choose|i: int|
                0 <= i < self.networks@.len() && network_key()(#[trigger] self.networks@[i]) == a;
            lemma_assoc_at(self.networks@, network_key(), network_itself(), i);
        }
        assert forall|a: u128| #[trigger] self@.instances.dom().contains(a) implies self@.instances[a].id
            == a by {
            let i = choose|i: int|
                0 <= i < self.instances@.len() && instance_key()(#[trigger] self.instances@[i])
                    == a;
            lemma_assoc_at(self.instances@, instance_key(), instance_view(), i);
        }
        assert forall|a: u128, b: u128|
            self@.machines.dom().contains(a) && self@.machines.dom().contains(b) && a
                != b implies (#[trigger] self@.machines[a]).spec_config().name@ != (
        #[trigger] self@.machines[b]).spec_config().name@ by {
            let i = choose|i: int|
                0 <= i < self.machines@.len() && self.machines@[i].spec_id()@ == a
                    && self@.machines[a] == #[trigger] self.machines@[i];
            let j = choose|j: int|
                0 <= j < self.machines@.len() && self.machines@[j].spec_id()@ == b
                    && self@.machines[b] == #[trigger] self.machines@[j];
            assert(i != j);
        }
        assert forall|a: u128, b: u128|
            self@.networks.dom().contains(a) && self@.networks.dom().contains(b) && a
                != b implies (#[trigger] self@.networks[a]).spec_config().name@ != (
        #[trigger] self@.networks[b]).spec_config().name@ by {
            let i = choose|i: int|
                0 <= i < self.networks@.len() && self.networks@[i].spec_id()@ == a
                    && self@.networks[a] == #[trigger] self.networks@[i];
            let j = choose|j: int|
                0 <= j < self.networks@.len() && self.networks@[j].spec_id()@ == b
                    && self@.networks[b] == #[trigger] self.networks@[j];
            assert(i != j);
        }
    }

    /// An empty registry.
    pub fn new() -> (server: Server)
        ensures
            server.wf(),
            server@.machines == Map::<u128, Machine>::empty(),
            server@.networks == Map::<u128, Network>::empty(),
            server@.instances == Map::<u128, InstanceView>::empty(),
    {
        proof {
            lemma_assoc_empty(machine_key(), machine_itself());
            lemma_assoc_empty(network_key(), network_itself());
            lemma_assoc_empty(instance_key(), instance_view());
        }
        Server { machines: Vec::new(), networks: Vec::new(), instances: Vec::new() }
    }

    fn machine_position(&self, id: Id) -> (at: Option<usize>)
        requires
            self.wf(),
        ensures
            at.is_some() == self@.machines.dom().contains(id@),
            at.is_some() ==> at.unwrap() < self.machines@.len() && self.machines@[at.unwrap() as int].spec_id()
                == id && self@.machines[id@] == self.machines@[at.unwrap() as int],
    {
        let mut i: usize = 0;
        while i < self.machines.len()
            invariant
                self.wf(),
                i <= self.machines@.len(),
                forall|k: int| 0 <= k < i ==> (#[trigger] self.machines@[k]).spec_id()@ != id@,
            decreases self.machines@.len() - i,
        {
            if self.machines[i].id().0 == id.0 {
                proof {
                    lemma_assoc_at(self.machines@, machine_key(), machine_itself(), i as int);
                }
                return Some(i);
            }
            i = i + 1;
        }
        proof {
            lemma_assoc_absent(self.machines@, machine_key(), machine_itself(), id@);
        }
        None
    }

    fn network_position(&self, id: Id) -> (at: Option<usize>)
        requires
            self.wf(),
        ensures
            at.is_some() == self@.networks.dom().contains(id@),
            at.is_some() ==> at.unwrap() < self.networks@.len() && self.networks@[at.unwrap() as int].spec_id()
                == id && self@.networks[id@] == self.networks@[at.unwrap() as int],
    {
        let mut i: usize = 0;
        while i < self.networks.len()
            invariant
                self.wf(),
                i <= self.networks@.len(),
                forall|k: int| 0 <= k < i ==> (#[trigger] self.networks@[k]).spec_id()@ != id@,
            decreases self.networks@.len() - i,
        {
            if self.networks[i].id().0 == id.0 {
                proof {
                    lemma_assoc_at(self.networks@, network_key(), network_itself(), i as int);
                }
                return Some(i);
            }
            i = i + 1;
        }
        proof {
            lemma_assoc_absent(self.networks@, network_key(), network_itself(), id@);
        }
        None
    }

    fn instance_position(&self, id: Id) -> (at: Option<usize>)
        requires
            self.wf(),
        ensures
            at.is_some() == self@.instances.dom().contains(id@),
            at.is_some() ==> at.unwrap() < self.instances@.len() && self.instances@[at.unwrap() as int]@.id
                == id@ && self@.instances[id@] == self.instances@[at.unwrap() as int]@,
    {
        let mut i: usize = 0;
        while i < self.instances.len()
            invariant
                self.wf(),
                i <= self.instances@.len(),
                forall|k: int| 0 <= k < i ==> (#[trigger] self.instances@[k])@.id != id@,
            decreases self.instances@.len() - i,
        {
            if self.instances[i].id().0 == id.0 {
                proof {
                    lemma_assoc_at(self.instances@, instance_key(), instance_view(), i as int);
                }
                return Some(i);
            }
            i = i + 1;
        }
        proof {
            lemma_assoc_absent(self.instances@, instance_key(), instance_view(), id@);
        }
        None
    }

    fn machine_named(&self, name: &String) -> (at: Option<usize>)
        requires
            self.wf(),
        ensures
            at.is_some() == machine_name_taken(self@, name@),
            at.is_some() ==> at.unwrap() < self.machines@.len() && self.machines@[at.unwrap() as int].spec_config().name@
                == name@,
    {
        let mut i: usize = 0;
        while i < self.machines.len()
            invariant
                self.wf(),
                i <= self.machines@.len(),
                forall|k: int|
                    0 <= k < i ==> (#[trigger] self.machines@[k]).spec_config().name@ != name@,
            decreases self.machines@.len() - i,
        {
            if same_text(&self.machines[i].config().name, name) {
                proof {
                    lemma_assoc_at(self.machines@, machine_key(), machine_itself(), i as int);
                    assert(self@.machines.dom().contains(self.machines@[i as int].spec_id()@));
                }
                return Some(i);
            }
            i = i + 1;
        }
        proof {
            if machine_name_taken(self@, name@) {
                let id = choose|id: u128| #[trigger]
                    self@.machines.dom().contains(id) && self@.machines[id].spec_config().name@
                        == name@;
                let k = choose|k: int|
                    0 <= k < self.machines@.len() && machine_key()(#[trigger] self.machines@[k])
                        == id;
                lemma_assoc_at(self.machines@, machine_key(), machine_itself(), k);
            }
        }
        None
    }

    fn network_named(&self, name: &String) -> (at: Option<usize>)
        requires
            self.wf(),
        ensures
            at.is_some() == network_name_taken(self@, name@),
            at.is_some() ==> at.unwrap() < self.networks@.len() && self.networks@[at.unwrap() as int].spec_config().name@
                == name@,
    {
        let mut i: usize = 0;
        while i < self.networks.len()
            invariant
                self.wf(),
                i <= self.networks@.len(),
                forall|k: int|
                    0 <= k < i ==> (#[trigger] self.networks@[k]).spec_config().name@ != name@,
            decreases self.networks@.len() - i,
        {
            if same_text(&self.networks[i].config().name, name) {
                proof {
                    lemma_assoc_at(self.networks@, network_key(), network_itself(), i as int);
                    assert(self@.networks.dom().contains(self.networks@[i as int].spec_id()@));
                }
                return Some(i);
            }
            i = i + 1;
        }
        proof {
            if network_name_taken(self@, name@) {
                let id = choose|id: u128| #[trigger]
                    self@.networks.dom().contains(id) && self@.networks[id].spec_config().name@
                        == name@;
                let k = choose|k: int|
                    0 <= k < self.networks@.len() && network_key()(#[trigger] self.networks@[k])
                        == id;
                lemma_assoc_at(self.networks@, network_key(), network_itself(), k);
            }
        }
        None
    }

    /// The identifier of the entity of this kind with this name, if there
    /// is one.
    pub fn lookup(&self, kind: EntityKind, name: &String) -> (id: Option<Id>)
        requires
            self.wf(),
        ensures
            match kind {
                EntityKind::Machine => id.is_some() == machine_name_taken(self@, name@) && (
                id.is_some() ==> self@.machines.dom().contains(id.unwrap()@)
                    && self@.machines[id.unwrap()@].spec_config().name@ == name@),
                EntityKind::Network => id.is_some() == network_name_taken(self@, name@) && (
                id.is_some() ==> self@.networks.dom().contains(id.unwrap()@)
                    && self@.networks[id.unwrap()@].spec_config().name@ == name@),
            },
    {
        match kind {
            EntityKind::Machine => match self.machine_named(name) {
                None => None,
                Some(i) => {
                    proof {
                        lemma_assoc_at(self.machines@, machine_key(), machine_itself(), i as int);
                    }
                    Some(*self.machines[i].id())
                },
            },
            EntityKind::Network => match self.network_named(name) {
                None => None,
                Some(i) => {
                    proof {
                        lemma_assoc_at(self.networks@, network_key(), network_itself(), i as int);
                    }
                    Some(*self.networks[i].id())
                },
            },
        }
    }

    /// Whether a machine has the identifier.
    pub fn has_machine(&self, id: Id) -> (found: bool)
        requires
            self.wf(),
        ensures
            found == self@.machines.dom().contains(id@),
    {
        self.machine_position(id).is_some()
    }

    /// Whether a network has the identifier.
    pub fn has_network(&self, id: Id) -> (found: bool)
        requires
            self.wf(),
        ensures
            found == self@.networks.dom().contains(id@),
    {
        self.network_position(id).is_some()
    }

    /// Whether an instance has the identifier.
    pub fn has_instance(&self, id: Id) -> (found: bool)
        requires
            self.wf(),
        ensures
            found == self@.instances.dom().contains(id@),
    {
        self.instance_position(id).is_some()
    }

    /// The machine with the identifier, if there is one.
    pub fn machine(&self, id: Id) -> (machine: Option<&Machine>)
        requires
            self.wf(),
        ensures
            machine.is_some() == self@.machines.dom().contains(id@),
            machine.is_some() ==> *machine.unwrap() == self@.machines[id@],
    {
        match self.machine_position(id) {
            None => None,
            Some(i) => Some(&self.machines[i]),
        }
    }

    /// The network with the identifier, if there is one.
    pub fn network(&self, id: Id) -> (network: Option<&Network>)
        requires
            self.wf(),
        ensures
            network.is_some() == self@.networks.dom().contains(id@),
            network.is_some() ==> *network.unwrap() == self@.networks[id@],
    {
        match self.network_position(id) {
            None => None,
            Some(i) => Some(&self.networks[i]),
        }
    }

    /// The instance with the identifier, if there is one.
    pub fn instance(&self, id: Id) -> (instance: Option<&Instance>)
        requires
            self.wf(),
        ensures
            instance.is_some() == self@.instances.dom().contains(id@),
            instance.is_some() ==> instance.unwrap()@ == self@.instances[id@],
    {
        match self.instance_position(id) {
            None => None,
            Some(i) => Some(&self.instances[i]),
        }
    }

    /// Files a machine, unless its identifier or its name is taken.
    pub fn add_machine(&mut self, machine: Machine) -> (r: Result<(), ServerError>)
        requires
            old(self).wf(),
        ensures
            final(self).wf(),
            match machine_added(old(self)@, machine) {
                Ok(state) => r.is_ok() && final(self)@ == state,
                Err(e) => r == Err::<(), ServerError>(e) && final(self)@ == old(self)@,
            },
    {
        if self.machine_position(*machine.id()).is_some() {
            return Err(ServerError::DuplicateId);
        }
        if self.machine_named(&machine.config().name).is_some() {
            return Err(ServerError::DuplicateName(EntityKind::Machine));
        }
        proof {
            lemma_assoc_push(self.machines@, machine_key(), machine_itself(), machine);
            assert forall|k: int| 0 <= k < self.machines@.len() implies (
            #[trigger] self.machines@[k]).spec_config().name@ != machine.spec_config().name@ by {
                lemma_assoc_at(self.machines@, machine_key(), machine_itself(), k);
                assert(self@.machines.dom().contains(self.machines@[k].spec_id()@));
            }
        }
        self.machines.push(machine);
        Ok(())
    }

    /// Files a network, unless its identifier or its name is taken.
    pub fn add_network(&mut self, network: Network) -> (r: Result<(), ServerError>)
        requires
            old(self).wf(),
        ensures
            final(self).wf(),
            match network_added(old(self)@, network) {
                Ok(state) => r.is_ok() && final(self)@ == state,
                Err(e) => r == Err::<(), ServerError>(e) && final(self)@ == old(self)@,
            },
    {
        if self.network_position(*network.id()).is_some() {
            return Err(ServerError::DuplicateId);
        }
        if self.network_named(&network.config().name).is_some() {
            return Err(ServerError::DuplicateName(EntityKind::Network));
        }
        proof {
            lemma_assoc_push(self.networks@, network_key(), network_itself(), network);
            assert forall|k: int| 0 <= k < self.networks@.len() implies (
            #[trigger] self.networks@[k]).spec_config().name@ != network.spec_config().name@ by {
                lemma_assoc_at(self.networks@, network_key(), network_itself(), k);
                assert(self@.networks.dom().contains(self.networks@[k].spec_id()@));
            }
        }
        self.networks.push(network);
        Ok(())
    }

    /// Files an instance, unless its identifier is taken or its machine or
    /// network is not in the registry.
    pub fn add_instance(&mut self, instance: Instance) -> (r: Result<(), ServerError>)
        requires
            old(self).wf(),
        ensures
            final(self).wf(),
            match instance_added(old(self)@, instance@) {
                Ok(state) => r.is_ok() && final(self)@ == state,
                Err(e) => r == Err::<(), ServerError>(e) && final(self)@ == old(self)@,
            },
    {
        if self.instance_position(*instance.id()).is_some() {
            return Err(ServerError::DuplicateId);
        }
        if self.machine_position(*instance.machine().id()).is_none() {
            return Err(ServerError::MachineNotFound);
        }
        if self.network_position(*instance.network().id()).is_none() {
            return Err(ServerError::NetworkNotFound);
        }
        proof {
            lemma_assoc_push(self.instances@, instance_key(), instance_view(), instance);
        }
        self.instances.push(instance);
        Ok(())
    }

    /// Files the machines that were read from disk, in order. The first
    /// one whose identifier or name is taken ends the reading with its
    /// error.
    pub fn read_machines(&mut self, loaded: Vec<Machine>) -> (r: Result<(), ServerError>)
        requires
            old(self).wf(),
        ensures
            final(self).wf(),
            match machines_read(old(self)@, loaded@, loaded@.len() as int) {
                Ok(state) => r.is_ok() && final(self)@ == state,
                Err(e) => r == Err::<(), ServerError>(e),
            },
    {
        let ghost all = loaded@;
        let ghost start = self@;
        let mut rest = loaded;
        let count: usize = rest.len();
        let mut i: usize = 0;
        while i < count
            invariant
                self.wf(),
                i <= count,
                count == all.len(),
                all == loaded@,
                start == old(self)@,
                rest@ == all.subrange(i as int, count as int),
                machines_read(start, all, i as int) == Ok::<ServerView, ServerError>(self@),
            decreases count - i,
        {
            let machine = rest.remove(0);
            proof {
                assert(machine == all[i as int]);
                assert(rest@ =~= all.subrange(i + 1, count as int));
                lemma_machines_read_fails(start, all, i + 1, count as int);
            }
            match self.add_machine(machine) {
                Err(e) => {
                    return Err(e);
                },
                Ok(()) => {},
            }
            i = i + 1;
        }
        Ok(())
    }

    /// Files the networks that were read from disk, in order. The first
    /// one whose identifier or name is taken ends the reading with its
    /// error.
    pub fn read_networks(&mut self, loaded: Vec<Network>) -> (r: Result<(), ServerError>)
        requires
            old(self).wf(),
        ensures
            final(self).wf(),
            match networks_read(old(self)@, loaded@, loaded@.len() as int) {
                Ok(state) => r.is_ok() && final(self)@ == state,
                Err(e) => r == Err::<(), ServerError>(e),
            },
    {
        let ghost all = loaded@;
        let ghost start = self@;
        let mut rest = loaded;
        let count: usize = rest.len();
        let mut i: usize = 0;
        while i < count
            invariant
                self.wf(),
                i <= count,
                count == all.len(),
                all == loaded@,
                start == old(self)@,
                rest@ == all.subrange(i as int, count as int),
                networks_read(start, all, i as int) == Ok::<ServerView, ServerError>(self@),
            decreases count - i,
        {
            let network = rest.remove(0);
            proof {
                assert(network == all[i as int]);
                assert(rest@ =~= all.subrange(i + 1, count as int));
                lemma_networks_read_fails(start, all, i + 1, count as int);
            }
            match self.add_network(network) {
                Err(e) => {
                    return Err(e);
                },
                Ok(()) => {},
            }
            i = i + 1;
        }
        Ok(())
    }

    /// Files the instances that were read from disk, in order. The first
    /// one whose identifier is taken, or whose machine or network is not
    /// in the registry, ends the reading with its error.
    pub fn read_instances(&mut self, loaded: Vec<Instance>) -> (r: Result<(), ServerError>)
        requires
            old(self).wf(),
        ensures
            final(self).wf(),
            match instances_read(old(self)@, instance_views(loaded@), loaded@.len() as int) {
                Ok(state) => r.is_ok() && final(self)@ == state,
                Err(e) => r == Err::<(), ServerError>(e),
            },
    {
        let ghost all = instance_views(loaded@);
        let ghost start = self@;
        let mut rest = loaded;
        let count: usize = rest.len();
        let mut i: usize = 0;
        while i < count
            invariant
                self.wf(),
                i <= count,
                count == all.len(),
                all == instance_views(loaded@),
                start == old(self)@,
                rest@.len() == count - i,
                instance_views(rest@) == all.subrange(i as int, count as int),
                instances_read(start, all, i as int) == Ok::<ServerView, ServerError>(self@),
            decreases count - i,
        {
            let ghost before = rest@;
            let instance = rest.remove(0);
            proof {
                assert(instance_views(before)[0] == all.subrange(i as int, count as int)[0]);
                assert(instance@ == all[i as int]);
                assert(instance_views(rest@) =~= all.subrange(i + 1, count as int)) by {
                    assert forall|k: int| 0 <= k < rest@.len() implies instance_views(rest@)[k]
                        == all.subrange(i + 1, count as int)[k] by {
                        assert(instance_views(before)[k + 1] == all.subrange(
                            i as int,
                            count as int,
                        )[k + 1]);
                    }
                }
                lemma_instances_read_fails(start, all, i + 1, count as int);
            }
            match self.add_instance(instance) {
                Err(e) => {
                    return Err(e);
                },
                Ok(()) => {},
            }
            i = i + 1;
        }
        Ok(())
    }

    /// Files everything that was read from disk: the machines, then the
    /// networks, then the instances.
    pub fn read_all(
        &mut self,
        machines: Vec<Machine>,
        networks: Vec<Network>,
        instances: Vec<Instance>,
    ) -> (r: Result<(), ServerError>)
        requires
            old(self).wf(),
        ensures
            final(self).wf(),
            match machines_read(old(self)@, machines@, machines@.len() as int) {
                Err(e) => r == Err::<(), ServerError>(e),
                Ok(first) => match networks_read(first, networks@, networks@.len() as int) {
                    Err(e) => r == Err::<(), ServerError>(e),
                    Ok(second) => match instances_read(
                        second,
                        instance_views(instances@),
                        instances@.len() as int,
                    ) {
                        Err(e) => r == Err::<(), ServerError>(e),
                        Ok(state) => r.is_ok() && final(self)@ == state,
                    },
                },
            },
    {
        match self.read_machines(machines) {
            Err(e) => {
                return Err(e);
            },
            Ok(()) => {},
        }
        match self.read_networks(networks) {
            Err(e) => {
                return Err(e);
            },
            Ok(()) => {},
        }
        self.read_instances(instances)
    }

    /// A random identifier that no machine has. Identifiers are drawn until
    /// one is free, at most `ID_ATTEMPTS` times.
    pub fn new_machine_id(&self) -> (r: Result<Id, ServerError>)
        requires
            self.wf(),
        ensures
            match r {
                Ok(id) => !self@.machines.dom().contains(id@),
                Err(e) => e == ServerError::NoEntropy || e == ServerError::NoFreeId,
            },
    {
        let mut attempt: usize = 0;
        while attempt < ID_ATTEMPTS
            invariant
                self.wf(),
                attempt <= ID_ATTEMPTS,
            decreases ID_ATTEMPTS - attempt,
        {
            match Id::new() {
                Err(_) => {
                    return Err(ServerError::NoEntropy);
                },
                Ok(id) => {
                    if self.machine_position(id).is_none() {
                        return Ok(id);
                    }
                },
            }
            attempt = attempt + 1;
        }
        Err(ServerError::NoFreeId)
    }

    /// A random identifier that no network has.
    pub fn new_network_id(&self) -> (r: Result<Id, ServerError>)
        requires
            self.wf(),
        ensures
            match r {
                Ok(id) => !self@.networks.dom().contains(id@),
                Err(e) => e == ServerError::NoEntropy || e == ServerError::NoFreeId,
            },
    {
        let mut attempt: usize = 0;
        while attempt < ID_ATTEMPTS
            invariant
                self.wf(),
                attempt <= ID_ATTEMPTS,
            decreases ID_ATTEMPTS - attempt,
        {
            match Id::new() {
                Err(_) => {
                    return Err(ServerError::NoEntropy);
                },
                Ok(id) => {
                    if self.network_position(id).is_none() {
                        return Ok(id);
                    }
                },
            }
            attempt = attempt + 1;
        }
        Err(ServerError::NoFreeId)
    }

    /// A random identifier that no instance has.
    pub fn new_instance_id(&self) -> (r: Result<Id, ServerError>)
        requires
            self.wf(),
        ensures
            match r {
                Ok(id) => !self@.instances.dom().contains(id@),
                Err(e) => e == ServerError::NoEntropy || e == ServerError::NoFreeId,
            },
    {
        let mut attempt: usize = 0;
        while attempt < ID_ATTEMPTS
            invariant
                self.wf(),
                attempt <= ID_ATTEMPTS,
            decreases ID_ATTEMPTS - attempt,
        {
            match Id::new() {
                Err(_) => {
                    return Err(ServerError::NoEntropy);
                },
                Ok(id) => {
                    if self.instance_position(id).is_none() {
                        return Ok(id);
                    }
                },
            }
            attempt = attempt + 1;
        }
        Err(ServerError::NoFreeId)
    }

    /// Creates a machine under a fresh identifier and files it. A name
    /// that another machine has is refused.
    pub fn create_machine(&mut self, config: MachineConfig) -> (r: Result<Id, ServerError>)
        requires
            old(self).wf(),
        ensures
            final(self).wf(),
            match r {
                Ok(id) => {
                    &&& final(self)@.machines.dom().contains(id@)
                    &&& final(self)@.machines[id@].spec_id() == id
                    &&& final(self)@.machines[id@].spec_config() == config
                    &&& machine_added(old(self)@, final(self)@.machines[id@]) == Ok::<
                        ServerView,
                        ServerError,
                    >(final(self)@)
                },
                Err(e) => {
                    &&& final(self)@ == old(self)@
                    &&& e == ServerError::DuplicateName(EntityKind::Machine) || e
                        == ServerError::NoEntropy || e == ServerError::NoFreeId
                    &&& e == ServerError::DuplicateName(EntityKind::Machine)
                        ==> machine_name_taken(old(self)@, config.name@)
                },
            },
    {
        let id = match self.new_machine_id() {
            Err(e) => {
                return Err(e);
            },
            Ok(id) => id,
        };
        match self.add_machine(Machine::new(id, config)) {
            Err(e) => Err(e),
            Ok(()) => Ok(id),
        }
    }

    /// Creates a network under a fresh identifier and files it. A name
    /// that another network has is refused.
    pub fn create_network(&mut self, config: NetworkConfig) -> (r: Result<Id, ServerError>)
        requires
            old(self).wf(),
        ensures
            final(self).wf(),
            match r {
                Ok(id) => {
                    &&& final(self)@.networks.dom().contains(id@)
                    &&& final(self)@.networks[id@].spec_id() == id
                    &&& final(self)@.networks[id@].spec_config() == config
                    &&& network_added(old(self)@, final(self)@.networks[id@]) == Ok::<
                        ServerView,
                        ServerError,
                    >(final(self)@)
                },
                Err(e) => {
                    &&& final(self)@ == old(self)@
                    &&& e == ServerError::DuplicateName(EntityKind::Network) || e
                        == ServerError::NoEntropy || e == ServerError::NoFreeId
                    &&& e == ServerError::DuplicateName(EntityKind::Network)
                        ==> network_name_taken(old(self)@, config.name@)
                },
            },
    {
        let id = match self.new_network_id() {
            Err(e) => {
                return Err(e);
            },
            Ok(id) => id,
        };
        match self.add_network(Network::with_config(id, config)) {
            Err(e) => Err(e),
            Ok(()) => Ok(id),
        }
    }

    /// Creates an instance of a machine on a network, both of the
    /// registry, under a fresh identifier, and files it. The state is what
    /// the caller writes to the instance's state file.
    pub fn create_instance(&mut self, machine_id: Id, network_id: Id) -> (r: Result<
        InstanceState,
        ServerError,
    >)
        requires
            old(self).wf(),
        ensures
            final(self).wf(),
            instance_created(old(self)@, final(self)@, machine_id, network_id, r),
    {
        let machine = match self.machine_position(machine_id) {
            None => {
                return Err(ServerError::MachineNotFound);
            },
            Some(i) => self.machines[i].duplicate(),
        };
        let network = match self.network_position(network_id) {
            None => {
                return Err(ServerError::NetworkNotFound);
            },
            Some(i) => self.networks[i].duplicate(),
        };
        let id = match self.new_instance_id() {
            Err(e) => {
                return Err(e);
            },
            Ok(id) => id,
        };
        match Instance::new(id, machine, network, false) {
            Err(e) => Err(ServerError::Instance(e)),
            Ok((instance, state)) => {
                match self.add_instance(instance) {
                    Err(e) => Err(e),
                    Ok(()) => Ok(state),
                }
            },
        }
    }

    fn others_running(&self, id: Id, network: Id) -> (found: bool)
        requires
            self.wf(),
        ensures
            found == exists|other: u128| other != id@ && running_on(self@, network@).contains(other),
    {
        let mut i: usize = 0;
        while i < self.instances.len()
            invariant
                self.wf(),
                i <= self.instances@.len(),
                forall|k: int|
                    0 <= k < i ==> !((#[trigger] self.instances@[k])@.id != id@
                        && self.instances@[k]@.status == InstanceStatus::Running
                        && self.instances@[k]@.network.spec_id()@ == network@),
            decreases self.instances@.len() - i,
        {
            let instance = &self.instances[i];
            let running = match instance.status() {
                InstanceStatus::Running => true,
                _ => false,
            };
            if instance.id().0 != id.0 && running && instance.network().id().0 == network.0 {
                proof {
                    lemma_assoc_at(self.instances@, instance_key(), instance_view(), i as int);
                    assert(running_on(self@, network@).contains(self.instances@[i as int]@.id));
                }
                return true;
            }
            i = i + 1;
        }
        proof {
            if exists|other: u128| other != id@ && running_on(self@, network@).contains(other) {
                let other = choose|other: u128|
                    other != id@ && running_on(self@, network@).contains(other);
                let k = choose|k: int|
                    0 <= k < self.instances@.len() && instance_key()(
                        #[trigger] self.instances@[k],
                    ) == other;
                lemma_assoc_at(self.instances@, instance_key(), instance_view(), k);
            }
        }
        false
    }

    /// Starts the instance `id`: it runs afterwards. Its bridge is created
    /// if no running instance was on its network, and found otherwise.
    pub fn start_instance(&mut self, id: &Id) -> (r: Result<ServerStart, ServerError>)
        requires
            old(self).wf(),
        ensures
            final(self).wf(),
            !old(self)@.instances.dom().contains(id@) ==> r == Err::<ServerStart, ServerError>(
                ServerError::InstanceNotFound,
            ) && final(self)@ == old(self)@,
            old(self)@.instances.dom().contains(id@) ==> {
                &&& r.is_ok()
                &&& final(self)@ == instance_started(old(self)@, id@)
                &&& r.unwrap().first_on_network == !bridge_up(
                    old(self)@,
                    old(self)@.instances[id@].network.spec_id()@,
                )
                &&& r.unwrap().plan.start_qemu == (old(self)@.instances[id@].status
                    != InstanceStatus::Running)
            },
    {
        let at = match self.instance_position(*id) {
            None => {
                return Err(ServerError::InstanceNotFound);
            },
            Some(at) => at,
        };
        let network = *self.instances[at].network().id();
        let was_running = match self.instances[at].status() {
            InstanceStatus::Running => true,
            _ => false,
        };
        let others = self.others_running(*id, network);
        proof {
            if was_running {
                assert(running_on(self@, network@).contains(id@));
            }
        }
        let ghost before = self@;
        proof {
            lemma_assoc_remove(self.instances@, instance_key(), instance_view(), at as int);
        }
        let mut instance = self.instances.remove(at);
        let plan = instance.start();
        proof {
            lemma_assoc_push(self.instances@, instance_key(), instance_view(), instance);
        }
        self.instances.push(instance);
        proof {
            assert(self@.instances =~= instance_started(before, id@).instances);
        }
        Ok(ServerStart { plan, first_on_network: !(others || was_running) })
    }

    /// Stops the instance `id`: it is stopped afterwards. If it ran, its
    /// TAP device is removed, and its network's bridge too when no other
    /// running instance is on the network.
    pub fn stop_instance(&mut self, id: Id) -> (r: Result<ServerStop, ServerError>)
        requires
            old(self).wf(),
        ensures
            final(self).wf(),
            !old(self)@.instances.dom().contains(id@) ==> r == Err::<ServerStop, ServerError>(
                ServerError::InstanceNotFound,
            ) && final(self)@ == old(self)@,
            old(self)@.instances.dom().contains(id@) ==> {
                let ran = old(self)@.instances[id@].status == InstanceStatus::Running;
                let network = old(self)@.instances[id@].network.spec_id()@;
                &&& r.is_ok()
                &&& final(self)@ == instance_stopped(old(self)@, id@)
                &&& r.unwrap().plan.wait_qemu == ran
                &&& r.unwrap().delete_tap.is_some() == ran
                &&& r.unwrap().delete_bridge.is_some() == (ran && !bridge_up(final(self)@, network))
                &&& r.unwrap().delete_tap.is_some() ==> r.unwrap().delete_tap.unwrap().commands()
                    == delete_commands(tap_name(id@)) && r.unwrap().delete_tap.unwrap().rules()
                    == delete_rules()
                &&& r.unwrap().delete_bridge.is_some()
                    ==> r.unwrap().delete_bridge.unwrap().commands() == delete_commands(
                    bridge_name(network),
                ) && r.unwrap().delete_bridge.unwrap().rules() == delete_rules()
            },
    {
        let at = match self.instance_position(id) {
            None => {
                return Err(ServerError::InstanceNotFound);
            },
            Some(at) => at,
        };
        let network = *self.instances[at].network().id();
        let others = self.others_running(id, network);
        let ghost before = self@;
        proof {
            lemma_assoc_remove(self.instances@, instance_key(), instance_view(), at as int);
        }
        let mut instance = self.instances.remove(at);
        let plan = instance.stop();
        let delete_tap = if plan.wait_qemu {
            Some(instance.network().delete_tap_device(&id))
        } else {
            None
        };
        let delete_bridge = if plan.wait_qemu && !others {
            Some(instance.network().delete_bridge_device())
        } else {
            None
        };
        proof {
            lemma_assoc_push(self.instances@, instance_key(), instance_view(), instance);
        }
        self.instances.push(instance);
        proof {
            let after = instance_stopped(before, id@);
            assert(self@.instances =~= after.instances);
            assert forall|other: u128|
                running_on(after, network@).contains(other) <==> other != id@ && running_on(
                    before,
                    network@,
                ).contains(other) by {}
            if others {
                let other = choose|other: u128|
                    other != id@ && running_on(before, network@).contains(other);
                assert(running_on(after, network@).contains(other));
            }
        }
        Ok(ServerStop { plan, delete_tap, delete_bridge })
    }
}

/// A refusal among the first `n` machines is the result for every longer
/// list.
pub proof fn lemma_machines_read_fails(state: ServerView, loaded: Seq<Machine>, n: int, m: int)
    requires
        0 <= n <= m,
    ensures
        machines_read(state, loaded, n) is Err ==> machines_read(state, loaded, m)
            == machines_read(state, loaded, n),
    decreases m - n,
{
    if n < m {
        lemma_machines_read_fails(state, loaded, n, m - 1);
    }
}

/// A refusal among the first `n` networks is the result for every longer
/// list.
pub proof fn lemma_networks_read_fails(state: ServerView, loaded: Seq<Network>, n: int, m: int)
    requires
        0 <= n <= m,
    ensures
        networks_read(state, loaded, n) is Err ==> networks_read(state, loaded, m)
            == networks_read(state, loaded, n),
    decreases m - n,
{
    if n < m {
        lemma_networks_read_fails(state, loaded, n, m - 1);
    }
}

/// A refusal among the first `n` instances is the result for every longer
/// list.
pub proof fn lemma_instances_read_fails(
    state: ServerView,
    loaded: Seq<InstanceView>,
    n: int,
    m: int,
)
    requires
        0 <= n <= m,
    ensures
        instances_read(state, loaded, n) is Err ==> instances_read(state, loaded, m)
            == instances_read(state, loaded, n),
    decreases m - n,
{
    if n < m {
        lemma_instances_read_fails(state, loaded, n, m - 1);
    }
}

/// The bridge of a network follows its running instances. With two
/// instances on a network on which no instance runs: starting the first
/// brings the bridge up, starting the second finds it up, stopping one of
/// them leaves it up, and stopping both takes it down.
pub proof fn lemma_bridge_follows_instances(state: ServerView, a: u128, b: u128, network: u128)
    requires
        a != b,
        state.instances.dom().contains(a),
        state.instances.dom().contains(b),
        state.instances[a].network.spec_id()@ == network,
        state.instances[b].network.spec_id()@ == network,
        !bridge_up(state, network),
    ensures
        bridge_up(instance_started(state, a), network),
        bridge_up(instance_started(instance_started(state, a), b), network),
        bridge_up(
            instance_stopped(instance_started(instance_started(state, a), b), a),
            network,
        ),
        !bridge_up(
            instance_stopped(
                instance_stopped(instance_started(instance_started(state, a), b), a),
                b,
            ),
            network,
        ),
{
    let s1 = instance_started(state, a);
    let s2 = instance_started(s1, b);
    let s3 = instance_stopped(s2, a);
    let s4 = instance_stopped(s3, b);
    assert(running_on(s1, network).contains(a));
    assert(running_on(s2, network).contains(a));
    assert(running_on(s3, network).contains(b));
    assert forall|id: u128| !running_on(s4, network).contains(id) by {
        if id != a && id != b {
            assert(s4.instances[id] == state.instances[id]);
            assert(!running_on(state, network).contains(id));
        }
    }
}

/// Starting an instance brings the bridge of its network up, and the
/// bridges of the other networks stay as they were.
pub proof fn lemma_start_keeps_bridges(state: ServerView, id: u128, network: u128)
    requires
        state.instances.dom().contains(id),
    ensures
        bridge_up(instance_started(state, id), state.instances[id].network.spec_id()@),
        network != state.instances[id].network.spec_id()@ ==> (bridge_up(
            instance_started(state, id),
            network,
        ) <==> bridge_up(state, network)),
{
    let after = instance_started(state, id);
    assert(running_on(after, state.instances[id].network.spec_id()@).contains(id));
    if network != state.instances[id].network.spec_id()@ {
        if bridge_up(state, network) {
            let other = choose|other: u128| running_on(state, network).contains(other);
            assert(running_on(after, network).contains(other));
        }
        if bridge_up(after, network) {
            let other = choose|other: u128| running_on(after, network).contains(other);
            assert(running_on(state, network).contains(other));
        }
    }
}

} // verus!
