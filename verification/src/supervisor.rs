//! The supervisor of a configuration file: it brings every machine up on
//! its network, keeps count of the machines on each bridge, and takes a
//! bridge down with the last machine on it.

use crate::assoc::{
    assoc_map, distinct_keys, lemma_assoc_absent, lemma_assoc_at, lemma_assoc_empty,
    lemma_assoc_push, lemma_assoc_remove,
};
use crate::config::Config;
use crate::id::{id_text, Id};
use crate::net::{
    bridge_name, create_bridge_device, create_bridge_rules, create_tap_device, create_tap_rules,
    delete_bridge_device, delete_tap_device, get_bridge_name, get_tap_name,
    tap_name,
};
use crate::network::{bridge_up_commands, delete_commands, delete_rules, tap_up_commands};
use crate::script::{Script, Spawn};
use crate::instance::{lemma_views_concat, qemu_base_arg_list, qemu_base_args, shares_args};
use crate::share_dir::{generate_tag, virtiofsd_args, ShareDir, ShareDirError, ShareDirView};
use crate::text::views;
use crate::vmm_dirs::{join_path, path_join};
use vstd::prelude::*;
use vstd::string::*;

verus! {

/// The stream that a line was read from.
#[derive(Debug, Clone, Copy, PartialEq, Eq, Structural)]
pub enum LogStream {
    Stdout,
    Stderr,
}

/// The program that wrote a line.
#[derive(Debug, Clone, Copy, PartialEq, Eq, Structural)]
pub enum LogSource {
    Qemu,
    Virtiofs,
}

/// One line of a subprocess's output.
#[derive(Debug, PartialEq, Eq)]
pub struct LogLine {
    pub id: Id,
    pub stream: LogStream,
    pub source: LogSource,
    pub line: String,
}

/// The name of a source, filled with spaces in front to eight characters.
pub open spec fn source_label(source: LogSource) -> Seq<char> {
    match source {
        LogSource::Qemu => "    qemu"@,
        LogSource::Virtiofs => "virtiofs"@,
    }
}

/// The name of a stream.
pub open spec fn stream_label(stream: LogStream) -> Seq<char> {
    match stream {
        LogStream::Stdout => "stdout"@,
        LogStream::Stderr => "stderr"@,
    }
}

impl LogLine {
    /// The line as the supervisor prints it: the identifier, the source in
    /// eight characters, the stream, a bar, and the text.
    pub fn render(&self) -> (text: String)
        ensures
            text@ == id_text(self.id@) + " "@ + source_label(self.source) + " "@ + stream_label(
                self.stream,
            ) + " | "@ + self.line@,
    {
        let mut text = self.id.to_string();
        text.append(" ");
        text.append(
            match self.source {
                LogSource::Qemu => "    qemu",
                LogSource::Virtiofs => "virtiofs",
            },
        );
        text.append(" ");
        text.append(
            match self.stream {
                LogStream::Stdout => "stdout",
                LogStream::Stderr => "stderr",
            },
        );
        text.append(" | ");
        text.append(self.line.as_str());
        text
    }
}

/// Why the supervisor refused.
#[derive(Debug, Clone, Copy, PartialEq, Eq, Structural)]
pub enum SupervisorError {
    /// The machine runs already.
    MachineRunning,
    /// No running machine has the identifier.
    MachineNotFound,
    /// The machine's network is not counted.
    NetworkNotFound,
    /// The network cannot count one more machine.
    TooManyMachines,
    /// A tag for a shared directory could not be drawn.
    Tag(ShareDirError),
}

/// A running machine.
#[derive(Debug, Clone, Copy, PartialEq, Eq)]
pub struct Machine {
    pub id: Id,
    pub network: Id,
    /// The number of the machine's `virtiofsd` daemons.
    pub virtiofs: usize,
}

/// A network with a bridge, and the number of running machines on it.
#[derive(Debug, Clone, Copy, PartialEq, Eq)]
pub struct Network {
    pub id: Id,
    pub children: i32,
}

/// The supervisor.
pub struct Supervisor {
    config: Config,
    machines: Vec<Machine>,
    networks: Vec<Network>,
    machines_dir: String,
    virtiofs_tags: Vec<String>,
}

/// The supervisor as contracts see it.
pub struct SupervisorView {
    /// The network of each running machine.
    pub machines: Map<u128, u128>,
    /// The number of running machines on each network that has a bridge.
    pub networks: Map<u128, i32>,
    /// The tags that were given to shared directories.
    pub tags: Seq<Seq<char>>,
}

/// What bringing a machine up takes, in this order.
#[derive(Debug, PartialEq, Eq)]
pub struct StartOrder {
    /// The creation of the network's bridge, if the machine is the first on
    /// the network.
    pub bridge: Option<Script>,
    /// The creation of the machine's TAP device.
    pub tap: Script,
    /// The daemons of the shared directories.
    pub virtiofs: Vec<Spawn>,
    /// The machine's state directory, to be made.
    pub machine_dir: String,
    /// QEMU.
    pub qemu: Spawn,
}

/// What taking a machine down takes, in this order.
#[derive(Debug, PartialEq, Eq)]
pub struct StopOrder {
    /// The number of `virtiofsd` daemons to kill, after QEMU.
    pub virtiofs: usize,
    /// The removal of the machine's TAP device.
    pub tap: Script,
    /// The removal of the network's bridge, if the machine was the last
    /// on the network.
    pub bridge: Option<Script>,
}

/// Reads the identifier of a running machine.
pub closed spec fn running_key() -> spec_fn(Machine) -> u128 {
    |m: Machine| m.id@
}

/// Reads the network of a running machine.
pub closed spec fn running_network() -> spec_fn(Machine) -> u128 {
    |m: Machine| m.network@
}

/// Reads the identifier of a counted network.
pub closed spec fn counted_key() -> spec_fn(Network) -> u128 {
    |n: Network| n.id@
}

/// Reads the count of a network.
pub closed spec fn counted_children() -> spec_fn(Network) -> i32 {
    |n: Network| n.children
}

/// The networks after one more machine runs on `network`.
pub open spec fn counted_up(networks: Map<u128, i32>, network: u128) -> Map<u128, i32> {
    if networks.dom().contains(network) {
        networks.insert(network, (networks[network] + 1) as i32)
    } else {
        networks.insert(network, 1)
    }
}

/// The networks after one machine less runs on `network`: a network
/// without machines is no longer counted.
pub open spec fn counted_down(networks: Map<u128, i32>, network: u128) -> Map<u128, i32> {
    if networks[network] == 1 {
        networks.remove(network)
    } else {
        networks.insert(network, (networks[network] - 1) as i32)
    }
}

/// The shared directories of a machine under the given tags, one for each
/// path, in order.
pub open spec fn shares_of(machine: crate::config::Machine, tags: Seq<Seq<char>>) -> Seq<
    ShareDirView,
> {
    Seq::new(
        machine.virtiofs@.len(),
        |i: int|
            ShareDirView {
                instance_id: machine.id@,
                instance_memory: machine.memory,
                tag: tags[i],
                path: machine.virtiofs@[i]@,
                running: false,
            },
    )
}

/// The arguments for the first `n` shared directories depend on those
/// directories alone.
pub proof fn lemma_shares_args_agree(a: Seq<ShareDirView>, b: Seq<ShareDirView>, n: int)
    requires
        forall|k: int| 0 <= k < n ==> a[k] == b[k],
    ensures
        shares_args(a, n) == shares_args(b, n),
    decreases n,
{
    if n > 1 {
        lemma_shares_args_agree(a, b, n - 1);
    }
}

impl Supervisor {
    /// The supervisor as contracts see it.
    pub closed spec fn view(&self) -> SupervisorView {
        SupervisorView {
            machines: assoc_map(self.machines@, running_key(), running_network()),
            networks: assoc_map(self.networks@, counted_key(), counted_children()),
            tags: views(self.virtiofs_tags@),
        }
    }

    /// The configuration.
    pub closed spec fn spec_config(&self) -> Config {
        self.config
    }

    /// The directory of the machines' state directories.
    pub closed spec fn spec_machines_dir(&self) -> Seq<char> {
        self.machines_dir@
    }

    /// The supervisor is consistent: no machine runs twice, no network is
    /// counted twice, and every counted network has a machine.
    pub closed spec fn wf(&self) -> bool {
        &&& distinct_keys(self.machines@, running_key())
        &&& distinct_keys(self.networks@, counted_key())
        &&& forall|i: int| 0 <= i < self.networks@.len() ==> (#[trigger] self.networks@[i]).children >= 1
    }

    /// Every counted network has at least one machine.
    pub proof fn lemma_counts_positive(&self)
        requires
            self.wf(),
        ensures
            forall|n: u128| #[trigger] self@.networks.dom().contains(n) ==> self@.networks[n] >= 1,
    {
        assert forall|n: u128| #[trigger] self@.networks.dom().contains(n) implies self@.networks[n]
            >= 1 by {
            let i = choose|i: int|
                0 <= i < self.networks@.len() && counted_key()(#[trigger] self.networks@[i]) == n;
            lemma_assoc_at(self.networks@, counted_key(), counted_children(), i);
        }
    }

    /// A supervisor of a configuration, with the machines' state
    /// directories below `state_dir`. Nothing runs yet.
    pub fn new(config: Config, state_dir: &str) -> (supervisor: Supervisor)
        ensures
            supervisor.wf(),
            supervisor.spec_config() == config,
            supervisor.spec_machines_dir() == path_join(state_dir@, "machines"@),
            supervisor@.machines == Map::<u128, u128>::empty(),
            supervisor@.networks == Map::<u128, i32>::empty(),
            supervisor@.tags == Seq::<Seq<char>>::empty(),
    {
        proof {
            lemma_assoc_empty(running_key(), running_network());
            lemma_assoc_empty(counted_key(), counted_children());
        }
        let supervisor = Supervisor {
            config,
            machines: Vec::new(),
            networks: Vec::new(),
            machines_dir: join_path(state_dir, "machines"),
            virtiofs_tags: Vec::new(),
        };
        assert(supervisor@.tags =~= Seq::<Seq<char>>::empty());
        supervisor
    }

    /// The configuration.
    pub fn config(&self) -> (config: &Config)
        ensures
            *config == self.spec_config(),
    {
        &self.config
    }

    /// The identifiers of the running machines, in the order in which they
    /// were brought up.
    pub fn running(&self) -> (ids: Vec<Id>)
        requires
            self.wf(),
        ensures
            forall|id: Id| ids@.contains(id) <==> self@.machines.dom().contains(id@),
            ids@.no_duplicates(),
    {
        let mut ids: Vec<Id> = Vec::new();
        let mut i: usize = 0;
        while i < self.machines.len()
            invariant
                self.wf(),
                i <= self.machines@.len(),
                ids@.len() == i,
                forall|k: int| 0 <= k < i ==> ids@[k] == self.machines@[k].id,
            decreases self.machines@.len() - i,
        {
            ids.push(self.machines[i].id);
            i = i + 1;
        }
        proof {
            assert forall|id: Id| ids@.contains(id) <==> self@.machines.dom().contains(id@) by {
                if ids@.contains(id) {
                    let k = choose|k: int| 0 <= k < ids@.len() && ids@[k] == id;
                    lemma_assoc_at(self.machines@, running_key(), running_network(), k);
                }
                if self@.machines.dom().contains(id@) {
                    let k = choose|k: int|
                        0 <= k < self.machines@.len() && running_key()(
                            #[trigger] self.machines@[k],
                        ) == id@;
                    assert(ids@[k] == id);
                }
            }
            assert forall|a: int, b: int|
                0 <= a < ids@.len() && 0 <= b < ids@.len() && a != b implies ids@[a] != ids@[b] by {
                assert(running_key()(self.machines@[a]) != running_key()(self.machines@[b]));
            }
        }
        ids
    }

    fn machine_position(&self, id: Id) -> (at: Option<usize>)
        requires
            self.wf(),
        ensures
            at.is_some() == self@.machines.dom().contains(id@),
            at.is_some() ==> at.unwrap() < self.machines@.len() && self.machines@[at.unwrap() as int].id
                == id && self@.machines[id@] == self.machines@[at.unwrap() as int].network@,
    {
        let mut i: usize = 0;
        while i < self.machines.len()
            invariant
                self.wf(),
                i <= self.machines@.len(),
                forall|k: int| 0 <= k < i ==> (#[trigger] self.machines@[k]).id@ != id@,
            decreases self.machines@.len() - i,
        {
            if self.machines[i].id.0 == id.0 {
                proof {
                    lemma_assoc_at(self.machines@, running_key(), running_network(), i as int);
                }
                return Some(i);
            }
            i = i + 1;
        }
        proof {
            lemma_assoc_absent(self.machines@, running_key(), running_network(), id@);
        }
        None
    }

    fn network_position(&self, id: Id) -> (at: Option<usize>)
        requires
            self.wf(),
        ensures
            at.is_some() == self@.networks.dom().contains(id@),
            at.is_some() ==> at.unwrap() < self.networks@.len() && self.networks@[at.unwrap() as int].id
                == id && self@.networks[id@] == self.networks@[at.unwrap() as int].children,
    {
        let mut i: usize = 0;
        while i < self.networks.len()
            invariant
                self.wf(),
                i <= self.networks@.len(),
                forall|k: int| 0 <= k < i ==> (#[trigger] self.networks@[k]).id@ != id@,
            decreases self.networks@.len() - i,
        {
            if self.networks[i].id.0 == id.0 {
                proof {
                    lemma_assoc_at(self.networks@, counted_key(), counted_children(), i as int);
                }
                return Some(i);
            }
            i = i + 1;
        }
        proof {
            lemma_assoc_absent(self.networks@, counted_key(), counted_children(), id@);
        }
        None
    }

    /// A random tag that no shared directory has; it is taken from now on.
    pub fn generate_virtiofs_tag(&mut self) -> (r: Result<String, ShareDirError>)
        requires
            old(self).wf(),
        ensures
            final(self).wf(),
            final(self)@.machines == old(self)@.machines,
            final(self)@.networks == old(self)@.networks,
            final(self).spec_config() == old(self).spec_config(),
            final(self).spec_machines_dir() == old(self).spec_machines_dir(),
            match r {
                Ok(tag) => tag@.len() == 8 && !old(self)@.tags.contains(tag@) && final(self)@.tags
                    == old(self)@.tags.push(tag@),
                Err(e) => (e == ShareDirError::NoEntropy || e == ShareDirError::NoFreeTag)
                    && final(self)@.tags == old(self)@.tags,
            },
    {
        match generate_tag(&self.virtiofs_tags) {
            Err(e) => Err(e),
            Ok(tag) => {
                self.virtiofs_tags.push(tag.clone());
                proof {
                    assert(views(self.virtiofs_tags@) =~= old(self)@.tags.push(tag@));
                }
                Ok(tag)
            },
        }
    }

    /// Counts one more machine on a network, and says whether the network
    /// is new: its bridge has then to be created.
    fn count_up(&mut self, network: Id) -> (r: Result<bool, SupervisorError>)
        requires
            old(self).wf(),
        ensures
            final(self).wf(),
            final(self).machines == old(self).machines,
            final(self).config == old(self).config,
            final(self).machines_dir == old(self).machines_dir,
            final(self).virtiofs_tags == old(self).virtiofs_tags,
            old(self)@.networks.dom().contains(network@) && old(self)@.networks[network@]
                == i32::MAX ==> r == Err::<bool, SupervisorError>(SupervisorError::TooManyMachines)
                && final(self)@ == old(self)@,
            !(old(self)@.networks.dom().contains(network@) && old(self)@.networks[network@]
                == i32::MAX) ==> r == Ok::<bool, SupervisorError>(
                !old(self)@.networks.dom().contains(network@),
            ) && final(self)@.networks == counted_up(old(self)@.networks, network@),
    {
        match self.network_position(network) {
            Some(i) => {
                let children = self.networks[i].children;
                if children == i32::MAX {
                    return Err(SupervisorError::TooManyMachines);
                }
                proof {
                    lemma_assoc_remove(
                        self.networks@,
                        counted_key(),
                        counted_children(),
                        i as int,
                    );
                }
                let _ = self.networks.remove(i);
                let counted = Network { id: network, children: children + 1 };
                proof {
                    lemma_assoc_push(self.networks@, counted_key(), counted_children(), counted);
                }
                self.networks.push(counted);
                proof {
                    assert(self@.networks =~= counted_up(old(self)@.networks, network@));
                }
                Ok(false)
            },
            None => {
                let counted = Network { id: network, children: 1 };
                proof {
                    lemma_assoc_push(self.networks@, counted_key(), counted_children(), counted);
                }
                self.networks.push(counted);
                Ok(true)
            },
        }
    }

    /// Brings a machine of the configuration up on its network. The
    /// network's bridge is created with the first machine on it, and
    /// counted up with every further one.
    pub fn create_and_start(
        &mut self,
        machine_config: &crate::config::Machine,
        network_config: &crate::config::Network,
    ) -> (r: Result<StartOrder, SupervisorError>)
        requires
            old(self).wf(),
        ensures
            final(self).wf(),
            final(self).spec_config() == old(self).spec_config(),
            final(self).spec_machines_dir() == old(self).spec_machines_dir(),
            old(self)@.machines.dom().contains(machine_config.id@) ==> r == Err::<
                StartOrder,
                SupervisorError,
            >(SupervisorError::MachineRunning) && final(self)@ == old(self)@,
            r.is_ok() ==> {
                let order = r.unwrap();
                &&& !old(self)@.machines.dom().contains(machine_config.id@)
                &&& final(self)@.machines == old(self)@.machines.insert(
                    machine_config.id@,
                    machine_config.network@,
                )
                &&& final(self)@.networks == counted_up(
                    old(self)@.networks,
                    machine_config.network@,
                )
                &&& order.bridge.is_some() == !old(self)@.networks.dom().contains(
                    machine_config.network@,
                )
                &&& order.bridge.is_some() ==> order.bridge.unwrap().commands()
                    == bridge_up_commands(
                    bridge_name(machine_config.network@),
                    network_config.ip.text(),
                ) && order.bridge.unwrap().rules() == create_bridge_rules()
                &&& order.tap.commands() == tap_up_commands(
                    tap_name(machine_config.id@),
                    bridge_name(machine_config.network@),
                ).subrange(1, 5)
                &&& order.tap.rules() == create_tap_rules()
                &&& order.machine_dir@ == path_join(
                    old(self).spec_machines_dir(),
                    id_text(machine_config.id@),
                )
                &&& final(self)@.tags.len() == old(self)@.tags.len()
                    + machine_config.virtiofs@.len()
                &&& final(self)@.tags.subrange(0, old(self)@.tags.len() as int) == old(self)@.tags
                &&& order.qemu.program@ == "qemu-system-x86_64"@
                &&& views(order.qemu.args@) == qemu_base_args(
                    machine_config.id@,
                    machine_config.cpus,
                    machine_config.memory,
                    machine_config.iso@,
                    machine_config.boot@,
                ) + shares_args(
                    shares_of(
                        *machine_config,
                        final(self)@.tags.skip(old(self)@.tags.len() as int),
                    ),
                    machine_config.virtiofs@.len() as int,
                )
                &&& order.virtiofs@.len() == machine_config.virtiofs@.len()
                &&& forall|k: int|
                    0 <= k < order.virtiofs@.len() ==> (#[trigger] order.virtiofs@[k]).program@
                        == "/usr/lib/virtiofsd"@ && views(order.virtiofs@[k].args@)
                        == virtiofsd_args(
                        machine_config.id@,
                        final(self)@.tags[old(self)@.tags.len() + k],
                        machine_config.virtiofs@[k]@,
                    )
            },
            r.is_err() && !old(self)@.machines.dom().contains(machine_config.id@) ==> {
                &&& final(self)@.machines == old(self)@.machines
                &&& final(self)@.networks == old(self)@.networks
                &&& (r.unwrap_err() == SupervisorError::TooManyMachines || (
                r.unwrap_err() matches SupervisorError::Tag(_) && machine_config.virtiofs@.len()
                    > 0))
            },
            !old(self)@.machines.dom().contains(machine_config.id@)
                && machine_config.virtiofs@.len() == 0 && !(old(self)@.networks.dom().contains(
                machine_config.network@,
            ) && old(self)@.networks[machine_config.network@] == i32::MAX) ==> r.is_ok(),
    {
        let id = machine_config.id;
        if self.machine_position(id).is_some() {
            return Err(SupervisorError::MachineRunning);
        }
        match self.network_position(machine_config.network) {
            Some(i) => {
                if self.networks[i].children == i32::MAX {
                    return Err(SupervisorError::TooManyMachines);
                }
            },
            None => {},
        }
        let mut args = qemu_base_arg_list(
            &machine_config.id,
            machine_config.cpus,
            machine_config.memory,
            machine_config.iso.as_str(),
            machine_config.boot.as_str(),
        );
        let ghost head = views(args@);
        let ghost start = self@.tags.len() as int;
        let mut virtiofs: Vec<Spawn> = Vec::new();
        let mut i: usize = 0;
        proof {
            assert(self@.tags.subrange(0, start) =~= old(self)@.tags);
            assert(views(args@) =~= head + shares_args(
                shares_of(*machine_config, self@.tags.skip(start)),
                0,
            ));
        }
        while i < machine_config.virtiofs.len()
            invariant
                self.wf(),
                i <= machine_config.virtiofs@.len(),
                id == machine_config.id,
                !old(self)@.machines.dom().contains(machine_config.id@),
                self@.machines == old(self)@.machines,
                self@.networks == old(self)@.networks,
                self.spec_config() == old(self).spec_config(),
                self.spec_machines_dir() == old(self).spec_machines_dir(),
                start == old(self)@.tags.len(),
                self@.tags.len() == start + i,
                self@.tags.subrange(0, start) == old(self)@.tags,
                virtiofs@.len() == i,
                head == qemu_base_args(
                    machine_config.id@,
                    machine_config.cpus,
                    machine_config.memory,
                    machine_config.iso@,
                    machine_config.boot@,
                ),
                views(args@) == head + shares_args(
                    shares_of(*machine_config, self@.tags.skip(start)),
                    i as int,
                ),
                forall|k: int|
                    0 <= k < i ==> (#[trigger] virtiofs@[k]).program@ == "/usr/lib/virtiofsd"@
                        && views(virtiofs@[k].args@) == virtiofsd_args(
                        machine_config.id@,
                        self@.tags[start + k],
                        machine_config.virtiofs@[k]@,
                    ),
            decreases machine_config.virtiofs@.len() - i,
        {
            let ghost tags_before = self@.tags;
            let tag = match self.generate_virtiofs_tag() {
                Err(e) => {
                    return Err(SupervisorError::Tag(e));
                },
                Ok(tag) => tag,
            };
            let share = ShareDir::with_tag(
                id,
                machine_config.memory,
                machine_config.virtiofs[i].clone(),
                tag,
            );
            let mut more = share.get_qemu_args(i == 0);
            let ghost before = args@;
            let ghost added = more@;
            args.append(&mut more);
            virtiofs.push(share.start_virtiofsd());
            proof {
                lemma_views_concat(before, added);
                let shares_before = shares_of(*machine_config, tags_before.skip(start));
                let shares_now = shares_of(*machine_config, self@.tags.skip(start));
                assert(self@.tags.subrange(0, start) =~= old(self)@.tags);
                assert forall|k: int| 0 <= k < i implies shares_now[k] == shares_before[k] by {
                    assert(self@.tags.skip(start)[k] == tags_before.skip(start)[k]);
                }
                lemma_shares_args_agree(shares_before, shares_now, i as int);
                assert(self@.tags == tags_before.push(share@.tag));
                assert(self@.tags.skip(start)[i as int] == share@.tag);
                assert(shares_now[i as int] == share@);
                assert(views(args@) =~= head + shares_args(shares_now, i + 1));
            }
            i = i + 1;
        }
        let first = match self.count_up(machine_config.network) {
            Err(e) => {
                return Err(e);
            },
            Ok(first) => first,
        };
        let bridge_device = get_bridge_name(&machine_config.network);
        let bridge = if first {
            Some(create_bridge_device(bridge_device.as_str(), &network_config.ip))
        } else {
            None
        };
        let tap = create_tap_device(get_tap_name(&id).as_str(), bridge_device.as_str());
        let machine_dir = join_path(self.machines_dir.as_str(), id.to_string().as_str());
        let machine = Machine { id, network: machine_config.network, virtiofs: virtiofs.len() };
        proof {
            lemma_assoc_push(self.machines@, running_key(), running_network(), machine);
        }
        self.machines.push(machine);
        Ok(
            StartOrder {
                bridge,
                tap,
                virtiofs,
                machine_dir,
                qemu: Spawn { program: String::from_str("qemu-system-x86_64"), args },
            },
        )
    }

    /// Takes a running machine down: QEMU and the daemons are killed, the
    /// TAP device is removed, and the network's bridge with the last
    /// machine on it.
    pub fn kill_and_destroy(&mut self, id: Id) -> (r: Result<StopOrder, SupervisorError>)
        requires
            old(self).wf(),
        ensures
            final(self).wf(),
            final(self).spec_config() == old(self).spec_config(),
            final(self).spec_machines_dir() == old(self).spec_machines_dir(),
            final(self)@.tags == old(self)@.tags,
            !old(self)@.machines.dom().contains(id@) ==> r == Err::<StopOrder, SupervisorError>(
                SupervisorError::MachineNotFound,
            ) && final(self)@ == old(self)@,
            old(self)@.machines.dom().contains(id@) ==> {
                let network = old(self)@.machines[id@];
                &&& final(self)@.machines == old(self)@.machines.remove(id@)
                &&& if !old(self)@.networks.dom().contains(network) {
                    &&& r == Err::<StopOrder, SupervisorError>(SupervisorError::NetworkNotFound)
                    &&& final(self)@.networks == old(self)@.networks
                } else {
                    &&& r.is_ok()
                    &&& final(self)@.networks == counted_down(old(self)@.networks, network)
                    &&& r.unwrap().bridge.is_some() == (old(self)@.networks[network] == 1)
                    &&& r.unwrap().bridge.is_some() ==> r.unwrap().bridge.unwrap().commands()
                        == delete_commands(bridge_name(network))
                        && r.unwrap().bridge.unwrap().rules() == delete_rules()
                    &&& r.unwrap().tap.commands() == delete_commands(tap_name(id@))
                    &&& r.unwrap().tap.rules() == delete_rules()
                }
            },
    {
        let at = match self.machine_position(id) {
            None => {
                return Err(SupervisorError::MachineNotFound);
            },
            Some(at) => at,
        };
        proof {
            lemma_assoc_remove(self.machines@, running_key(), running_network(), at as int);
        }
        let machine = self.machines.remove(at);
        let place = match self.network_position(machine.network) {
            None => {
                return Err(SupervisorError::NetworkNotFound);
            },
            Some(place) => place,
        };
        let tap = delete_tap_device(get_tap_name(&id).as_str());
        proof {
            lemma_assoc_remove(self.networks@, counted_key(), counted_children(), place as int);
        }
        let counted = self.networks.remove(place);
        let bridge = if counted.children == 1 {
            Some(delete_bridge_device(get_bridge_name(&machine.network).as_str()))
        } else {
            let fewer = Network { id: counted.id, children: counted.children - 1 };
            proof {
                lemma_assoc_push(self.networks@, counted_key(), counted_children(), fewer);
            }
            self.networks.push(fewer);
            proof {
                assert(self@.networks =~= counted_down(old(self)@.networks, machine.network@));
            }
            None
        };
        Ok(StopOrder { virtiofs: machine.virtiofs, tap, bridge })
    }
}

/// The bridge of a network is counted by its machines. From a state in
/// which the network has no bridge: the first machine creates the bridge,
/// the second finds it, taking one of them down leaves it, and taking both
/// down removes it.
pub proof fn lemma_bridge_counts(networks: Map<u128, i32>, network: u128)
    requires
        !networks.dom().contains(network),
    ensures
        counted_up(networks, network)[network] == 1,
        counted_up(counted_up(networks, network), network)[network] == 2,
        counted_down(counted_up(counted_up(networks, network), network), network)[network] == 1,
        counted_down(counted_up(counted_up(networks, network), network), network).dom().contains(
            network,
        ),
        counted_down(
            counted_down(counted_up(counted_up(networks, network), network), network),
            network,
        ) == networks,
{
    let one = counted_up(networks, network);
    let two = counted_up(one, network);
    let back = counted_down(two, network);
    assert(back =~= one);
    assert(counted_down(back, network) =~= networks);
}

} // verus!
