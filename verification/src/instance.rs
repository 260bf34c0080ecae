//! Instances: one booted execution of a machine on a network, and the
//! ordered start and stop of what it needs.

use crate::id::{id_text, Id};
use crate::logger::{LogId, LogLine, LogSource, LogStream};
use crate::machine::Machine;
use crate::net::{bridge_name, get_mac, get_tap_name, mac_address, tap_name};
use crate::network::{bridge_up_commands, ensure_rules, tap_up_commands, Network};
use crate::script::{Script, Spawn};
use crate::share_dir::{
    memory_backend_args, share_args, virtiofsd_args, ShareDir, ShareDirError, ShareDirView,
};
use crate::text::{decimal, decimal_string, views};
use vstd::prelude::*;
use vstd::string::*;

verus! {

/// The persistent state of an instance.
#[derive(Debug, Clone, Copy, PartialEq, Eq, Structural)]
pub struct InstanceState {
    pub id: Id,
    /// The number of the boot, which grows with every read of the state.
    pub boot_seq: u64,
    pub machine_id: Id,
    pub network_id: Id,
}

/// Where an instance is in its life.
#[derive(Debug, Clone, Copy, PartialEq, Eq, Structural)]
pub enum InstanceStatus {
    /// Made, and never started.
    New,
    /// Started: its processes run.
    Running,
    /// Stopped: its processes have ended.
    Stopped,
}

/// Why an operation on an instance failed.
#[derive(Debug, Clone, Copy, PartialEq, Eq, Structural)]
pub enum InstanceError {
    /// The state file of a new instance exists already.
    StateExists,
    /// The state file is missing.
    StateNotFound,
    /// The boot sequence number cannot grow any more.
    BootSeqExhausted,
    /// The machine is not the one that the state names.
    WrongMachine,
    /// The network is not the one that the state names.
    WrongNetwork,
    /// A shared directory could not be made.
    ShareDir(ShareDirError),
    /// QEMU ended without success.
    QemuFailed,
}

/// An instance: its machine and network as they were when it was made, its
/// shared directories, and whether it runs.
#[derive(Debug, PartialEq, Eq)]
pub struct Instance {
    id: Id,
    boot_seq: u64,
    machine: Machine,
    network: Network,
    share_dirs: Vec<ShareDir>,
    status: InstanceStatus,
}

/// An instance as contracts see it.
pub struct InstanceView {
    pub id: u128,
    pub boot_seq: u64,
    pub machine: Machine,
    pub network: Network,
    pub share_dirs: Seq<ShareDirView>,
    pub status: InstanceStatus,
}

/// A shared directory whose daemon has to be started.
#[derive(Debug, PartialEq, Eq)]
pub struct ShareDirStart {
    /// The place of the directory among the instance's shared directories.
    pub index: usize,
    /// The daemon's process.
    pub spawn: Spawn,
}

/// What starting an instance takes, in this order: the bridge, the TAP
/// device, the daemons of the shared directories, and QEMU.
#[derive(Debug, PartialEq, Eq)]
pub struct StartPlan {
    pub bridge: Script,
    pub tap: Script,
    pub share_dirs: Vec<ShareDirStart>,
    /// Whether QEMU has to be started; it runs already when the instance
    /// was running.
    pub start_qemu: bool,
}

/// What stopping an instance takes, in this order: QEMU is awaited, then
/// the daemons of the shared directories.
#[derive(Debug, PartialEq, Eq)]
pub struct StopPlan {
    /// Whether QEMU ran and has to be awaited.
    pub wait_qemu: bool,
    /// The places of the shared directories whose daemons ran.
    pub share_dirs: Vec<usize>,
}

/// The views of shared directories.
pub open spec fn share_dir_views(dirs: Seq<ShareDir>) -> Seq<ShareDirView> {
    Seq::new(dirs.len(), |i: int| dirs[i]@)
}

/// The shared directories of a fresh instance: one for each path of the
/// machine, in order, none running, each under a tag of eight characters
/// that no other has.
pub open spec fn fresh_share_dirs(dirs: Seq<ShareDirView>, id: u128, machine: Machine) -> bool {
    &&& dirs.len() == machine.spec_config().share_dirs@.len()
    &&& forall|i: int|
        0 <= i < dirs.len() ==> {
            &&& (#[trigger] dirs[i]).instance_id == id
            &&& dirs[i].instance_memory == machine.spec_config().memory
            &&& dirs[i].path == machine.spec_config().share_dirs@[i]@
            &&& !dirs[i].running
            &&& dirs[i].tag.len() == 8
        }
    &&& forall|i: int, j: int|
        0 <= i < dirs.len() && 0 <= j < dirs.len() && i != j ==> (#[trigger] dirs[i]).tag != (
        #[trigger] dirs[j]).tag
}

/// The arguments of QEMU before those of the shared directories.
pub open spec fn qemu_base_args(
    id: u128,
    cpus: u8,
    memory: u64,
    iso: Seq<char>,
    root_image: Seq<char>,
) -> Seq<Seq<char>> {
    seq![
        "-machine"@,
        "type=pc,accel=kvm"@,
        "-boot"@,
        "d"@,
        "-smp"@,
        decimal(cpus as nat),
        "-m"@,
        decimal(memory as nat) + "B"@,
        "-device"@,
        "virtio-net-pci,netdev="@ + tap_name(id) + ",mac="@ + mac_address(id),
        "-netdev"@,
        "tap,id="@ + tap_name(id) + ",ifname="@ + tap_name(id) + ",script=no"@,
        "-drive"@,
        "file="@ + iso + ",media=cdrom"@,
        "-drive"@,
        "file="@ + root_image + ",if=virtio,cache=writeback,discard=ignore,format=qcow2"@,
        "-nographic"@,
        "-qmp"@,
        "unix:/tmp/vmm-qmp-"@ + id_text(id) + ".sock,server,nowait"@,
    ]
}

/// The arguments of QEMU for the first `n` shared directories: the memory
/// backend stands once, after the first share.
pub open spec fn shares_args(dirs: Seq<ShareDirView>, n: int) -> Seq<Seq<char>>
    decreases n,
{
    if n <= 0 {
        Seq::<Seq<char>>::empty()
    } else if n == 1 {
        share_args(dirs[0].instance_id, dirs[0].tag) + memory_backend_args(dirs[0].instance_memory)
    } else {
        shares_args(dirs, n - 1) + share_args(dirs[n - 1].instance_id, dirs[n - 1].tag)
    }
}

/// All arguments of QEMU for an instance.
pub open spec fn qemu_args(instance: InstanceView, iso: Seq<char>, root_image: Seq<char>) -> Seq<
    Seq<char>,
> {
    qemu_base_args(
        instance.id,
        instance.machine.spec_config().cpus,
        instance.machine.spec_config().memory,
        iso,
        root_image,
    ) + shares_args(instance.share_dirs, instance.share_dirs.len() as int)
}

/// The places among the first `n` shared directories of those that do not
/// run.
pub open spec fn idle_places(dirs: Seq<ShareDirView>, n: int) -> Seq<usize>
    decreases n,
{
    if n <= 0 {
        Seq::<usize>::empty()
    } else if dirs[n - 1].running {
        idle_places(dirs, n - 1)
    } else {
        idle_places(dirs, n - 1).push((n - 1) as usize)
    }
}

/// The places among the first `n` shared directories of those that run.
pub open spec fn running_places(dirs: Seq<ShareDirView>, n: int) -> Seq<usize>
    decreases n,
{
    if n <= 0 {
        Seq::<usize>::empty()
    } else if dirs[n - 1].running {
        running_places(dirs, n - 1).push((n - 1) as usize)
    } else {
        running_places(dirs, n - 1)
    }
}

/// The shared directories with every daemon's state set to `running`.
pub open spec fn all_set(dirs: Seq<ShareDirView>, running: bool) -> Seq<ShareDirView> {
    Seq::new(dirs.len(), |i: int| ShareDirView { running, ..dirs[i] })
}

/// The views of two lists of strings, one after the other.
pub proof fn lemma_views_concat(a: Seq<String>, b: Seq<String>)
    ensures
        views(a + b) == views(a) + views(b),
{
    assert(views(a + b) =~= views(a) + views(b));
}

/// The arguments of QEMU before those of the shared directories, in their
/// fixed order.
pub fn qemu_base_arg_list(id: &Id, cpus: u8, memory: u64, iso: &str, root_image: &str) -> (args:
    Vec<String>)
    ensures
        views(args@) == qemu_base_args(id@, cpus, memory, iso@, root_image@),
        args@.len() == 19,
{
    let tap = get_tap_name(id);
    let mac = get_mac(id);
    let mut memory_text = decimal_string(memory);
    memory_text.append("B");
    let mut net_device = String::from_str("virtio-net-pci,netdev=");
    net_device.append(tap.as_str());
    net_device.append(",mac=");
    net_device.append(mac.as_str());
    let mut netdev = String::from_str("tap,id=");
    netdev.append(tap.as_str());
    netdev.append(",ifname=");
    netdev.append(tap.as_str());
    netdev.append(",script=no");
    let mut iso_drive = String::from_str("file=");
    iso_drive.append(iso);
    iso_drive.append(",media=cdrom");
    let mut root_drive = String::from_str("file=");
    root_drive.append(root_image);
    root_drive.append(",if=virtio,cache=writeback,discard=ignore,format=qcow2");
    let mut qmp_socket = String::from_str("unix:/tmp/vmm-qmp-");
    qmp_socket.append(id.to_string().as_str());
    qmp_socket.append(".sock,server,nowait");
    let mut args: Vec<String> = Vec::new();
    args.push(String::from_str("-machine"));
    args.push(String::from_str("type=pc,accel=kvm"));
    args.push(String::from_str("-boot"));
    args.push(String::from_str("d"));
    args.push(String::from_str("-smp"));
    args.push(decimal_string(cpus as u64));
    args.push(String::from_str("-m"));
    args.push(memory_text);
    args.push(String::from_str("-device"));
    args.push(net_device);
    args.push(String::from_str("-netdev"));
    args.push(netdev);
    args.push(String::from_str("-drive"));
    args.push(iso_drive);
    args.push(String::from_str("-drive"));
    args.push(root_drive);
    args.push(String::from_str("-nographic"));
    args.push(String::from_str("-qmp"));
    args.push(qmp_socket);
    assert(views(args@) =~= qemu_base_args(id@, cpus, memory, iso@, root_image@));
    args
}

impl InstanceState {
    /// The state of the next boot: the sequence number grows by one.
    pub fn next_boot(self) -> (r: Result<InstanceState, InstanceError>)
        ensures
            self.boot_seq == u64::MAX ==> r == Err::<InstanceState, InstanceError>(
                InstanceError::BootSeqExhausted,
            ),
            self.boot_seq < u64::MAX ==> r == Ok::<InstanceState, InstanceError>(
                InstanceState { boot_seq: (self.boot_seq + 1) as u64, ..self },
            ),
    {
        if self.boot_seq == u64::MAX {
            Err(InstanceError::BootSeqExhausted)
        } else {
            Ok(
                InstanceState {
                    id: self.id,
                    boot_seq: self.boot_seq + 1,
                    machine_id: self.machine_id,
                    network_id: self.network_id,
                },
            )
        }
    }
}

impl View for Instance {
    type V = InstanceView;

    closed spec fn view(&self) -> InstanceView {
        InstanceView {
            id: self.id@,
            boot_seq: self.boot_seq,
            machine: self.machine,
            network: self.network,
            share_dirs: share_dir_views(self.share_dirs@),
            status: self.status,
        }
    }
}

impl Instance {
    /// The shared directories of a fresh instance of `machine`. Each gets a
    /// random tag that the earlier ones do not have.
    pub fn init_share_dirs(machine: &Machine, id: Id) -> (r: Result<Vec<ShareDir>, ShareDirError>)
        ensures
            match r {
                Ok(dirs) => fresh_share_dirs(share_dir_views(dirs@), id@, *machine),
                Err(e) => (e == ShareDirError::NoEntropy || e == ShareDirError::NoFreeTag)
                    && machine.spec_config().share_dirs@.len() > 0,
            },
    {
        let mut dirs: Vec<ShareDir> = Vec::new();
        let mut taken: Vec<String> = Vec::new();
        let mut i: usize = 0;
        let paths = &machine.config().share_dirs;
        while i < paths.len()
            invariant
                i <= paths@.len(),
                paths@ == machine.spec_config().share_dirs@,
                dirs@.len() == i,
                taken@.len() == i,
                forall|k: int| 0 <= k < i ==> (#[trigger] taken@[k])@ == dirs@[k]@.tag,
                forall|k: int|
                    0 <= k < i ==> {
                        &&& (#[trigger] dirs@[k])@.instance_id == id@
                        &&& dirs@[k]@.instance_memory == machine.spec_config().memory
                        &&& dirs@[k]@.path == paths@[k]@
                        &&& !dirs@[k]@.running
                        &&& dirs@[k]@.tag.len() == 8
                    },
                forall|a: int, b: int|
                    0 <= a < i && 0 <= b < i && a != b ==> (#[trigger] dirs@[a])@.tag != (
                    #[trigger] dirs@[b])@.tag,
            decreases paths@.len() - i,
        {
            match ShareDir::new(id, machine, paths[i].clone(), &taken) {
                Err(e) => {
                    return Err(e);
                },
                Ok(dir) => {
                    proof {
                        assert forall|k: int| 0 <= k < i implies (#[trigger] dirs@[k])@.tag
                            != dir@.tag by {
                            assert(views(taken@)[k] == dirs@[k]@.tag);
                        }
                    }
                    taken.push(dir.tag().clone());
                    dirs.push(dir);
                },
            }
            i = i + 1;
        }
        Ok(dirs)
    }

    /// An instance from its parts; it has never been started.
    pub fn assemble(
        id: Id,
        boot_seq: u64,
        machine: Machine,
        network: Network,
        share_dirs: Vec<ShareDir>,
    ) -> (instance: Instance)
        ensures
            instance@ == (InstanceView {
                id: id@,
                boot_seq,
                machine,
                network,
                share_dirs: share_dir_views(share_dirs@),
                status: InstanceStatus::New,
            }),
    {
        Instance { id, boot_seq, machine, network, share_dirs, status: InstanceStatus::New }
    }

    /// A new instance of a machine on a network, with the state that the
    /// caller writes to its file. It is refused when the state file exists
    /// already.
    pub fn new(id: Id, machine: Machine, network: Network, state_exists: bool) -> (r: Result<
        (Instance, InstanceState),
        InstanceError,
    >)
        ensures
            state_exists ==> r == Err::<(Instance, InstanceState), InstanceError>(
                InstanceError::StateExists,
            ),
            !state_exists ==> match r {
                Ok((instance, state)) => {
                    &&& state == (InstanceState {
                        id,
                        boot_seq: 0,
                        machine_id: machine.spec_id(),
                        network_id: network.spec_id(),
                    })
                    &&& instance@.id == id@
                    &&& instance@.boot_seq == 0
                    &&& instance@.machine == machine
                    &&& instance@.network == network
                    &&& instance@.status == InstanceStatus::New
                    &&& fresh_share_dirs(instance@.share_dirs, id@, machine)
                },
                Err(e) => (e == InstanceError::ShareDir(ShareDirError::NoEntropy) || e
                    == InstanceError::ShareDir(ShareDirError::NoFreeTag))
                    && machine.spec_config().share_dirs@.len() > 0,
            },
    {
        if state_exists {
            return Err(InstanceError::StateExists);
        }
        let state = InstanceState {
            id,
            boot_seq: 0,
            machine_id: *machine.id(),
            network_id: *network.id(),
        };
        match Instance::init_share_dirs(&machine, id) {
            Err(e) => Err(InstanceError::ShareDir(e)),
            Ok(share_dirs) => Ok((Instance::assemble(id, 0, machine, network, share_dirs), state)),
        }
    }

    /// Reads an instance back for its next boot. `state` is what its state
    /// file held, if there was one; `machine` and `network` are the ones
    /// that the state names. The boot sequence number grows by exactly one,
    /// and the caller writes the new state to the file.
    pub fn read(id: Id, state: Option<InstanceState>, machine: Machine, network: Network) -> (r:
        Result<(Instance, InstanceState), InstanceError>)
        ensures
            match state {
                None => r == Err::<(Instance, InstanceState), InstanceError>(
                    InstanceError::StateNotFound,
                ),
                Some(s) => if s.boot_seq == u64::MAX {
                    r == Err::<(Instance, InstanceState), InstanceError>(
                        InstanceError::BootSeqExhausted,
                    )
                } else if machine.spec_id() != s.machine_id {
                    r == Err::<(Instance, InstanceState), InstanceError>(
                        InstanceError::WrongMachine,
                    )
                } else if network.spec_id() != s.network_id {
                    r == Err::<(Instance, InstanceState), InstanceError>(
                        InstanceError::WrongNetwork,
                    )
                } else {
                    match r {
                        Ok((instance, next)) => {
                            &&& next == (InstanceState { boot_seq: (s.boot_seq + 1) as u64, ..s })
                            &&& instance@.id == id@
                            &&& instance@.boot_seq == s.boot_seq + 1
                            &&& instance@.machine == machine
                            &&& instance@.network == network
                            &&& instance@.status == InstanceStatus::New
                            &&& fresh_share_dirs(instance@.share_dirs, id@, machine)
                        },
                        Err(e) => (e == InstanceError::ShareDir(ShareDirError::NoEntropy) || e
                            == InstanceError::ShareDir(ShareDirError::NoFreeTag))
                            && machine.spec_config().share_dirs@.len() > 0,
                    }
                },
            },
    {
        let state = match state {
            None => {
                return Err(InstanceError::StateNotFound);
            },
            Some(state) => state,
        };
        let next = match state.next_boot() {
            Err(e) => {
                return Err(e);
            },
            Ok(next) => next,
        };
        if *machine.id() != state.machine_id {
            return Err(InstanceError::WrongMachine);
        }
        if *network.id() != state.network_id {
            return Err(InstanceError::WrongNetwork);
        }
        match Instance::init_share_dirs(&machine, id) {
            Err(e) => Err(InstanceError::ShareDir(e)),
            Ok(share_dirs) => Ok(
                (Instance::assemble(id, next.boot_seq, machine, network, share_dirs), next),
            ),
        }
    }

    /// The identifier.
    pub fn id(&self) -> (id: &Id)
        ensures
            id@ == self@.id,
    {
        &self.id
    }

    /// The number of the boot.
    pub fn boot_seq(&self) -> (boot_seq: u64)
        ensures
            boot_seq == self@.boot_seq,
    {
        self.boot_seq
    }

    /// The machine.
    pub fn machine(&self) -> (machine: &Machine)
        ensures
            *machine == self@.machine,
    {
        &self.machine
    }

    /// The network.
    pub fn network(&self) -> (network: &Network)
        ensures
            *network == self@.network,
    {
        &self.network
    }

    /// Where the instance is in its life.
    pub fn status(&self) -> (status: InstanceStatus)
        ensures
            status == self@.status,
    {
        self.status
    }

    /// Whether the instance may be dropped: one that runs must be stopped
    /// first.
    pub fn can_drop(&self) -> (ok: bool)
        ensures
            ok == (self@.status != InstanceStatus::Running),
    {
        match self.status {
            InstanceStatus::Running => false,
            _ => true,
        }
    }

    /// The guest's hardware address.
    pub fn get_mac_address(&self) -> (mac: String)
        ensures
            mac@ == mac_address(self@.id),
    {
        get_mac(&self.id)
    }

    /// The arguments of QEMU, in their fixed order, for the seed image at
    /// `iso` and the root image at `root_image`.
    pub fn get_qemu_args(&self, iso: &str, root_image: &str) -> (args: Vec<String>)
        ensures
            views(args@) == qemu_args(self@, iso@, root_image@),
    {
        let mut args = qemu_base_arg_list(
            &self.id,
            self.machine.config().cpus,
            self.machine.config().memory,
            iso,
            root_image,
        );
        let ghost base = views(args@);
        assert(views(args@) =~= base + shares_args(self@.share_dirs, 0));
        let mut i: usize = 0;
        while i < self.share_dirs.len()
            invariant
                i <= self.share_dirs@.len(),
                views(args@) == base + shares_args(self@.share_dirs, i as int),
            decreases self.share_dirs@.len() - i,
        {
            let mut more = self.share_dirs[i].get_qemu_args(i == 0);
            let ghost before = args@;
            let ghost added = more@;
            args.append(&mut more);
            proof {
                lemma_views_concat(before, added);
                assert(self@.share_dirs[i as int] == self.share_dirs@[i as int]@);
                assert(views(args@) =~= base + shares_args(self@.share_dirs, i + 1));
            }
            i = i + 1;
        }
        args
    }

    /// The process of QEMU for the seed image at `iso` and the root image
    /// at `root_image`.
    pub fn start_qemu(&self, iso: &str, root_image: &str) -> (spawn: Spawn)
        ensures
            spawn.program@ == "qemu-system-x86_64"@,
            views(spawn.args@) == qemu_args(self@, iso@, root_image@),
    {
        Spawn {
            program: String::from_str("qemu-system-x86_64"),
            args: self.get_qemu_args(iso, root_image),
        }
    }

    /// Starts the instance: it runs afterwards, with all its shared
    /// directories. The plan names what the caller has to do for that: make
    /// sure of the bridge, then of the TAP device, start the daemon of
    /// every shared directory that did not run, and start QEMU unless the
    /// instance ran already.
    pub fn start(&mut self) -> (plan: StartPlan)
        ensures
            final(self)@ == (InstanceView {
                status: InstanceStatus::Running,
                share_dirs: all_set(old(self)@.share_dirs, true),
                ..old(self)@
            }),
            plan.start_qemu == (old(self)@.status != InstanceStatus::Running),
            plan.bridge.commands() == bridge_up_commands(
                bridge_name(old(self)@.network.spec_id()@),
                old(self)@.network.spec_config().ip.text(),
            ),
            plan.bridge.rules() == ensure_rules(),
            plan.tap.commands() == tap_up_commands(
                tap_name(old(self)@.id),
                bridge_name(old(self)@.network.spec_id()@),
            ),
            plan.tap.rules() == ensure_rules(),
            Seq::new(plan.share_dirs@.len(), |i: int| plan.share_dirs@[i].index) == idle_places(
                old(self)@.share_dirs,
                old(self)@.share_dirs.len() as int,
            ),
            forall|i: int|
                0 <= i < plan.share_dirs@.len() ==> {
                    let at = (#[trigger] plan.share_dirs@[i]).index as int;
                    &&& 0 <= at < old(self)@.share_dirs.len()
                    &&& plan.share_dirs@[i].spawn.program@ == "/usr/lib/virtiofsd"@
                    &&& views(plan.share_dirs@[i].spawn.args@) == virtiofsd_args(
                        old(self)@.share_dirs[at].instance_id,
                        old(self)@.share_dirs[at].tag,
                        old(self)@.share_dirs[at].path,
                    )
                },
    {
        let bridge = self.network.set_bridge_up_or_create();
        let tap = self.network.set_tap_up_or_create(&self.id);
        let ghost before = self@.share_dirs;
        let mut waiting: Vec<ShareDir> = Vec::new();
        core::mem::swap(&mut waiting, &mut self.share_dirs);
        let count: usize = waiting.len();
        let ghost all = waiting@;
        let mut starts: Vec<ShareDirStart> = Vec::new();
        let mut i: usize = 0;
        proof {
            assert(share_dir_views(all) =~= before);
        }
        while i < count
            invariant
                i <= count,
                count == all.len(),
                before == share_dir_views(all),
                waiting@ == all.subrange(i as int, count as int),
                self.share_dirs@.len() == i,
                forall|k: int|
                    0 <= k < i ==> (#[trigger] self.share_dirs@[k])@ == (ShareDirView {
                        running: true,
                        ..before[k]
                    }),
                Seq::new(starts@.len(), |k: int| starts@[k].index) == idle_places(before, i as int),
                forall|k: int|
                    0 <= k < starts@.len() ==> {
                        let at = (#[trigger] starts@[k]).index as int;
                        &&& 0 <= at < before.len()
                        &&& starts@[k].spawn.program@ == "/usr/lib/virtiofsd"@
                        &&& views(starts@[k].spawn.args@) == virtiofsd_args(
                            before[at].instance_id,
                            before[at].tag,
                            before[at].path,
                        )
                    },
                self.id == old(self).id,
                self.boot_seq == old(self).boot_seq,
                self.machine == old(self).machine,
                self.network == old(self).network,
                self.status == old(self).status,
            decreases count - i,
        {
            let mut dir = waiting.remove(0);
            proof {
                assert(dir == all[i as int]);
                assert(dir@ == before[i as int]);
                assert(waiting@ =~= all.subrange(i + 1, count as int));
            }
            let ghost places = Seq::new(starts@.len(), |k: int| starts@[k].index);
            match dir.start() {
                Some(spawn) => {
                    starts.push(ShareDirStart { index: i, spawn });
                    proof {
                        assert(Seq::new(starts@.len(), |k: int| starts@[k].index) =~= places.push(
                            i,
                        ));
                    }
                },
                None => {
                    proof {
                        assert(Seq::new(starts@.len(), |k: int| starts@[k].index) =~= places);
                    }
                },
            }
            self.share_dirs.push(dir);
            i = i + 1;
        }
        let start_qemu = match self.status {
            InstanceStatus::Running => false,
            _ => true,
        };
        self.status = InstanceStatus::Running;
        proof {
            assert(self@.share_dirs =~= all_set(before, true));
        }
        StartPlan { bridge, tap, share_dirs: starts, start_qemu }
    }

    /// Stops the instance: it is stopped afterwards, with all its shared
    /// directories. The plan names what the caller has to await for that:
    /// QEMU if the instance ran, then the daemon of every shared directory
    /// that ran. The TAP device and the bridge stay.
    pub fn stop(&mut self) -> (plan: StopPlan)
        ensures
            final(self)@ == (InstanceView {
                status: InstanceStatus::Stopped,
                share_dirs: all_set(old(self)@.share_dirs, false),
                ..old(self)@
            }),
            plan.wait_qemu == (old(self)@.status == InstanceStatus::Running),
            plan.share_dirs@ == running_places(
                old(self)@.share_dirs,
                old(self)@.share_dirs.len() as int,
            ),
    {
        let ghost before = self@.share_dirs;
        let mut waiting: Vec<ShareDir> = Vec::new();
        core::mem::swap(&mut waiting, &mut self.share_dirs);
        let count: usize = waiting.len();
        let ghost all = waiting@;
        let mut stops: Vec<usize> = Vec::new();
        let mut i: usize = 0;
        proof {
            assert(share_dir_views(all) =~= before);
        }
        while i < count
            invariant
                i <= count,
                count == all.len(),
                before == share_dir_views(all),
                waiting@ == all.subrange(i as int, count as int),
                self.share_dirs@.len() == i,
                forall|k: int|
                    0 <= k < i ==> (#[trigger] self.share_dirs@[k])@ == (ShareDirView {
                        running: false,
                        ..before[k]
                    }),
                stops@ == running_places(before, i as int),
                self.id == old(self).id,
                self.boot_seq == old(self).boot_seq,
                self.machine == old(self).machine,
                self.network == old(self).network,
                self.status == old(self).status,
            decreases count - i,
        {
            let mut dir = waiting.remove(0);
            proof {
                assert(dir == all[i as int]);
                assert(dir@ == before[i as int]);
                assert(waiting@ =~= all.subrange(i + 1, count as int));
            }
            if dir.stop() {
                stops.push(i);
            }
            self.share_dirs.push(dir);
            i = i + 1;
        }
        let wait_qemu = match self.status {
            InstanceStatus::Running => true,
            _ => false,
        };
        self.status = InstanceStatus::Stopped;
        proof {
            assert(self@.share_dirs =~= all_set(before, false));
        }
        StopPlan { wait_qemu, share_dirs: stops }
    }

    /// What the end of QEMU means: an end without success is an error.
    pub fn stop_qemu(success: bool) -> (r: Result<(), InstanceError>)
        ensures
            success ==> r == Ok::<(), InstanceError>(()),
            !success ==> r == Err::<(), InstanceError>(InstanceError::QemuFailed),
    {
        if success {
            Ok(())
        } else {
            Err(InstanceError::QemuFailed)
        }
    }

    /// A line of QEMU's output, for the log of the instance on its boot.
    pub fn log_line(&self, when: u64, stream: LogStream, line: String) -> (log: LogLine)
        ensures
            log.id == LogId::Instance(Id(self@.id), self@.boot_seq),
            log.when == when,
            log.stream == stream,
            log.source == LogSource::Qemu,
            log.line == line,
    {
        LogLine::instance(self.id, self.boot_seq, when, stream, LogSource::Qemu, line)
    }
}

} // verus!
