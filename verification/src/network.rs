//! Networks: a named IPv4 subnet that the host realises as a bridge device,
//! with one TAP device for each running instance.

use crate::id::Id;
use crate::ipv4::Ipv4Cidr;
use crate::net::{bridge_name, get_bridge_name, get_tap_name, tap_name};
use crate::script::{next_after, step, Next, Script, Step, StepRule};
use crate::text::{words3, words4, words5};
use crate::vmm_dirs::{join_path, VmmDirs};
use vstd::prelude::*;

verus! {

/// The persistent record of a network.
#[derive(Debug, Clone, PartialEq, Eq)]
pub struct NetworkConfig {
    /// The name, which no other network has.
    pub name: String,
    /// The address of the bridge with the prefix of the subnet.
    pub ip: Ipv4Cidr,
}

/// Why a network could not be made.
#[derive(Debug, Clone, Copy, PartialEq, Eq, Structural)]
pub enum NetworkError {
    /// The network's configuration exists already.
    ConfigExists,
    /// The network's configuration file is missing.
    ConfigNotFound,
}

/// A network with its identifier.
#[derive(Debug, Clone, PartialEq, Eq)]
pub struct Network {
    id: Id,
    config: NetworkConfig,
}

/// Where a new network's configuration goes.
#[derive(Debug, PartialEq, Eq)]
pub struct ConfigPlace {
    /// The directory to make.
    pub dir: String,
    /// The file to write.
    pub file: String,
}

/// The commands that make sure that a bridge exists, has its address and is
/// up: it is created only if `ip link show` does not find it, and awaited
/// after it was created.
pub open spec fn bridge_up_commands(bridge: Seq<char>, cidr: Seq<char>) -> Seq<Seq<Seq<char>>> {
    seq![
        seq!["link"@, "show"@, bridge],
        seq!["link"@, "add"@, bridge, "type"@, "bridge"@],
        seq!["link"@, "show"@, bridge],
        seq!["addr"@, "add"@, cidr, "dev"@, bridge],
        seq!["link"@, "set"@, "up"@, "dev"@, bridge],
    ]
}

/// The commands that make sure that a TAP device exists, is up, and belongs
/// to its bridge.
pub open spec fn tap_up_commands(tap: Seq<char>, bridge: Seq<char>) -> Seq<Seq<Seq<char>>> {
    seq![
        seq!["link"@, "show"@, tap],
        seq!["tuntap"@, "add"@, tap, "mode"@, "tap"@],
        seq!["link"@, "show"@, tap],
        seq!["link"@, "set"@, tap, "up"@],
        seq!["link"@, "set"@, tap, "master"@, bridge],
    ]
}

/// The commands that take a device down and delete it.
pub open spec fn delete_commands(device: Seq<char>) -> Seq<Seq<Seq<char>>> {
    seq![seq!["link"@, "set"@, device, "down"@], seq!["link"@, "delete"@, device]]
}

/// The rules of a script that creates a device only where it is missing:
/// probe, create, await, and two commands that configure.
pub open spec fn ensure_rules() -> Seq<StepRule> {
    seq![
        StepRule::WhenPresentSkip(2),
        StepRule::MustSucceed,
        StepRule::RetryUntilSuccess,
        StepRule::MustSucceed,
        StepRule::MustSucceed,
    ]
}

/// The rules of a script whose two commands both have to succeed.
pub open spec fn delete_rules() -> Seq<StepRule> {
    seq![StepRule::MustSucceed, StepRule::MustSucceed]
}

/// The script of five steps.
pub fn script5(a: Step, b: Step, c: Step, d: Step, e: Step) -> (script: Script)
    ensures
        script.steps@ == seq![a, b, c, d, e],
{
    let mut steps: Vec<Step> = Vec::new();
    steps.push(a);
    steps.push(b);
    steps.push(c);
    steps.push(d);
    steps.push(e);
    assert(steps@ =~= seq![a, b, c, d, e]);
    Script { steps }
}

/// The script that takes a device down and deletes it.
pub fn delete_device_script(device: &str) -> (script: Script)
    ensures
        script.commands() == delete_commands(device@),
        script.rules() == delete_rules(),
{
    let mut steps: Vec<Step> = Vec::new();
    steps.push(step(words4("link", "set", device, "down"), StepRule::MustSucceed));
    steps.push(step(words3("link", "delete", device), StepRule::MustSucceed));
    let script = Script { steps };
    assert(script.commands() =~= delete_commands(device@));
    assert(script.rules() =~= delete_rules());
    script
}

/// The script that makes sure that the bridge `bridge` exists, has the
/// address `cidr` and is up.
pub fn bridge_up_script(bridge: &str, cidr: &str) -> (script: Script)
    ensures
        script.commands() == bridge_up_commands(bridge@, cidr@),
        script.rules() == ensure_rules(),
{
    let script = script5(
        step(words3("link", "show", bridge), StepRule::WhenPresentSkip(2)),
        step(words5("link", "add", bridge, "type", "bridge"), StepRule::MustSucceed),
        step(words3("link", "show", bridge), StepRule::RetryUntilSuccess),
        step(words5("addr", "add", cidr, "dev", bridge), StepRule::MustSucceed),
        step(words5("link", "set", "up", "dev", bridge), StepRule::MustSucceed),
    );
    assert(script.commands() =~= bridge_up_commands(bridge@, cidr@));
    assert(script.rules() =~= ensure_rules());
    script
}

/// The script that makes sure that the TAP device `tap` exists, is up, and
/// belongs to the bridge `bridge`.
pub fn tap_up_script(tap: &str, bridge: &str) -> (script: Script)
    ensures
        script.commands() == tap_up_commands(tap@, bridge@),
        script.rules() == ensure_rules(),
{
    let script = script5(
        step(words3("link", "show", tap), StepRule::WhenPresentSkip(2)),
        step(words5("tuntap", "add", tap, "mode", "tap"), StepRule::MustSucceed),
        step(words3("link", "show", tap), StepRule::RetryUntilSuccess),
        step(words4("link", "set", tap, "up"), StepRule::MustSucceed),
        step(words5("link", "set", tap, "master", bridge), StepRule::MustSucceed),
    );
    assert(script.commands() =~= tap_up_commands(tap@, bridge@));
    assert(script.rules() =~= ensure_rules());
    script
}

impl NetworkConfig {
    /// A copy of the record.
    pub fn duplicate(&self) -> (copy: NetworkConfig)
        ensures
            copy == *self,
    {
        NetworkConfig { name: self.name.clone(), ip: self.ip }
    }
}

impl Network {
    /// The identifier.
    pub closed spec fn spec_id(&self) -> Id {
        self.id
    }

    /// The record.
    pub closed spec fn spec_config(&self) -> NetworkConfig {
        self.config
    }

    /// A new network. It is refused when its configuration directory exists
    /// already; otherwise the caller makes the directory and writes the
    /// record into the file.
    pub fn new(dirs: &VmmDirs, id: Id, config: NetworkConfig, exists: bool) -> (r: Result<
        (Network, ConfigPlace),
        NetworkError,
    >)
        ensures
            exists ==> r == Err::<(Network, ConfigPlace), NetworkError>(NetworkError::ConfigExists),
            !exists ==> r.is_ok() && r.unwrap().0.spec_id() == id && r.unwrap().0.spec_config()
                == config && r.unwrap().1.dir@ == dirs@.network_config_dir(id@)
                && r.unwrap().1.file@ == dirs@.network_config_file_path(id@),
    {
        if exists {
            return Err(NetworkError::ConfigExists);
        }
        let dir = dirs.get_network_config_dir(id);
        let file = join_path(dir.as_str(), "config.json");
        Ok((Network { id, config }, ConfigPlace { dir, file }))
    }

    /// A network of a record.
    pub fn with_config(id: Id, config: NetworkConfig) -> (network: Network)
        ensures
            network.spec_id() == id,
            network.spec_config() == config,
    {
        Network { id, config }
    }

    /// The network of a record that was read from its file, if the file was
    /// there.
    pub fn read(id: Id, config: Option<NetworkConfig>) -> (r: Result<Network, NetworkError>)
        ensures
            match config {
                None => r == Err::<Network, NetworkError>(NetworkError::ConfigNotFound),
                Some(c) => r.is_ok() && r.unwrap().spec_id() == id && r.unwrap().spec_config() == c,
            },
    {
        match config {
            None => Err(NetworkError::ConfigNotFound),
            Some(config) => Ok(Network { id, config }),
        }
    }

    /// The identifier.
    pub fn id(&self) -> (id: &Id)
        ensures
            *id == self.spec_id(),
    {
        &self.id
    }

    /// The record.
    pub fn config(&self) -> (config: &NetworkConfig)
        ensures
            *config == self.spec_config(),
    {
        &self.config
    }

    /// A copy of the network.
    pub fn duplicate(&self) -> (copy: Network)
        ensures
            copy == *self,
    {
        Network { id: self.id, config: self.config.duplicate() }
    }

    /// The name of the network's bridge device.
    pub fn get_bridge_name(&self) -> (name: String)
        ensures
            name@ == bridge_name(self.spec_id()@),
    {
        get_bridge_name(&self.id)
    }

    /// The name of the TAP device of an instance.
    pub fn get_tap_name(&self, instance: &Id) -> (name: String)
        ensures
            name@ == tap_name(instance@),
    {
        get_tap_name(instance)
    }

    /// The script after which the bridge exists, has the network's address,
    /// and is up.
    pub fn set_bridge_up_or_create(&self) -> (script: Script)
        ensures
            script.commands() == bridge_up_commands(
                bridge_name(self.spec_id()@),
                self.spec_config().ip.text(),
            ),
            script.rules() == ensure_rules(),
    {
        let bridge = self.get_bridge_name();
        let cidr = self.config.ip.to_string();
        bridge_up_script(bridge.as_str(), cidr.as_str())
    }

    /// The script after which the TAP device of the instance exists, is up,
    /// and belongs to the bridge.
    pub fn set_tap_up_or_create(&self, instance: &Id) -> (script: Script)
        ensures
            script.commands() == tap_up_commands(
                tap_name(instance@),
                bridge_name(self.spec_id()@),
            ),
            script.rules() == ensure_rules(),
    {
        let bridge = self.get_bridge_name();
        let tap = self.get_tap_name(instance);
        tap_up_script(tap.as_str(), bridge.as_str())
    }

    /// The script that removes the TAP device of the instance.
    pub fn delete_tap_device(&self, instance: &Id) -> (script: Script)
        ensures
            script.commands() == delete_commands(tap_name(instance@)),
            script.rules() == delete_rules(),
    {
        let tap = self.get_tap_name(instance);
        delete_device_script(tap.as_str())
    }

    /// The script that removes the bridge.
    pub fn delete_bridge_device(&self) -> (script: Script)
        ensures
            script.commands() == delete_commands(bridge_name(self.spec_id()@)),
            script.rules() == delete_rules(),
    {
        let bridge = self.get_bridge_name();
        delete_device_script(bridge.as_str())
    }
}

/// A script that creates a device only where it is missing is done only
/// after its last command succeeded; the last command is run only after the
/// one before it succeeded; and that one only after the device was found,
/// at the first look or after it was created. So after the script is done,
/// the device exists and both commands that configure it have succeeded.
pub proof fn lemma_ensure_script_configures(at: int, success: bool)
    requires
        0 <= at < 5,
    ensures
        next_after(ensure_rules()[at], at, 5, success) == Next::Done ==> at == 4 && success,
        next_after(ensure_rules()[at], at, 5, success) == Next::Run(4) ==> at == 3 && success,
        next_after(ensure_rules()[at], at, 5, success) == Next::Run(3) ==> (at == 0 || at == 2)
            && success,
        next_after(ensure_rules()[at], at, 5, success) == Next::Run(1) ==> at == 0 && !success,
        next_after(ensure_rules()[at], at, 5, success) is Failed ==> !success && (at == 1 || at
            == 3 || at == 4),
{
}

/// A script that removes a device is done only after the device was taken
/// down and deleted.
pub proof fn lemma_delete_script_removes(at: int, success: bool)
    requires
        0 <= at < 2,
    ensures
        next_after(delete_rules()[at], at, 2, success) == Next::Done ==> at == 1 && success,
        next_after(delete_rules()[at], at, 2, success) == Next::Run(1) ==> at == 0 && success,
        next_after(delete_rules()[at], at, 2, success) is Failed <==> !success,
{
}

} // verus!
