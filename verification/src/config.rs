//! The configuration file of the supervisor: the machines and the networks
//! that it brings up.

use crate::id::Id;
use crate::ipv4::Ipv4Cidr;
use crate::text::same_text;
use vstd::prelude::*;

verus! {

/// A machine of the configuration file.
#[derive(Debug, Clone, PartialEq, Eq)]
pub struct Machine {
    pub id: Id,
    pub name: String,
    /// The network that the machine is on.
    pub network: Id,
    pub cpus: u8,
    /// The guest's memory in bytes.
    pub memory: u64,
    /// The path of the seed image.
    pub iso: String,
    /// The path of the image that the guest boots from.
    pub boot: String,
    /// The host paths that the guest shares.
    pub virtiofs: Vec<String>,
}

/// A network of the configuration file.
#[derive(Debug, Clone, PartialEq, Eq)]
pub struct Network {
    pub id: Id,
    pub name: String,
    pub ip: Ipv4Cidr,
}

/// The configuration file.
#[derive(Debug, Clone, PartialEq, Eq)]
pub struct Config {
    pub machines: Vec<Machine>,
    pub networks: Vec<Network>,
}

/// Why the configuration file refuses an entry.
#[derive(Debug, Clone, Copy, PartialEq, Eq, Structural)]
pub enum ConfigError {
    /// Another machine has the identifier.
    MachineIdTaken,
    /// Another machine has the name.
    MachineNameTaken,
    /// No network has the identifier that the machine names.
    NetworkNotFound,
    /// Another network has the identifier.
    NetworkIdTaken,
    /// Another network has the name.
    NetworkNameTaken,
}

/// What adding a machine to the file gives: the machine must be on a
/// network of the file, and neither its identifier nor its name may be
/// taken.
pub open spec fn machine_checked(config: Config, machine: Machine) -> Result<(), ConfigError> {
    if forall|k: int| 0 <= k < config.networks@.len() ==> config.networks@[k].id != machine.network {
        Err(ConfigError::NetworkNotFound)
    } else if exists|k: int| 0 <= k < config.machines@.len() && config.machines@[k].id == machine.id {
        Err(ConfigError::MachineIdTaken)
    } else if exists|k: int|
        0 <= k < config.machines@.len() && config.machines@[k].name@ == machine.name@ {
        Err(ConfigError::MachineNameTaken)
    } else {
        Ok(())
    }
}

/// What adding a network to the file gives: neither its identifier nor its
/// name may be taken.
pub open spec fn network_checked(config: Config, network: Network) -> Result<(), ConfigError> {
    if exists|k: int| 0 <= k < config.networks@.len() && config.networks@[k].id == network.id {
        Err(ConfigError::NetworkIdTaken)
    } else if exists|k: int|
        0 <= k < config.networks@.len() && config.networks@[k].name@ == network.name@ {
        Err(ConfigError::NetworkNameTaken)
    } else {
        Ok(())
    }
}

impl Config {
    /// The place of the network with the identifier `id` among the
    /// networks, if there is one: the first such place.
    pub fn find_network(&self, id: Id) -> (at: Option<usize>)
        ensures
            match at {
                Some(i) => i < self.networks@.len() && self.networks@[i as int].id == id
                    && forall|k: int| 0 <= k < i ==> self.networks@[k].id != id,
                None => forall|k: int| 0 <= k < self.networks@.len() ==> self.networks@[k].id != id,
            },
    {
        let mut i: usize = 0;
        while i < self.networks.len()
            invariant
                i <= self.networks@.len(),
                forall|k: int| 0 <= k < i ==> self.networks@[k].id != id,
            decreases self.networks@.len() - i,
        {
            if self.networks[i].id.0 == id.0 {
                return Some(i);
            }
            i = i + 1;
        }
        None
    }

    /// Adds a machine behind the others, unless the file refuses it.
    pub fn add_machine(&mut self, machine: Machine) -> (r: Result<(), ConfigError>)
        ensures
            r == machine_checked(*old(self), machine),
            final(self).networks == old(self).networks,
            r.is_ok() ==> final(self).machines@ == old(self).machines@.push(machine),
            r.is_err() ==> final(self).machines == old(self).machines,
    {
        let at = match self.find_network(machine.network) {
            None => {
                return Err(ConfigError::NetworkNotFound);
            },
            Some(at) => at,
        };
        let mut i: usize = 0;
        while i < self.machines.len()
            invariant
                *self == *old(self),
                at < self.networks@.len(),
                self.networks@[at as int].id == machine.network,
                i <= self.machines@.len(),
                forall|k: int| 0 <= k < i ==> self.machines@[k].id != machine.id,
            decreases self.machines@.len() - i,
        {
            if self.machines[i].id.0 == machine.id.0 {
                assert(self.machines@[i as int].id == machine.id);
                return Err(ConfigError::MachineIdTaken);
            }
            i = i + 1;
        }
        let mut j: usize = 0;
        while j < self.machines.len()
            invariant
                *self == *old(self),
                at < self.networks@.len(),
                self.networks@[at as int].id == machine.network,
                j <= self.machines@.len(),
                forall|k: int| 0 <= k < self.machines@.len() ==> self.machines@[k].id != machine.id,
                forall|k: int| 0 <= k < j ==> self.machines@[k].name@ != machine.name@,
            decreases self.machines@.len() - j,
        {
            if same_text(&self.machines[j].name, &machine.name) {
                assert(self.machines@[j as int].name@ == machine.name@);
                return Err(ConfigError::MachineNameTaken);
            }
            j = j + 1;
        }
        self.machines.push(machine);
        Ok(())
    }

    /// Adds a network behind the others, unless the file refuses it.
    pub fn add_network(&mut self, network: Network) -> (r: Result<(), ConfigError>)
        ensures
            r == network_checked(*old(self), network),
            final(self).machines == old(self).machines,
            r.is_ok() ==> final(self).networks@ == old(self).networks@.push(network),
            r.is_err() ==> final(self).networks == old(self).networks,
    {
        match self.find_network(network.id) {
            Some(at) => {
                assert(self.networks@[at as int].id == network.id);
                return Err(ConfigError::NetworkIdTaken);
            },
            None => {},
        }
        let mut j: usize = 0;
        while j < self.networks.len()
            invariant
                *self == *old(self),
                j <= self.networks@.len(),
                forall|k: int| 0 <= k < self.networks@.len() ==> self.networks@[k].id != network.id,
                forall|k: int| 0 <= k < j ==> self.networks@[k].name@ != network.name@,
            decreases self.networks@.len() - j,
        {
            if same_text(&self.networks[j].name, &network.name) {
                assert(self.networks@[j as int].name@ == network.name@);
                return Err(ConfigError::NetworkNameTaken);
            }
            j = j + 1;
        }
        self.networks.push(network);
        Ok(())
    }
}

} // verus!
