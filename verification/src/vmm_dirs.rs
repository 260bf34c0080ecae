//! The directory layout: where each entity's files live below the
//! configuration, cache and state roots.

use crate::id::{id_parsed, id_text, Id, IdError};
use crate::text::{decimal, decimal_string};
use vstd::prelude::*;
use vstd::string::*;

verus! {

/// Why the layout could not be made.
#[derive(Debug, Clone, Copy, PartialEq, Eq, Structural)]
pub enum DirsError {
    /// The host has no state directory.
    NoStateDir,
}

/// The three roots of the layout.
#[derive(Debug, Clone, PartialEq, Eq)]
pub struct VmmDirs {
    config_dir: String,
    cache_dir: String,
    state_dir: String,
}

/// The roots as contracts see them.
pub struct VmmDirsView {
    pub config_dir: Seq<char>,
    pub cache_dir: Seq<char>,
    pub state_dir: Seq<char>,
}

/// `child` below `parent`.
pub open spec fn path_join(parent: Seq<char>, child: Seq<char>) -> Seq<char> {
    parent + "/"@ + child
}

impl VmmDirsView {
    /// `<state>/instances/<id>`
    pub open spec fn instance_state_dir(self, id: u128) -> Seq<char> {
        path_join(path_join(self.state_dir, "instances"@), id_text(id))
    }

    /// `<state>/instances/<id>/state.json`
    pub open spec fn instance_state_file_path(self, id: u128) -> Seq<char> {
        path_join(self.instance_state_dir(id), "state.json"@)
    }

    /// `<config>/networks/<id>`
    pub open spec fn network_config_dir(self, id: u128) -> Seq<char> {
        path_join(path_join(self.config_dir, "networks"@), id_text(id))
    }

    /// `<config>/networks/<id>/config.json`
    pub open spec fn network_config_file_path(self, id: u128) -> Seq<char> {
        path_join(self.network_config_dir(id), "config.json"@)
    }

    /// `<config>/machines/<id>`
    pub open spec fn machine_config_dir(self, id: u128) -> Seq<char> {
        path_join(path_join(self.config_dir, "machines"@), id_text(id))
    }

    /// `<config>/machines/<id>/config.json`
    pub open spec fn machine_config_file_path(self, id: u128) -> Seq<char> {
        path_join(self.machine_config_dir(id), "config.json"@)
    }

    /// `<cache>/machines/<id>`
    pub open spec fn machine_cache_dir(self, id: u128) -> Seq<char> {
        path_join(path_join(self.cache_dir, "machines"@), id_text(id))
    }

    /// `<state>/machines/<id>/logs`
    pub open spec fn machine_log_dir(self, id: u128) -> Seq<char> {
        path_join(path_join(path_join(self.state_dir, "machines"@), id_text(id)), "logs"@)
    }

    /// `<state>/instances/<id>/logs`
    pub open spec fn instance_log_dir(self, id: u128) -> Seq<char> {
        path_join(self.instance_state_dir(id), "logs"@)
    }

    /// `<cache>/downloads`
    pub open spec fn image_download_dir(self) -> Seq<char> {
        path_join(self.cache_dir, "downloads"@)
    }

    /// `<cache>/downloads/<n>.download`
    pub open spec fn image_download_path(self, download_id: u64) -> Seq<char> {
        path_join(self.image_download_dir(), decimal(download_id as nat) + ".download"@)
    }

    /// `<cache>/images/<hash>`
    pub open spec fn image_cache_path(self, hash: Seq<char>) -> Seq<char> {
        path_join(path_join(self.cache_dir, "images"@), hash)
    }
}

/// `child` below `parent`.
pub fn join_path(parent: &str, child: &str) -> (path: String)
    ensures
        path@ == path_join(parent@, child@),
{
    let mut path = String::from_str(parent);
    path.append("/");
    path.append(child);
    path
}

/// The identifiers that the names of a directory's entries spell, in the
/// order of the entries.
pub open spec fn ids_parsed(names: Seq<String>) -> Result<Seq<u128>, IdError>
    decreases names.len(),
{
    if names.len() == 0 {
        Ok(Seq::<u128>::empty())
    } else {
        match ids_parsed(names.drop_last()) {
            Err(e) => Err(e),
            Ok(ids) => match id_parsed(names.last()@) {
                Err(e) => Err(e),
                Ok(id) => Ok(ids.push(id)),
            },
        }
    }
}

/// The numbers of a sequence of identifiers.
pub open spec fn id_values(ids: Seq<Id>) -> Seq<u128> {
    Seq::new(ids.len(), |i: int| ids[i]@)
}

/// Reads each entry name of a directory as an identifier. The first name
/// that is none ends the reading with its error.
pub fn parse_ids(names: &Vec<String>) -> (r: Result<Vec<Id>, IdError>)
    ensures
        match ids_parsed(names@) {
            Ok(ids) => r.is_ok() && id_values(r.unwrap()@) == ids,
            Err(e) => r == Err::<Vec<Id>, IdError>(e),
        },
{
    let mut ids: Vec<Id> = Vec::new();
    let mut i: usize = 0;
    proof {
        assert(names@.subrange(0, 0) =~= Seq::<String>::empty());
        assert(id_values(ids@) =~= Seq::<u128>::empty());
    }
    while i < names.len()
        invariant
            i <= names@.len(),
            ids_parsed(names@.subrange(0, i as int)) == Ok::<Seq<u128>, IdError>(id_values(ids@)),
        decreases names@.len() - i,
    {
        proof {
            let next = names@.subrange(0, i + 1);
            assert(next.drop_last() =~= names@.subrange(0, i as int));
            assert(next.last() == names@[i as int]);
            lemma_ids_parsed_prefix(names@, i + 1);
        }
        match Id::from_str(names[i].as_str()) {
            Err(e) => {
                return Err(e);
            },
            Ok(id) => {
                let ghost before = ids@;
                ids.push(id);
                proof {
                    assert(id_values(ids@) =~= id_values(before).push(id@));
                }
            },
        }
        i = i + 1;
    }
    proof {
        assert(names@.subrange(0, names@.len() as int) =~= names@);
    }
    Ok(ids)
}

/// A name that is no identifier fails the reading of every longer list with
/// the same error.
pub proof fn lemma_ids_parsed_prefix(names: Seq<String>, n: int)
    requires
        0 <= n <= names.len(),
    ensures
        ids_parsed(names.subrange(0, n)) is Err ==> ids_parsed(names) == ids_parsed(
            names.subrange(0, n),
        ),
    decreases names.len() - n,
{
    if n < names.len() {
        let longer = names.subrange(0, n + 1);
        assert(longer.drop_last() =~= names.subrange(0, n));
        lemma_ids_parsed_prefix(names, n + 1);
    } else {
        assert(names.subrange(0, n) =~= names);
    }
}

impl View for VmmDirs {
    type V = VmmDirsView;

    closed spec fn view(&self) -> VmmDirsView {
        VmmDirsView {
            config_dir: self.config_dir@,
            cache_dir: self.cache_dir@,
            state_dir: self.state_dir@,
        }
    }
}

impl VmmDirs {
    /// The layout below the host's base directories: each root is the
    /// directory `vmm` in its base. A host without state directory has no
    /// layout.
    pub fn new(config_base: &str, cache_base: &str, state_base: Option<&str>) -> (r: Result<
        VmmDirs,
        DirsError,
    >)
        ensures
            match state_base {
                None => r == Err::<VmmDirs, DirsError>(DirsError::NoStateDir),
                Some(state) => r.is_ok() && r.unwrap()@ == (VmmDirsView {
                    config_dir: path_join(config_base@, "vmm"@),
                    cache_dir: path_join(cache_base@, "vmm"@),
                    state_dir: path_join(state@, "vmm"@),
                }),
            },
    {
        match state_base {
            None => Err(DirsError::NoStateDir),
            Some(state) => Ok(
                VmmDirs {
                    config_dir: join_path(config_base, "vmm"),
                    cache_dir: join_path(cache_base, "vmm"),
                    state_dir: join_path(state, "vmm"),
                },
            ),
        }
    }

    /// The directory whose entries name the machines.
    pub fn get_machines_dir(&self) -> (path: String)
        ensures
            path@ == path_join(self@.config_dir, "machines"@),
    {
        join_path(self.config_dir.as_str(), "machines")
    }

    /// The directory whose entries name the networks.
    pub fn get_networks_dir(&self) -> (path: String)
        ensures
            path@ == path_join(self@.config_dir, "networks"@),
    {
        join_path(self.config_dir.as_str(), "networks")
    }

    /// The directory whose entries name the instances.
    pub fn get_instances_dir(&self) -> (path: String)
        ensures
            path@ == path_join(self@.state_dir, "instances"@),
    {
        join_path(self.state_dir.as_str(), "instances")
    }

    /// The machines that the entries of the machines directory name.
    pub fn get_machine_config_ids(&self, entries: &Vec<String>) -> (r: Result<Vec<Id>, IdError>)
        ensures
            match ids_parsed(entries@) {
                Ok(ids) => r.is_ok() && id_values(r.unwrap()@) == ids,
                Err(e) => r == Err::<Vec<Id>, IdError>(e),
            },
    {
        parse_ids(entries)
    }

    /// The networks that the entries of the networks directory name.
    pub fn get_network_config_ids(&self, entries: &Vec<String>) -> (r: Result<Vec<Id>, IdError>)
        ensures
            match ids_parsed(entries@) {
                Ok(ids) => r.is_ok() && id_values(r.unwrap()@) == ids,
                Err(e) => r == Err::<Vec<Id>, IdError>(e),
            },
    {
        parse_ids(entries)
    }

    /// The instances that the entries of the instances directory name.
    pub fn get_instance_state_ids(&self, entries: &Vec<String>) -> (r: Result<Vec<Id>, IdError>)
        ensures
            match ids_parsed(entries@) {
                Ok(ids) => r.is_ok() && id_values(r.unwrap()@) == ids,
                Err(e) => r == Err::<Vec<Id>, IdError>(e),
            },
    {
        parse_ids(entries)
    }

    /// `<state>/instances/<id>`
    pub fn get_instance_state_dir(&self, instance_id: Id) -> (path: String)
        ensures
            path@ == self@.instance_state_dir(instance_id@),
    {
        let base = join_path(self.state_dir.as_str(), "instances");
        join_path(base.as_str(), instance_id.to_string().as_str())
    }

    /// `<state>/instances/<id>/state.json`
    pub fn get_instance_state_file_path(&self, id: Id) -> (path: String)
        ensures
            path@ == self@.instance_state_file_path(id@),
    {
        join_path(self.get_instance_state_dir(id).as_str(), "state.json")
    }

    /// `<config>/networks/<id>`
    pub fn get_network_config_dir(&self, network_id: Id) -> (path: String)
        ensures
            path@ == self@.network_config_dir(network_id@),
    {
        let base = join_path(self.config_dir.as_str(), "networks");
        join_path(base.as_str(), network_id.to_string().as_str())
    }

    /// `<config>/networks/<id>/config.json`
    pub fn get_network_config_file_path(&self, id: Id) -> (path: String)
        ensures
            path@ == self@.network_config_file_path(id@),
    {
        join_path(self.get_network_config_dir(id).as_str(), "config.json")
    }

    /// `<config>/machines/<id>`
    pub fn get_machine_config_dir(&self, machine_id: Id) -> (path: String)
        ensures
            path@ == self@.machine_config_dir(machine_id@),
    {
        let base = join_path(self.config_dir.as_str(), "machines");
        join_path(base.as_str(), machine_id.to_string().as_str())
    }

    /// `<config>/machines/<id>/config.json`
    pub fn get_machine_config_file_path(&self, id: Id) -> (path: String)
        ensures
            path@ == self@.machine_config_file_path(id@),
    {
        join_path(self.get_machine_config_dir(id).as_str(), "config.json")
    }

    /// `<cache>/machines/<id>`
    pub fn get_machine_cache_dir(&self, machine_id: Id) -> (path: String)
        ensures
            path@ == self@.machine_cache_dir(machine_id@),
    {
        let base = join_path(self.cache_dir.as_str(), "machines");
        join_path(base.as_str(), machine_id.to_string().as_str())
    }

    /// `<state>/machines/<id>/logs`
    pub fn get_machine_log_dir(&self, machine_id: Id) -> (path: String)
        ensures
            path@ == self@.machine_log_dir(machine_id@),
    {
        let base = join_path(self.state_dir.as_str(), "machines");
        let dir = join_path(base.as_str(), machine_id.to_string().as_str());
        join_path(dir.as_str(), "logs")
    }

    /// `<cache>/downloads`
    pub fn get_image_download_dir(&self) -> (path: String)
        ensures
            path@ == self@.image_download_dir(),
    {
        join_path(self.cache_dir.as_str(), "downloads")
    }

    /// `<cache>/downloads/<n>.download`
    pub fn get_image_download_path(&self, download_id: u64) -> (path: String)
        ensures
            path@ == self@.image_download_path(download_id),
    {
        let name = decimal_string(download_id).concat(".download");
        join_path(self.get_image_download_dir().as_str(), name.as_str())
    }

    /// `<cache>/images/<hash>`
    pub fn get_image_cache_path(&self, hash: &str) -> (path: String)
        ensures
            path@ == self@.image_cache_path(hash@),
    {
        let base = join_path(self.cache_dir.as_str(), "images");
        join_path(base.as_str(), hash)
    }

    /// `<state>/instances/<id>/logs`
    pub fn get_instance_log_dir(&self, instance_id: Id) -> (path: String)
        ensures
            path@ == self@.instance_log_dir(instance_id@),
    {
        join_path(self.get_instance_state_dir(instance_id).as_str(), "logs")
    }
}

} // verus!
