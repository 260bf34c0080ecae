//! Machines: the persistent configuration of a guest, its cloud-init
//! documents, and its root image.

use crate::id::Id;
use crate::image_cache::GetImageHashResult;
use crate::ipv4::{dotted, Ipv4Address, Ipv4Cidr};
use crate::text::{clone_strings, option_view, views, words4};
use crate::vmm_dirs::{join_path, path_join, VmmDirs};
use crate::yaml::{
    has_text_key, single_entry, text_list, text_list_value, yaml_doc, yaml_entries, yaml_insert, yaml_list,
    yaml_mapping, yaml_number, yaml_table, yaml_text, yaml_to_string, yaml_written, YamlDoc,
};
use vstd::prelude::*;
use vstd::string::*;

verus! {

/// Why an operation on a machine failed.
#[derive(Debug, Clone, Copy, PartialEq, Eq, Structural)]
pub enum MachineError {
    /// The machine's configuration file exists already.
    ConfigExists,
    /// The machine's configuration file is missing.
    ConfigNotFound,
    /// A cloud-init document could not be written as YAML.
    Yaml,
    /// The image's hash is not the expected one.
    HashMismatch,
    /// The server did not say how long the image is.
    DownloadNoContentLength,
    /// The server answered with this status.
    DownloadFailed(u16),
    /// The image's body broke off.
    DownloadFailedToReadChunk,
    /// The download was cancelled.
    DownloadCancelled,
    /// The download failed in another way.
    DownloadUnknownError,
    /// `cloud-localds` ended without success.
    CloudLocalds,
}

/// Where the root image comes from.
#[derive(Debug, Clone, PartialEq, Eq)]
pub struct MachineImageConfig {
    pub url: String,
    /// The SHA-256 that the image must have, in hexadecimal.
    pub hash: Option<String>,
}

/// The guest's first user.
#[derive(Debug, Clone, PartialEq, Eq)]
pub struct MachineUserConfig {
    pub name: String,
    pub ssh_authorized_keys: Vec<String>,
}

/// An interface with a fixed address.
#[derive(Debug, Clone, PartialEq, Eq)]
pub struct MachineStaticNetworkConfig {
    pub interface: String,
    pub ip: Ipv4Cidr,
    pub gateway: Ipv4Cidr,
    pub nameservers: Vec<Ipv4Address>,
}

/// How the guest's interface gets its address.
#[derive(Debug, Clone, PartialEq, Eq)]
pub enum MachineInterfaceConfig {
    Static(MachineStaticNetworkConfig),
}

/// The network that the guest is bound to, and its interface there.
#[derive(Debug, Clone, PartialEq, Eq)]
pub struct MachineNetworkConfig {
    pub id: Id,
    pub interface: MachineInterfaceConfig,
}

/// The persistent record of a machine.
#[derive(Debug, Clone, PartialEq, Eq)]
pub struct MachineConfig {
    /// The name, which no other machine has.
    pub name: String,
    pub cpus: u8,
    /// The guest's memory in bytes.
    pub memory: u64,
    pub image: MachineImageConfig,
    /// The host paths that the guest shares.
    pub share_dirs: Vec<String>,
    pub user: MachineUserConfig,
    pub network: MachineNetworkConfig,
}

/// The image reference as contracts see it.
pub struct MachineImageView {
    pub url: Seq<char>,
    pub hash: Option<Seq<char>>,
}

/// The user as contracts see it.
pub struct MachineUserView {
    pub name: Seq<char>,
    pub ssh_authorized_keys: Seq<Seq<char>>,
}

/// The static interface as contracts see it.
pub struct MachineStaticNetworkView {
    pub interface: Seq<char>,
    pub ip: Ipv4Cidr,
    pub gateway: Ipv4Cidr,
    pub nameservers: Seq<Ipv4Address>,
}

/// The interface as contracts see it.
pub enum MachineInterfaceView {
    Static(MachineStaticNetworkView),
}

/// The network binding as contracts see it.
pub struct MachineNetworkView {
    pub id: u128,
    pub interface: MachineInterfaceView,
}

/// The record of a machine as contracts see it.
pub struct MachineConfigView {
    pub name: Seq<char>,
    pub cpus: u8,
    pub memory: u64,
    pub image: MachineImageView,
    pub share_dirs: Seq<Seq<char>>,
    pub user: MachineUserView,
    pub network: MachineNetworkView,
}

impl View for MachineImageConfig {
    type V = MachineImageView;

    open spec fn view(&self) -> MachineImageView {
        MachineImageView { url: self.url@, hash: option_view(self.hash) }
    }
}

impl View for MachineUserConfig {
    type V = MachineUserView;

    open spec fn view(&self) -> MachineUserView {
        MachineUserView {
            name: self.name@,
            ssh_authorized_keys: views(self.ssh_authorized_keys@),
        }
    }
}

impl View for MachineStaticNetworkConfig {
    type V = MachineStaticNetworkView;

    open spec fn view(&self) -> MachineStaticNetworkView {
        MachineStaticNetworkView {
            interface: self.interface@,
            ip: self.ip,
            gateway: self.gateway,
            nameservers: self.nameservers@,
        }
    }
}

impl View for MachineInterfaceConfig {
    type V = MachineInterfaceView;

    open spec fn view(&self) -> MachineInterfaceView {
        match *self {
            MachineInterfaceConfig::Static(config) => MachineInterfaceView::Static(config@),
        }
    }
}

impl View for MachineNetworkConfig {
    type V = MachineNetworkView;

    open spec fn view(&self) -> MachineNetworkView {
        MachineNetworkView { id: self.id@, interface: self.interface@ }
    }
}

impl View for MachineConfig {
    type V = MachineConfigView;

    open spec fn view(&self) -> MachineConfigView {
        MachineConfigView {
            name: self.name@,
            cpus: self.cpus,
            memory: self.memory,
            image: self.image@,
            share_dirs: views(self.share_dirs@),
            user: self.user@,
            network: self.network@,
        }
    }
}

/// The first line of every cloud-init document.
pub open spec fn cloud_config_header() -> Seq<char> {
    "#cloud-config\n"@
}

/// The user document: the list `users` with one user, who has a name and
/// SSH keys.
pub open spec fn user_entries(user: MachineUserView) -> Seq<(YamlDoc, YamlDoc)> {
    seq![
        (
            YamlDoc::Text("users"@),
            YamlDoc::List(
                seq![
                    YamlDoc::Table(
                        seq![
                            (YamlDoc::Text("name"@), YamlDoc::Text(user.name)),
                            (
                                YamlDoc::Text("ssh_authorized_keys"@),
                                text_list(user.ssh_authorized_keys),
                            ),
                        ],
                    ),
                ],
            ),
        ),
    ]
}

/// The settings of a static interface: no DHCP, one address, the gateway,
/// and the name servers.
pub open spec fn interface_entries(config: MachineStaticNetworkView) -> Seq<(YamlDoc, YamlDoc)> {
    seq![
        (YamlDoc::Text("dhcp4"@), YamlDoc::Text("no"@)),
        (YamlDoc::Text("addresses"@), text_list(seq![config.ip.text()])),
        (YamlDoc::Text("gateway4"@), YamlDoc::Text(config.gateway.text())),
        (
            YamlDoc::Text("nameservers"@),
            text_list(
                Seq::new(config.nameservers.len(), |i: int| dotted(config.nameservers[i].octets@)),
            ),
        ),
    ]
}

/// The network document: Netplan version 2 with the one interface under
/// `ethernets`.
pub open spec fn network_entries(config: MachineStaticNetworkView) -> Seq<(YamlDoc, YamlDoc)> {
    seq![
        (
            YamlDoc::Text("network"@),
            YamlDoc::Table(
                seq![
                    (YamlDoc::Text("version"@), YamlDoc::Number(2)),
                    (
                        YamlDoc::Text("ethernets"@),
                        YamlDoc::Table(
                            seq![
                                (
                                    YamlDoc::Text(config.interface),
                                    YamlDoc::Table(interface_entries(config)),
                                ),
                            ],
                        ),
                    ),
                ],
            ),
        ),
    ]
}

/// The network document of a binding.
pub open spec fn binding_entries(network: MachineNetworkView) -> Seq<(YamlDoc, YamlDoc)> {
    match network.interface {
        MachineInterfaceView::Static(config) => network_entries(config),
    }
}

/// What writing a document gives: its text, or the YAML error.
pub open spec fn written(entries: Seq<(YamlDoc, YamlDoc)>) -> Result<Seq<char>, MachineError> {
    match yaml_written(entries) {
        Some(text) => Ok(text),
        None => Err(MachineError::Yaml),
    }
}

/// The result of an exec function is the given text, or the given error.
pub open spec fn gives(r: Result<String, MachineError>, wanted: Result<Seq<char>, MachineError>) -> bool {
    match wanted {
        Ok(text) => r.is_ok() && r.unwrap()@ == text,
        Err(e) => r == Err::<String, MachineError>(e),
    }
}

/// The text of a cloud-init file: the header line, then the document.
pub open spec fn with_header(text: Result<Seq<char>, MachineError>) -> Result<
    Seq<char>,
    MachineError,
> {
    match text {
        Ok(t) => Ok(cloud_config_header() + t),
        Err(e) => Err(e),
    }
}

impl MachineImageConfig {
    /// A copy of the image reference.
    pub fn duplicate(&self) -> (copy: MachineImageConfig)
        ensures
            copy == *self,
    {
        MachineImageConfig {
            url: self.url.clone(),
            hash: match &self.hash {
                Some(h) => Some(h.clone()),
                None => None,
            },
        }
    }
}

impl MachineUserConfig {
    /// A copy of the user.
    pub fn duplicate(&self) -> (copy: MachineUserConfig)
        ensures
            copy@ == self@,
    {
        MachineUserConfig {
            name: self.name.clone(),
            ssh_authorized_keys: clone_strings(&self.ssh_authorized_keys),
        }
    }

    /// The user document of cloud-init as YAML.
    pub fn to_cloud_init_config(&self) -> (r: Result<String, MachineError>)
        ensures
            gives(r, written(user_entries(self@))),
    {
        proof {
            reveal_strlit("name");
            reveal_strlit("ssh_authorized_keys");
        }
        let mut initial_user = yaml_mapping();
        yaml_insert(&mut initial_user, "name", yaml_text(self.name.as_str()));
        proof {
            let entries = yaml_entries(initial_user);
            assert(entries =~= seq![(YamlDoc::Text("name"@), YamlDoc::Text(self.name@))]);
            assert(!has_text_key(entries, "ssh_authorized_keys"@)) by {
                assert("name"@.len() != "ssh_authorized_keys"@.len());
            }
        }
        yaml_insert(
            &mut initial_user,
            "ssh_authorized_keys",
            text_list_value(&self.ssh_authorized_keys),
        );
        let mut users: Vec<serde_yaml::Value> = Vec::new();
        users.push(yaml_table(initial_user));
        let root = single_entry("users", yaml_list(users));
        proof {
            assert(Seq::new(users@.len(), |i: int| yaml_doc(users@[i])) =~= seq![
                yaml_doc(users@[0]),
            ]);
            assert(yaml_entries(initial_user) =~= seq![
                (YamlDoc::Text("name"@), YamlDoc::Text(self.name@)),
                (YamlDoc::Text("ssh_authorized_keys"@), text_list(self@.ssh_authorized_keys)),
            ]);
            assert(yaml_entries(root) =~= user_entries(self@));
        }
        match yaml_to_string(&root) {
            Ok(text) => Ok(text),
            Err(_) => Err(MachineError::Yaml),
        }
    }
}

/// The dotted forms of the addresses.
pub fn address_texts(addresses: &Vec<Ipv4Address>) -> (texts: Vec<String>)
    ensures
        views(texts@) == Seq::new(addresses@.len(), |i: int| dotted(addresses@[i].octets@)),
{
    let mut texts: Vec<String> = Vec::new();
    let mut i: usize = 0;
    while i < addresses.len()
        invariant
            i <= addresses@.len(),
            texts@.len() == i,
            forall|k: int| 0 <= k < i ==> (#[trigger] texts@[k])@ == dotted(addresses@[k].octets@),
        decreases addresses@.len() - i,
    {
        texts.push(addresses[i].to_string());
        i = i + 1;
    }
    assert(views(texts@) =~= Seq::new(addresses@.len(), |i: int| dotted(addresses@[i].octets@)));
    texts
}

impl MachineStaticNetworkConfig {
    /// A copy of the interface.
    pub fn duplicate(&self) -> (copy: MachineStaticNetworkConfig)
        ensures
            copy@ == self@,
    {
        let mut nameservers: Vec<Ipv4Address> = Vec::new();
        let mut i: usize = 0;
        while i < self.nameservers.len()
            invariant
                i <= self.nameservers@.len(),
                nameservers@ == self.nameservers@.subrange(0, i as int),
            decreases self.nameservers@.len() - i,
        {
            nameservers.push(self.nameservers[i]);
            assert(nameservers@ =~= self.nameservers@.subrange(0, i + 1));
            i = i + 1;
        }
        assert(self.nameservers@.subrange(0, self.nameservers@.len() as int)
            =~= self.nameservers@);
        MachineStaticNetworkConfig {
            interface: self.interface.clone(),
            ip: self.ip,
            gateway: self.gateway,
            nameservers,
        }
    }

    /// The network document of cloud-init as YAML.
    pub fn to_cloud_init_config(&self) -> (r: Result<String, MachineError>)
        ensures
            gives(r, written(network_entries(self@))),
    {
        proof {
            reveal_strlit("dhcp4");
            reveal_strlit("addresses");
            reveal_strlit("gateway4");
            reveal_strlit("nameservers");
            reveal_strlit("version");
            reveal_strlit("ethernets");
        }
        let mut interface = yaml_mapping();
        yaml_insert(&mut interface, "dhcp4", yaml_text("no"));
        proof {
            assert(yaml_entries(interface) =~= seq![
                (YamlDoc::Text("dhcp4"@), YamlDoc::Text("no"@)),
            ]);
            assert("dhcp4"@.len() != "addresses"@.len());
        }
        let mut addresses: Vec<String> = Vec::new();
        addresses.push(self.ip.to_string());
        assert(views(addresses@) =~= seq![self.ip.text()]);
        yaml_insert(&mut interface, "addresses", text_list_value(&addresses));
        proof {
            assert(yaml_entries(interface) =~= seq![
                (YamlDoc::Text("dhcp4"@), YamlDoc::Text("no"@)),
                (YamlDoc::Text("addresses"@), text_list(seq![self.ip.text()])),
            ]);
            assert("dhcp4"@.len() != "gateway4"@.len());
            assert("addresses"@.len() != "gateway4"@.len());
        }
        yaml_insert(&mut interface, "gateway4", yaml_text(self.gateway.to_string().as_str()));
        proof {
            assert(yaml_entries(interface) =~= seq![
                (YamlDoc::Text("dhcp4"@), YamlDoc::Text("no"@)),
                (YamlDoc::Text("addresses"@), text_list(seq![self.ip.text()])),
                (YamlDoc::Text("gateway4"@), YamlDoc::Text(self.gateway.text())),
            ]);
            assert("dhcp4"@.len() != "nameservers"@.len());
            assert("addresses"@.len() != "nameservers"@.len());
            assert("gateway4"@.len() != "nameservers"@.len());
        }
        let nameservers = address_texts(&self.nameservers);
        yaml_insert(&mut interface, "nameservers", text_list_value(&nameservers));
        proof {
            assert(yaml_entries(interface) =~= interface_entries(self@));
        }
        let ethernets = single_entry(self.interface.as_str(), yaml_table(interface));
        let mut network = yaml_mapping();
        yaml_insert(&mut network, "version", yaml_number(2));
        proof {
            assert(yaml_entries(network) =~= seq![
                (YamlDoc::Text("version"@), YamlDoc::Number(2)),
            ]);
            assert("version"@.len() != "ethernets"@.len());
        }
        yaml_insert(&mut network, "ethernets", yaml_table(ethernets));
        let root = single_entry("network", yaml_table(network));
        proof {
            assert(yaml_entries(network) =~= seq![
                (YamlDoc::Text("version"@), YamlDoc::Number(2)),
                (
                    YamlDoc::Text("ethernets"@),
                    YamlDoc::Table(
                        seq![
                            (YamlDoc::Text(self.interface@), YamlDoc::Table(interface_entries(self@))),
                        ],
                    ),
                ),
            ]);
            assert(yaml_entries(root) =~= network_entries(self@));
        }
        match yaml_to_string(&root) {
            Ok(text) => Ok(text),
            Err(_) => Err(MachineError::Yaml),
        }
    }
}

impl MachineInterfaceConfig {
    /// A copy of the interface.
    pub fn duplicate(&self) -> (copy: MachineInterfaceConfig)
        ensures
            copy@ == self@,
    {
        match self {
            MachineInterfaceConfig::Static(config) => MachineInterfaceConfig::Static(
                config.duplicate(),
            ),
        }
    }
}

impl MachineNetworkConfig {
    /// A copy of the binding.
    pub fn duplicate(&self) -> (copy: MachineNetworkConfig)
        ensures
            copy@ == self@,
    {
        MachineNetworkConfig { id: self.id, interface: self.interface.duplicate() }
    }

    /// The network document of cloud-init as YAML.
    pub fn to_cloud_init_config(&self) -> (r: Result<String, MachineError>)
        ensures
            gives(r, written(binding_entries(self@))),
    {
        match &self.interface {
            MachineInterfaceConfig::Static(config) => config.to_cloud_init_config(),
        }
    }
}

/// Where a configuration is saved.
#[derive(Debug, PartialEq, Eq)]
pub struct SavePlace {
    /// The directory to make.
    pub dir: String,
    /// The file to write.
    pub file: String,
}

impl MachineConfig {
    /// A copy of the record.
    pub fn duplicate(&self) -> (copy: MachineConfig)
        ensures
            copy@ == self@,
    {
        MachineConfig {
            name: self.name.clone(),
            cpus: self.cpus,
            memory: self.memory,
            image: self.image.duplicate(),
            share_dirs: clone_strings(&self.share_dirs),
            user: self.user.duplicate(),
            network: self.network.duplicate(),
        }
    }

    /// The record of the machine `id`, read from its file: a missing file,
    /// or one that is no regular file, is an error.
    pub fn open(config: Option<MachineConfig>) -> (r: Result<MachineConfig, MachineError>)
        ensures
            match config {
                None => r == Err::<MachineConfig, MachineError>(MachineError::ConfigNotFound),
                Some(c) => r == Ok::<MachineConfig, MachineError>(c),
            },
    {
        match config {
            None => Err(MachineError::ConfigNotFound),
            Some(config) => Ok(config),
        }
    }

    /// Where the record of the machine `id` is saved. A record that is to be
    /// created must not exist yet.
    pub fn save(&self, dirs: &VmmDirs, id: Id, create: bool, exists: bool) -> (r: Result<
        SavePlace,
        MachineError,
    >)
        ensures
            create && exists ==> r == Err::<SavePlace, MachineError>(MachineError::ConfigExists),
            !(create && exists) ==> r.is_ok() && r.unwrap().dir@ == dirs@.machine_config_dir(id@)
                && r.unwrap().file@ == dirs@.machine_config_file_path(id@),
    {
        if create && exists {
            return Err(MachineError::ConfigExists);
        }
        let dir = dirs.get_machine_config_dir(id);
        let file = join_path(dir.as_str(), "config.json");
        Ok(SavePlace { dir, file })
    }
}

/// A file to write.
#[derive(Debug, PartialEq, Eq)]
pub struct FileWrite {
    pub path: String,
    pub text: String,
}

/// How the seed image of cloud-init is had.
#[derive(Debug, PartialEq, Eq)]
pub enum IsoPlan {
    /// The image exists: this is its path.
    Cached(String),
    /// The image has to be built: write the files, then run the program
    /// with the arguments in the directory; the image is then at `iso`.
    Build { iso: String, dir: String, writes: Vec<FileWrite>, program: String, args: Vec<String> },
}

/// A machine with its identifier.
#[derive(Debug, Clone, PartialEq, Eq)]
pub struct Machine {
    id: Id,
    config: MachineConfig,
}

/// The arguments of `cloud-localds`.
pub open spec fn cloud_localds_args() -> Seq<Seq<char>> {
    seq!["-v"@, "cloud-init.iso"@, "--network=network-config.yaml"@, "user-config.yaml"@]
}

/// What a result of the image cache means for a machine that expects
/// `expected`: the hash of its root image, or the error.
pub open spec fn root_image_hash(result: GetImageHashResult, expected: Option<Seq<char>>) -> Result<
    Seq<char>,
    MachineError,
> {
    match result {
        GetImageHashResult::ImageCached(hash) => if expected.is_some() && expected.unwrap()
            != hash@ {
            Err(MachineError::HashMismatch)
        } else {
            Ok(hash@)
        },
        GetImageHashResult::DownloadNoContentLength => Err(MachineError::DownloadNoContentLength),
        GetImageHashResult::DownloadFailed(status) => Err(MachineError::DownloadFailed(status)),
        GetImageHashResult::DownloadFailedToReadChunk => Err(
            MachineError::DownloadFailedToReadChunk,
        ),
        GetImageHashResult::DownloadCancelled => Err(MachineError::DownloadCancelled),
        GetImageHashResult::UnknownError => Err(MachineError::DownloadUnknownError),
    }
}

/// The path and the text of each file.
pub open spec fn write_views(writes: Seq<FileWrite>) -> Seq<(Seq<char>, Seq<char>)> {
    Seq::new(writes.len(), |i: int| (writes[i].path@, writes[i].text@))
}

/// The cloud-init files to write into `dir`, by path and text: the network
/// file, then the user file, each only where it is missing. A document
/// that cannot be written as YAML is the error.
pub open spec fn cloud_init_files(
    config: MachineConfigView,
    dir: Seq<char>,
    network_exists: bool,
    user_exists: bool,
) -> Result<Seq<(Seq<char>, Seq<char>)>, MachineError> {
    let first = if network_exists {
        Ok(Seq::<(Seq<char>, Seq<char>)>::empty())
    } else {
        match with_header(written(binding_entries(config.network))) {
            Ok(text) => Ok(seq![(path_join(dir, "network-config.yaml"@), text)]),
            Err(e) => Err(e),
        }
    };
    match first {
        Err(e) => Err(e),
        Ok(files) => if user_exists {
            Ok(files)
        } else {
            match with_header(written(user_entries(config.user))) {
                Ok(text) => Ok(files.push((path_join(dir, "user-config.yaml"@), text))),
                Err(e) => Err(e),
            }
        },
    }
}

impl Machine {
    /// The identifier.
    pub closed spec fn spec_id(&self) -> Id {
        self.id
    }

    /// The record.
    pub closed spec fn spec_config(&self) -> MachineConfig {
        self.config
    }

    /// A machine of a record.
    pub fn new(id: Id, config: MachineConfig) -> (machine: Machine)
        ensures
            machine.spec_id() == id,
            machine.spec_config() == config,
    {
        Machine { id, config }
    }

    /// The machine of a record that was read from its file.
    pub fn open(id: Id, config: Option<MachineConfig>) -> (r: Result<Machine, MachineError>)
        ensures
            match config {
                None => r == Err::<Machine, MachineError>(MachineError::ConfigNotFound),
                Some(c) => r.is_ok() && r.unwrap().spec_id() == id && r.unwrap().spec_config() == c,
            },
    {
        match MachineConfig::open(config) {
            Err(e) => Err(e),
            Ok(config) => Ok(Machine { id, config }),
        }
    }

    /// The identifier.
    pub fn id(&self) -> (id: &Id)
        ensures
            *id == self.spec_id(),
    {
        &self.id
    }

    /// The record.
    pub fn config(&self) -> (config: &MachineConfig)
        ensures
            *config == self.spec_config(),
    {
        &self.config
    }

    /// A copy of the machine.
    pub fn duplicate(&self) -> (copy: Machine)
        ensures
            copy.spec_id() == self.spec_id(),
            copy.spec_config()@ == self.spec_config()@,
    {
        Machine { id: self.id, config: self.config.duplicate() }
    }

    /// The path of the root image, given what the image cache answered for
    /// the machine's image. A cached image whose hash is not the expected
    /// one is refused; otherwise its hash becomes the expected one, which
    /// the caller saves with the record. Every other answer is its error.
    pub fn get_root_image(&mut self, dirs: &VmmDirs, result: GetImageHashResult) -> (r: Result<
        String,
        MachineError,
    >)
        ensures
            final(self).spec_id() == old(self).spec_id(),
            match root_image_hash(result, old(self).spec_config()@.image.hash) {
                Ok(hash) => {
                    &&& r.is_ok()
                    &&& r.unwrap()@ == dirs@.image_cache_path(hash)
                    &&& final(self).spec_config()@ == (MachineConfigView {
                        image: MachineImageView {
                            hash: Some(hash),
                            ..old(self).spec_config()@.image
                        },
                        ..old(self).spec_config()@
                    })
                },
                Err(e) => r == Err::<String, MachineError>(e) && final(self).spec_config() == old(
                    self,
                ).spec_config(),
            },
    {
        match result {
            GetImageHashResult::ImageCached(hash) => {
                let mismatch = match &self.config.image.hash {
                    Some(expected) => !(*expected == hash),
                    None => false,
                };
                if mismatch {
                    return Err(MachineError::HashMismatch);
                }
                let path = dirs.get_image_cache_path(hash.as_str());
                self.config.image.hash = Some(hash);
                Ok(path)
            },
            GetImageHashResult::DownloadNoContentLength => Err(
                MachineError::DownloadNoContentLength,
            ),
            GetImageHashResult::DownloadFailed(status) => Err(MachineError::DownloadFailed(status)),
            GetImageHashResult::DownloadFailedToReadChunk => Err(
                MachineError::DownloadFailedToReadChunk,
            ),
            GetImageHashResult::DownloadCancelled => Err(MachineError::DownloadCancelled),
            GetImageHashResult::UnknownError => Err(MachineError::DownloadUnknownError),
        }
    }

    /// Where the machine's record is saved when it changes.
    pub fn write_config(&self, dirs: &VmmDirs) -> (place: SavePlace)
        ensures
            place.dir@ == dirs@.machine_config_dir(self.spec_id()@),
            place.file@ == dirs@.machine_config_file_path(self.spec_id()@),
    {
        let dir = dirs.get_machine_config_dir(self.id);
        let file = join_path(dir.as_str(), "config.json");
        SavePlace { dir, file }
    }

    /// The file `network-config.yaml` of the machine: the header line and
    /// the network document.
    pub fn write_network_cloud_init_config(&self, dirs: &VmmDirs) -> (r: Result<
        FileWrite,
        MachineError,
    >)
        ensures
            match with_header(written(binding_entries(self.spec_config()@.network))) {
                Ok(text) => r.is_ok() && r.unwrap().text@ == text && r.unwrap().path@ == path_join(
                    dirs@.machine_config_dir(self.spec_id()@),
                    "network-config.yaml"@,
                ),
                Err(e) => r == Err::<FileWrite, MachineError>(e),
            },
    {
        match self.config.network.to_cloud_init_config() {
            Err(e) => Err(e),
            Ok(document) => {
                let dir = dirs.get_machine_config_dir(self.id);
                let path = join_path(dir.as_str(), "network-config.yaml");
                let text = String::from_str("#cloud-config\n").concat(document.as_str());
                Ok(FileWrite { path, text })
            },
        }
    }

    /// The file `user-config.yaml` of the machine: the header line and the
    /// user document.
    pub fn write_user_cloud_init_config(&self, dirs: &VmmDirs) -> (r: Result<
        FileWrite,
        MachineError,
    >)
        ensures
            match with_header(written(user_entries(self.spec_config()@.user))) {
                Ok(text) => r.is_ok() && r.unwrap().text@ == text && r.unwrap().path@ == path_join(
                    dirs@.machine_config_dir(self.spec_id()@),
                    "user-config.yaml"@,
                ),
                Err(e) => r == Err::<FileWrite, MachineError>(e),
            },
    {
        match self.config.user.to_cloud_init_config() {
            Err(e) => Err(e),
            Ok(document) => {
                let dir = dirs.get_machine_config_dir(self.id);
                let path = join_path(dir.as_str(), "user-config.yaml");
                let text = String::from_str("#cloud-config\n").concat(document.as_str());
                Ok(FileWrite { path, text })
            },
        }
    }

    /// The cloud-init files that are missing, the network file first. A
    /// file that exists is left as it is.
    pub fn write_cloud_init_config(
        &self,
        dirs: &VmmDirs,
        network_exists: bool,
        user_exists: bool,
    ) -> (r: Result<Vec<FileWrite>, MachineError>)
        ensures
            match cloud_init_files(
                self.spec_config()@,
                dirs@.machine_config_dir(self.spec_id()@),
                network_exists,
                user_exists,
            ) {
                Ok(files) => r.is_ok() && write_views(r.unwrap()@) == files,
                Err(e) => r == Err::<Vec<FileWrite>, MachineError>(e),
            },
    {
        let mut writes: Vec<FileWrite> = Vec::new();
        assert(write_views(writes@) =~= Seq::<(Seq<char>, Seq<char>)>::empty());
        if !network_exists {
            match self.write_network_cloud_init_config(dirs) {
                Err(e) => {
                    return Err(e);
                },
                Ok(write) => {
                    writes.push(write);
                    assert(write_views(writes@) =~= seq![(write.path@, write.text@)]);
                },
            }
        }
        if !user_exists {
            match self.write_user_cloud_init_config(dirs) {
                Err(e) => {
                    return Err(e);
                },
                Ok(write) => {
                    let ghost before = write_views(writes@);
                    writes.push(write);
                    assert(write_views(writes@) =~= before.push((write.path@, write.text@)));
                },
            }
        }
        Ok(writes)
    }

    /// How the seed image of the machine is had. An image that exists is
    /// used as it is. Otherwise the missing cloud-init files are written,
    /// and `cloud-localds` builds the image from them in the machine's
    /// configuration directory.
    pub fn get_cloud_init_iso(
        &self,
        dirs: &VmmDirs,
        iso_exists: bool,
        network_exists: bool,
        user_exists: bool,
    ) -> (r: Result<IsoPlan, MachineError>)
        ensures
            iso_exists ==> r.is_ok() && (r.unwrap() matches IsoPlan::Cached(path) && path@
                == path_join(dirs@.machine_config_dir(self.spec_id()@), "cloud-init.iso"@)),
            !iso_exists ==> match cloud_init_files(
                self.spec_config()@,
                dirs@.machine_config_dir(self.spec_id()@),
                network_exists,
                user_exists,
            ) {
                Err(e) => r == Err::<IsoPlan, MachineError>(e),
                Ok(files) => r.is_ok() && (r.unwrap() matches IsoPlan::Build {
                    iso,
                    dir,
                    writes,
                    program,
                    args,
                } && {
                    &&& iso@ == path_join(
                        dirs@.machine_config_dir(self.spec_id()@),
                        "cloud-init.iso"@,
                    )
                    &&& dir@ == dirs@.machine_config_dir(self.spec_id()@)
                    &&& write_views(writes@) == files
                    &&& program@ == "cloud-localds"@
                    &&& views(args@) == cloud_localds_args()
                }),
            },
    {
        let dir = dirs.get_machine_config_dir(self.id);
        let iso = join_path(dir.as_str(), "cloud-init.iso");
        if iso_exists {
            return Ok(IsoPlan::Cached(iso));
        }
        match self.write_cloud_init_config(dirs, network_exists, user_exists) {
            Err(e) => Err(e),
            Ok(writes) => Ok(
                IsoPlan::Build {
                    iso,
                    dir,
                    writes,
                    program: String::from_str("cloud-localds"),
                    args: words4(
                        "-v",
                        "cloud-init.iso",
                        "--network=network-config.yaml",
                        "user-config.yaml",
                    ),
                },
            ),
        }
    }

    /// The seed image after `cloud-localds` has ended: its path, or the
    /// error of a run without success.
    pub fn cloud_init_iso_built(iso: String, success: bool) -> (r: Result<String, MachineError>)
        ensures
            success ==> r == Ok::<String, MachineError>(iso),
            !success ==> r == Err::<String, MachineError>(MachineError::CloudLocalds),
    {
        if success {
            Ok(iso)
        } else {
            Err(MachineError::CloudLocalds)
        }
    }
}

} // verus!
