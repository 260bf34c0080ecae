use vmm::id::Id;
use vmm::image_cache::GetImageHashResult;
use vmm::ipv4::{Ipv4Address, Ipv4Cidr};
use vmm::machine::{
    IsoPlan, Machine, MachineConfig, MachineError, MachineImageConfig, MachineInterfaceConfig,
    MachineNetworkConfig, MachineStaticNetworkConfig, MachineUserConfig,
};
use vmm::vmm_dirs::VmmDirs;

fn dirs() -> VmmDirs {
    VmmDirs::new("/c", "/k", Some("/s")).unwrap()
}

fn cidr(a: u8, b: u8, c: u8, d: u8, p: u8) -> Ipv4Cidr {
    Ipv4Cidr::new(Ipv4Address::new(a, b, c, d), p).unwrap()
}

fn static_config() -> MachineStaticNetworkConfig {
    MachineStaticNetworkConfig {
        interface: "eth0".to_string(),
        ip: cidr(10, 0, 0, 2, 24),
        gateway: cidr(10, 0, 0, 1, 24),
        nameservers: vec![Ipv4Address::new(1, 1, 1, 1), Ipv4Address::new(8, 8, 8, 8)],
    }
}

fn config(hash: Option<&str>) -> MachineConfig {
    MachineConfig {
        name: "web".to_string(),
        cpus: 2,
        memory: 2147483648,
        image: MachineImageConfig {
            url: "https://example/img.qcow2".to_string(),
            hash: hash.map(|h| h.to_string()),
        },
        share_dirs: vec!["/srv/data".to_string()],
        user: MachineUserConfig {
            name: "alice".to_string(),
            ssh_authorized_keys: vec!["ssh-ed25519 AAAA alice@host".to_string()],
        },
        network: MachineNetworkConfig {
            id: Id(1),
            interface: MachineInterfaceConfig::Static(static_config()),
        },
    }
}

const USER_YAML: &str = "users:\n- name: alice\n  ssh_authorized_keys:\n  - ssh-ed25519 AAAA alice@host\n";
const NETWORK_YAML: &str = "network:\n  version: 2\n  ethernets:\n    eth0:\n      dhcp4: no\n      addresses:\n      - 10.0.0.2/24\n      gateway4: 10.0.0.1/24\n      nameservers:\n      - 1.1.1.1\n      - 8.8.8.8\n";

#[test]
fn the_user_document_lists_one_user() {
    assert_eq!(config(None).user.to_cloud_init_config().unwrap(), USER_YAML);
}

#[test]
fn the_network_document_is_netplan_version_two() {
    assert_eq!(static_config().to_cloud_init_config().unwrap(), NETWORK_YAML);
    assert_eq!(config(None).network.to_cloud_init_config().unwrap(), NETWORK_YAML);
}

#[test]
fn duplicates_are_equal() {
    let c = config(Some("abc"));
    assert_eq!(c.duplicate(), c);
    assert_eq!(c.image.duplicate(), c.image);
    assert_eq!(c.user.duplicate(), c.user);
    assert_eq!(c.network.duplicate(), c.network);
    let m = Machine::new(Id(2), c);
    assert_eq!(m.duplicate(), m);
}

#[test]
fn a_record_is_opened_if_its_file_is_there() {
    assert_eq!(MachineConfig::open(None).err(), Some(MachineError::ConfigNotFound));
    assert_eq!(MachineConfig::open(Some(config(None))), Ok(config(None)));
    assert_eq!(Machine::open(Id(2), None).err(), Some(MachineError::ConfigNotFound));
    let machine = Machine::open(Id(2), Some(config(None))).unwrap();
    assert_eq!(*machine.id(), Id(2));
    assert_eq!(*machine.config(), config(None));
}

#[test]
fn a_record_is_not_created_twice() {
    let c = config(None);
    assert_eq!(c.save(&dirs(), Id(0), true, true).err(), Some(MachineError::ConfigExists));
    let place = c.save(&dirs(), Id(0), true, false).unwrap();
    assert_eq!(place.dir, "/c/vmm/machines/8chF7tm8n9klfT5MGD24n7");
    assert_eq!(place.file, "/c/vmm/machines/8chF7tm8n9klfT5MGD24n7/config.json");
    assert!(c.save(&dirs(), Id(0), false, true).is_ok());
    let machine = Machine::new(Id(0), c);
    assert_eq!(machine.write_config(&dirs()).file, place.file);
}

#[test]
fn a_cached_image_becomes_the_root_image() {
    let mut machine = Machine::new(Id(0), config(None));
    let path = machine.get_root_image(&dirs(), GetImageHashResult::ImageCached("abc".to_string()));
    assert_eq!(path, Ok("/k/vmm/images/abc".to_string()));
    assert_eq!(machine.config().image.hash, Some("abc".to_string()));
}

#[test]
fn an_image_with_another_hash_is_refused() {
    let mut machine = Machine::new(Id(0), config(Some("deadbeef")));
    let path = machine.get_root_image(&dirs(), GetImageHashResult::ImageCached("00".to_string()));
    assert_eq!(path, Err(MachineError::HashMismatch));
    assert_eq!(machine.config().image.hash, Some("deadbeef".to_string()));
    let path =
        machine.get_root_image(&dirs(), GetImageHashResult::ImageCached("deadbeef".to_string()));
    assert_eq!(path, Ok("/k/vmm/images/deadbeef".to_string()));
}

#[test]
fn a_failed_download_is_the_machines_error() {
    let mut machine = Machine::new(Id(0), config(None));
    let d = dirs();
    assert_eq!(
        machine.get_root_image(&d, GetImageHashResult::DownloadNoContentLength),
        Err(MachineError::DownloadNoContentLength)
    );
    assert_eq!(
        machine.get_root_image(&d, GetImageHashResult::DownloadFailed(503)),
        Err(MachineError::DownloadFailed(503))
    );
    assert_eq!(
        machine.get_root_image(&d, GetImageHashResult::DownloadFailedToReadChunk),
        Err(MachineError::DownloadFailedToReadChunk)
    );
    assert_eq!(
        machine.get_root_image(&d, GetImageHashResult::DownloadCancelled),
        Err(MachineError::DownloadCancelled)
    );
    assert_eq!(
        machine.get_root_image(&d, GetImageHashResult::UnknownError),
        Err(MachineError::DownloadUnknownError)
    );
    assert_eq!(machine.config().image.hash, None);
}

#[test]
fn cloud_init_files_begin_with_the_header() {
    let machine = Machine::new(Id(0), config(None));
    let network = machine.write_network_cloud_init_config(&dirs()).unwrap();
    assert_eq!(network.path, "/c/vmm/machines/8chF7tm8n9klfT5MGD24n7/network-config.yaml");
    assert_eq!(network.text, format!("#cloud-config\n{}", NETWORK_YAML));
    let user = machine.write_user_cloud_init_config(&dirs()).unwrap();
    assert_eq!(user.path, "/c/vmm/machines/8chF7tm8n9klfT5MGD24n7/user-config.yaml");
    assert_eq!(user.text, format!("#cloud-config\n{}", USER_YAML));
}

#[test]
fn only_missing_cloud_init_files_are_written() {
    let machine = Machine::new(Id(0), config(None));
    let d = dirs();
    assert_eq!(machine.write_cloud_init_config(&d, true, true).unwrap().len(), 0);
    let both = machine.write_cloud_init_config(&d, false, false).unwrap();
    assert_eq!(both.len(), 2);
    assert!(both[0].path.ends_with("/network-config.yaml"));
    assert!(both[1].path.ends_with("/user-config.yaml"));
    let user_only = machine.write_cloud_init_config(&d, true, false).unwrap();
    assert_eq!(user_only.len(), 1);
    assert!(user_only[0].path.ends_with("/user-config.yaml"));
    let network_only = machine.write_cloud_init_config(&d, false, true).unwrap();
    assert_eq!(network_only.len(), 1);
    assert!(network_only[0].path.ends_with("/network-config.yaml"));
}

#[test]
fn a_seed_image_that_exists_is_used() {
    let machine = Machine::new(Id(0), config(None));
    assert_eq!(
        machine.get_cloud_init_iso(&dirs(), true, false, false),
        Ok(IsoPlan::Cached("/c/vmm/machines/8chF7tm8n9klfT5MGD24n7/cloud-init.iso".to_string()))
    );
}

#[test]
fn a_missing_seed_image_is_built_by_cloud_localds() {
    let machine = Machine::new(Id(0), config(None));
    match machine.get_cloud_init_iso(&dirs(), false, false, true).unwrap() {
        IsoPlan::Build { iso, dir, writes, program, args } => {
            assert_eq!(iso, "/c/vmm/machines/8chF7tm8n9klfT5MGD24n7/cloud-init.iso");
            assert_eq!(dir, "/c/vmm/machines/8chF7tm8n9klfT5MGD24n7");
            assert_eq!(writes.len(), 1);
            assert_eq!(program, "cloud-localds");
            assert_eq!(
                args,
                vec!["-v", "cloud-init.iso", "--network=network-config.yaml", "user-config.yaml"]
            );
        }
        other => panic!("unexpected plan {:?}", other),
    }
}

#[test]
fn a_failed_build_is_an_error() {
    assert_eq!(Machine::cloud_init_iso_built("/x.iso".to_string(), true), Ok("/x.iso".to_string()));
    assert_eq!(
        Machine::cloud_init_iso_built("/x.iso".to_string(), false),
        Err(MachineError::CloudLocalds)
    );
}
