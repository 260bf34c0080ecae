use vmm::config::{Config, ConfigError, Machine, Network};
use vmm::id::{Id, IdError};
use vmm::image_manager::{
    check_status, finish_download, GetImageResult, ImageManager, ImageManagerMessage,
    ManagerEffect, ManagerError,
};
use vmm::ipv4::{Ipv4Address, Ipv4Cidr};
use vmm::machine_id::MachineId;
use vmm::net::{ensure_bridge, BridgeStep};
use vmm::supervisor::{LogLine, LogSource, LogStream, Supervisor, SupervisorError};

fn network(id: u128) -> Network {
    Network {
        id: Id(id),
        name: format!("net{}", id),
        ip: Ipv4Cidr::new(Ipv4Address::new(10, 0, 0, 1), 24).unwrap(),
    }
}

fn machine(id: u128, network: u128, virtiofs: Vec<&str>) -> Machine {
    Machine {
        id: Id(id),
        name: format!("m{}", id),
        network: Id(network),
        cpus: 4,
        memory: 1024,
        iso: "/iso".to_string(),
        boot: "/boot.qcow2".to_string(),
        virtiofs: virtiofs.into_iter().map(|s| s.to_string()).collect(),
    }
}

fn config() -> Config {
    Config {
        machines: vec![machine(1, 100, vec![]), machine(2, 100, vec!["/srv"])],
        networks: vec![network(100), network(200)],
    }
}

#[test]
fn machine_ids_have_the_text_of_ids() {
    assert_eq!(MachineId(0).to_string(), "8chF7tm8n9klfT5MGD24n7");
    assert_eq!(MachineId::try_from("xYyfzn3XTOUjzBXTmlU4n7".to_string()), Ok(MachineId(0x000102030405060708090a0b0c0d0e0f)));
    assert_eq!(MachineId::try_from("x-".to_string()), Err(IdError::BadCharacter));
    assert_eq!(MachineId::try_from("x".to_string()), Err(IdError::BadLength));
    assert_ne!(MachineId::new().unwrap(), MachineId::new().unwrap());
}

#[test]
fn the_configuration_finds_its_networks() {
    assert_eq!(config().find_network(Id(200)), Some(1));
    assert_eq!(config().find_network(Id(100)), Some(0));
    assert_eq!(config().find_network(Id(300)), None);
}

#[test]
fn supervisor_lines_are_rendered_in_columns() {
    let line = LogLine {
        id: Id(0),
        stream: LogStream::Stdout,
        source: LogSource::Qemu,
        line: "booting".to_string(),
    };
    assert_eq!(line.render(), "8chF7tm8n9klfT5MGD24n7     qemu stdout | booting");
    let line = LogLine {
        id: Id(0),
        stream: LogStream::Stderr,
        source: LogSource::Virtiofs,
        line: "x".to_string(),
    };
    assert_eq!(line.render(), "8chF7tm8n9klfT5MGD24n7 virtiofs stderr | x");
}

#[test]
fn the_first_machine_on_a_network_creates_its_bridge() {
    let mut supervisor = Supervisor::new(config(), "/state");
    assert_eq!(*supervisor.config(), config());
    let first = supervisor.create_and_start(&machine(1, 100, vec![]), &network(100)).unwrap();
    let bridge = first.bridge.unwrap();
    assert_eq!(bridge.steps[0].args, vec!["link", "show", "vmmbr-24n7"]);
    assert_eq!(bridge.steps[3].args, vec!["addr", "add", "10.0.0.1/24", "dev", "vmmbr-24n7"]);
    assert_eq!(first.tap.steps[0].args, vec!["tuntap", "add", "vmmtap-24n7", "mode", "tap"]);
    assert_eq!(first.machine_dir, "/state/machines/9chF7tm8n9klfT5MGD24n7");
    assert_eq!(first.qemu.program, "qemu-system-x86_64");
    assert_eq!(
        first.qemu.args,
        vec![
            "-machine",
            "type=pc,accel=kvm",
            "-boot",
            "d",
            "-smp",
            "4",
            "-m",
            "1024B",
            "-device",
            "virtio-net-pci,netdev=vmmtap-24n7,mac=52:54:00:00:00:01",
            "-netdev",
            "tap,id=vmmtap-24n7,ifname=vmmtap-24n7,script=no",
            "-drive",
            "file=/iso,media=cdrom",
            "-drive",
            "file=/boot.qcow2,if=virtio,cache=writeback,discard=ignore,format=qcow2",
            "-nographic",
            "-qmp",
            "unix:/tmp/vmm-qmp-9chF7tm8n9klfT5MGD24n7.sock,server,nowait",
        ]
    );
    assert!(first.virtiofs.is_empty());
    assert_eq!(supervisor.running(), vec![Id(1)]);
}

#[test]
fn a_bridge_lives_as_long_as_a_machine_is_on_it() {
    let mut supervisor = Supervisor::new(config(), "/state");
    assert!(supervisor
        .create_and_start(&machine(1, 100, vec![]), &network(100))
        .unwrap()
        .bridge
        .is_some());
    let second = supervisor.create_and_start(&machine(2, 100, vec!["/srv"]), &network(100)).unwrap();
    assert_eq!(second.bridge, None);
    assert_eq!(second.virtiofs.len(), 1);
    assert_eq!(second.qemu.args.len(), 19 + 8);
    let stop = supervisor.kill_and_destroy(Id(1)).unwrap();
    assert_eq!(stop.bridge, None);
    assert_eq!(stop.virtiofs, 0);
    assert_eq!(stop.tap.steps[1].args, vec!["link", "delete", "vmmtap-24n7"]);
    let last = supervisor.kill_and_destroy(Id(2)).unwrap();
    assert_eq!(last.virtiofs, 1);
    assert_eq!(last.bridge.unwrap().steps[1].args, vec!["link", "delete", "vmmbr-24n7"]);
    assert!(supervisor.running().is_empty());
    assert!(supervisor
        .create_and_start(&machine(1, 100, vec![]), &network(100))
        .unwrap()
        .bridge
        .is_some());
}

#[test]
fn a_machine_is_not_brought_up_twice_or_taken_down_twice() {
    let mut supervisor = Supervisor::new(config(), "/state");
    supervisor.create_and_start(&machine(1, 100, vec![]), &network(100)).unwrap();
    assert_eq!(
        supervisor.create_and_start(&machine(1, 100, vec![]), &network(100)).err(),
        Some(SupervisorError::MachineRunning)
    );
    assert!(supervisor.kill_and_destroy(Id(1)).is_ok());
    assert_eq!(supervisor.kill_and_destroy(Id(1)).err(), Some(SupervisorError::MachineNotFound));
}

#[test]
fn shares_of_the_supervisor_get_tags_of_their_own() {
    let mut supervisor = Supervisor::new(config(), "/state");
    let order =
        supervisor.create_and_start(&machine(2, 100, vec!["/a", "/b"]), &network(100)).unwrap();
    assert_eq!(order.virtiofs.len(), 2);
    let tag_a = order.virtiofs[0].args[5].clone();
    let tag_b = order.virtiofs[1].args[5].clone();
    assert_eq!(tag_a.len(), 8);
    assert_ne!(tag_a, tag_b);
    assert_eq!(order.virtiofs[0].args[3], "/a");
    assert_eq!(order.qemu.args.len(), 19 + 4 + 4 + 4);
    assert_eq!(order.qemu.args[20], format!(
        "socket,id=char-{},path=/tmp/vmm-virtiofs-AchF7tm8n9klfT5MGD24n7-{}.sock",
        tag_a, tag_a
    ));
    let third = supervisor.generate_virtiofs_tag().unwrap();
    assert_ne!(third, tag_a);
    assert_ne!(third, tag_b);
}

#[test]
fn the_manager_coalesces_requests() {
    let mut manager: ImageManager<u8> = ImageManager::new();
    assert!(manager.has_room());
    let url = "https://example/img".to_string();
    assert_eq!(
        manager.get_image(url.clone(), Some("abc".to_string()), 1),
        vec![ManagerEffect::StartDownload {
            download_id: 0,
            url: url.clone(),
            expected_hash: Some("abc".to_string())
        }]
    );
    assert!(manager.get_image(url.clone(), None, 2).is_empty());
    assert_eq!(
        manager.get_image("https://example/other".to_string(), None, 3),
        vec![ManagerEffect::StartDownload {
            download_id: 1,
            url: "https://example/other".to_string(),
            expected_hash: None
        }]
    );
    let done = manager.complete_download(0, GetImageResult::ImageCached("abc".to_string()));
    assert_eq!(
        done,
        Ok(vec![
            ManagerEffect::Respond {
                response: 1,
                result: GetImageResult::ImageCached("abc".to_string())
            },
            ManagerEffect::Respond {
                response: 2,
                result: GetImageResult::ImageCached("abc".to_string())
            },
            ManagerEffect::AwaitDownload { download_id: 0 },
        ])
    );
    assert_eq!(
        manager.complete_download(0, GetImageResult::DownloadFailedToReadChunk),
        Err(ManagerError::UnknownDownload)
    );
    assert_eq!(
        manager.get_image(url.clone(), Some("abc".to_string()), 4),
        vec![ManagerEffect::Respond {
            response: 4,
            result: GetImageResult::ImageCached("abc".to_string())
        }]
    );
    assert_eq!(
        manager.get_image(url.clone(), Some("other".to_string()), 5),
        vec![ManagerEffect::Respond {
            response: 5,
            result: GetImageResult::InconsistentHash("abc".to_string())
        }]
    );
}

#[test]
fn a_failed_download_is_forgotten() {
    let mut manager: ImageManager<u8> = ImageManager::new();
    let url = "https://example/img".to_string();
    manager.get_image(url.clone(), None, 1);
    let done = manager.run(ImageManagerMessage::DownloadCompleted(
        0,
        GetImageResult::DownloadFailed(500),
    ));
    assert_eq!(
        done,
        Ok(vec![
            ManagerEffect::Respond { response: 1, result: GetImageResult::DownloadFailed(500) },
            ManagerEffect::AwaitDownload { download_id: 0 },
        ])
    );
    let again = manager.run(ImageManagerMessage::GetImage(url.clone(), None, 2));
    assert_eq!(
        again,
        Ok(vec![ManagerEffect::StartDownload { download_id: 1, url, expected_hash: None }])
    );
}

#[test]
fn the_manager_worker_checks_status_and_hash() {
    assert_eq!(check_status(204), None);
    assert_eq!(check_status(404), Some(GetImageResult::DownloadFailed(404)));
    assert_eq!(
        finish_download("abc".to_string(), None),
        (GetImageResult::ImageCached("abc".to_string()), true)
    );
    assert_eq!(
        finish_download("abc".to_string(), Some("abc".to_string())),
        (GetImageResult::ImageCached("abc".to_string()), true)
    );
    assert_eq!(
        finish_download("abc".to_string(), Some("abd".to_string())),
        (GetImageResult::InconsistentHash("abc".to_string()), false)
    );
}

#[test]
fn the_configuration_refuses_conflicting_entries() {
    let mut file = config();
    assert_eq!(file.add_machine(machine(3, 300, vec![])), Err(ConfigError::NetworkNotFound));
    assert_eq!(file.add_machine(machine(1, 100, vec![])), Err(ConfigError::MachineIdTaken));
    let mut twin = machine(3, 100, vec![]);
    twin.name = "m2".to_string();
    assert_eq!(file.add_machine(twin), Err(ConfigError::MachineNameTaken));
    assert_eq!(file.machines.len(), 2);
    assert_eq!(file.add_machine(machine(3, 200, vec!["/x"])), Ok(()));
    assert_eq!(file.machines[2], machine(3, 200, vec!["/x"]));
    assert_eq!(file.add_network(network(100)), Err(ConfigError::NetworkIdTaken));
    let mut twin = network(300);
    twin.name = "net200".to_string();
    assert_eq!(file.add_network(twin), Err(ConfigError::NetworkNameTaken));
    assert_eq!(file.add_network(network(300)), Ok(()));
    assert_eq!(file.networks.len(), 3);
}

#[test]
fn a_bridge_is_created_once_and_then_brought_up() {
    assert_eq!(ensure_bridge(Some(7), false), BridgeStep::BringUp(7));
    assert_eq!(ensure_bridge(Some(7), true), BridgeStep::BringUp(7));
    assert_eq!(ensure_bridge(None, false), BridgeStep::Create);
    assert_eq!(ensure_bridge(None, true), BridgeStep::Vanished);
}
