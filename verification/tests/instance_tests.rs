use vmm::id::Id;
use vmm::instance::{Instance, InstanceError, InstanceState, InstanceStatus};
use vmm::ipv4::{Ipv4Address, Ipv4Cidr};
use vmm::logger::{LogId, LogSource, LogStream};
use vmm::machine::{
    Machine, MachineConfig, MachineImageConfig, MachineInterfaceConfig, MachineNetworkConfig,
    MachineStaticNetworkConfig, MachineUserConfig,
};
use vmm::network::{Network, NetworkConfig};
use vmm::share_dir::{generate_tag, tag_from_bytes, ShareDir, ShareDirError};

fn sample() -> Id {
    Id(0x000102030405060708090a0b0c0d0e0f)
}

fn cidr(d: u8) -> Ipv4Cidr {
    Ipv4Cidr::new(Ipv4Address::new(10, 0, 0, d), 24).unwrap()
}

fn machine(share_dirs: Vec<&str>) -> Machine {
    Machine::new(
        Id(1),
        MachineConfig {
            name: "web".to_string(),
            cpus: 2,
            memory: 2147483648,
            image: MachineImageConfig { url: "https://example/img".to_string(), hash: None },
            share_dirs: share_dirs.into_iter().map(|s| s.to_string()).collect(),
            user: MachineUserConfig { name: "alice".to_string(), ssh_authorized_keys: vec![] },
            network: MachineNetworkConfig {
                id: Id(2),
                interface: MachineInterfaceConfig::Static(MachineStaticNetworkConfig {
                    interface: "eth0".to_string(),
                    ip: cidr(2),
                    gateway: cidr(1),
                    nameservers: vec![],
                }),
            },
        },
    )
}

fn network() -> Network {
    Network::with_config(Id(2), NetworkConfig { name: "lan".to_string(), ip: cidr(1) })
}

fn share(tag: &str) -> ShareDir {
    ShareDir::with_tag(sample(), 1024, "/srv/data".to_string(), tag.to_string())
}

#[test]
fn a_tag_is_the_first_eight_characters_of_the_text_of_six_bytes() {
    assert_eq!(tag_from_bytes(&[1, 2, 3, 4, 5, 6]), "QsgQ82FI");
    assert_eq!(tag_from_bytes(&[0, 0, 0, 0, 0, 0]).len(), 8);
    assert_eq!(tag_from_bytes(&[255, 255, 255, 255, 255, 255]).len(), 8);
}

#[test]
fn generated_tags_are_new() {
    let first = generate_tag(&vec![]).unwrap();
    assert_eq!(first.len(), 8);
    assert!(first.chars().all(|c| c.is_ascii_alphanumeric()));
    let second = generate_tag(&vec![first.clone()]).unwrap();
    assert_eq!(second.len(), 8);
    assert_ne!(first, second);
}

#[test]
fn two_shares_of_one_path_get_distinct_tags_and_sockets() {
    let m = machine(vec![]);
    let a = ShareDir::new(sample(), &m, "/srv/data".to_string(), &vec![]).unwrap();
    let b = ShareDir::new(Id(9), &m, "/srv/data".to_string(), &vec![a.tag().clone()]).unwrap();
    assert_eq!(a.tag().len(), 8);
    assert_ne!(a.tag(), b.tag());
    assert_ne!(a.get_socket_path(), b.get_socket_path());
    assert_eq!(
        a.get_socket_path(),
        format!("/tmp/vmm-virtiofs-xYyfzn3XTOUjzBXTmlU4n7-{}.sock", a.tag())
    );
}

#[test]
fn the_socket_is_named_by_instance_and_tag() {
    assert_eq!(
        share("AbCd1234").get_socket_path(),
        "/tmp/vmm-virtiofs-xYyfzn3XTOUjzBXTmlU4n7-AbCd1234.sock"
    );
}

#[test]
fn qemu_arguments_of_a_share() {
    let dir = share("AbCd1234");
    assert_eq!(
        dir.get_qemu_args(false),
        vec![
            "-chardev",
            "socket,id=char-AbCd1234,path=/tmp/vmm-virtiofs-xYyfzn3XTOUjzBXTmlU4n7-AbCd1234.sock",
            "-device",
            "vhost-user-fs-pci,queue-size=1024,chardev=char-AbCd1234,tag=AbCd1234",
        ]
    );
    let with = dir.get_qemu_args(true);
    assert_eq!(with.len(), 8);
    assert_eq!(
        &with[4..],
        &[
            "-object",
            "memory-backend-file,id=mem,size=1024B,mem-path=/dev/shm,share=on",
            "-numa",
            "node,memdev=mem",
        ]
    );
}

#[test]
fn the_daemon_starts_once() {
    let mut dir = share("AbCd1234");
    assert!(!dir.is_running());
    let spawn = dir.start().unwrap();
    assert_eq!(spawn.program, "/usr/lib/virtiofsd");
    assert_eq!(
        spawn.args,
        vec![
            "--socket-path",
            "/tmp/vmm-virtiofs-xYyfzn3XTOUjzBXTmlU4n7-AbCd1234.sock",
            "--shared-dir",
            "/srv/data",
            "--tag",
            "AbCd1234",
        ]
    );
    assert_eq!(dir.start_virtiofsd(), spawn);
    assert!(dir.is_running());
    assert_eq!(dir.start(), None);
    assert!(dir.stop());
    assert!(!dir.stop());
    assert!(dir.start().is_some());
    dir.start_failed();
    assert!(!dir.is_running());
}

#[test]
fn a_daemon_that_fails_is_an_error() {
    assert_eq!(ShareDir::stopped(true), Ok(true));
    assert_eq!(ShareDir::stopped(false), Err(ShareDirError::VirtiofsdFailed));
}

#[test]
fn daemon_lines_go_to_the_instance_log() {
    let line = share("AbCd1234").log_line(4, 86_400, LogStream::Stderr, "oops".to_string());
    assert_eq!(line.id, LogId::Instance(sample(), 4));
    assert_eq!(line.source, LogSource::Virtiofs);
    assert_eq!(line.file_name(), "virtiofs.1-4.stderr");
}

#[test]
fn a_new_instance_starts_at_boot_zero() {
    let (instance, state) = Instance::new(sample(), machine(vec![]), network(), false).unwrap();
    assert_eq!(
        state,
        InstanceState { id: sample(), boot_seq: 0, machine_id: Id(1), network_id: Id(2) }
    );
    assert_eq!(*instance.id(), sample());
    assert_eq!(instance.boot_seq(), 0);
    assert_eq!(instance.status(), InstanceStatus::New);
    assert_eq!(*instance.machine(), machine(vec![]));
    assert_eq!(*instance.network(), network());
    assert!(instance.can_drop());
}

#[test]
fn a_new_instance_must_not_have_a_state_file() {
    assert_eq!(
        Instance::new(sample(), machine(vec![]), network(), true).err(),
        Some(InstanceError::StateExists)
    );
}

#[test]
fn every_read_grows_the_boot_sequence_by_one() {
    let state = InstanceState { id: sample(), boot_seq: 0, machine_id: Id(1), network_id: Id(2) };
    let (first, next) = Instance::read(sample(), Some(state), machine(vec![]), network()).unwrap();
    assert_eq!(next.boot_seq, 1);
    assert_eq!(first.boot_seq(), 1);
    let (second, after) = Instance::read(sample(), Some(next), machine(vec![]), network()).unwrap();
    assert_eq!(after, InstanceState { boot_seq: 2, ..state });
    assert_eq!(second.boot_seq(), 2);
    assert_eq!(state.next_boot(), Ok(InstanceState { boot_seq: 1, ..state }));
}

#[test]
fn a_read_can_fail() {
    let state = InstanceState { id: sample(), boot_seq: 7, machine_id: Id(1), network_id: Id(2) };
    assert_eq!(
        Instance::read(sample(), None, machine(vec![]), network()).err(),
        Some(InstanceError::StateNotFound)
    );
    let full = InstanceState { boot_seq: u64::MAX, ..state };
    assert_eq!(
        Instance::read(sample(), Some(full), machine(vec![]), network()).err(),
        Some(InstanceError::BootSeqExhausted)
    );
    assert_eq!(full.next_boot(), Err(InstanceError::BootSeqExhausted));
    let other_machine = InstanceState { machine_id: Id(5), ..state };
    assert_eq!(
        Instance::read(sample(), Some(other_machine), machine(vec![]), network()).err(),
        Some(InstanceError::WrongMachine)
    );
    let other_network = InstanceState { network_id: Id(5), ..state };
    assert_eq!(
        Instance::read(sample(), Some(other_network), machine(vec![]), network()).err(),
        Some(InstanceError::WrongNetwork)
    );
}

#[test]
fn the_mac_address_comes_from_the_id() {
    let (instance, _) = Instance::new(sample(), machine(vec![]), network(), false).unwrap();
    assert_eq!(instance.get_mac_address(), "52:54:00:0d:0e:0f");
}

#[test]
fn qemu_arguments_stand_in_their_fixed_order() {
    let (instance, _) = Instance::new(sample(), machine(vec![]), network(), false).unwrap();
    assert_eq!(
        instance.get_qemu_args("/c/cloud-init.iso", "/k/images/abc"),
        vec![
            "-machine",
            "type=pc,accel=kvm",
            "-boot",
            "d",
            "-smp",
            "2",
            "-m",
            "2147483648B",
            "-device",
            "virtio-net-pci,netdev=vmmtap-U4n7,mac=52:54:00:0d:0e:0f",
            "-netdev",
            "tap,id=vmmtap-U4n7,ifname=vmmtap-U4n7,script=no",
            "-drive",
            "file=/c/cloud-init.iso,media=cdrom",
            "-drive",
            "file=/k/images/abc,if=virtio,cache=writeback,discard=ignore,format=qcow2",
            "-nographic",
            "-qmp",
            "unix:/tmp/vmm-qmp-xYyfzn3XTOUjzBXTmlU4n7.sock,server,nowait",
        ]
    );
    let spawn = instance.start_qemu("/c/cloud-init.iso", "/k/images/abc");
    assert_eq!(spawn.program, "qemu-system-x86_64");
    assert_eq!(spawn.args.len(), 19);
}

#[test]
fn the_memory_backend_stands_once_for_all_shares() {
    let dirs = vec![
        ShareDir::with_tag(sample(), 4096, "/a".to_string(), "aaaaaaaa".to_string()),
        ShareDir::with_tag(sample(), 4096, "/b".to_string(), "bbbbbbbb".to_string()),
    ];
    let instance = Instance::assemble(sample(), 0, machine(vec!["/a", "/b"]), network(), dirs);
    let args = instance.get_qemu_args("i", "r");
    assert_eq!(args.len(), 19 + 4 + 4 + 4);
    assert_eq!(args[19], "-chardev");
    assert_eq!(args[21], "-device");
    assert_eq!(args[23], "-object");
    assert_eq!(args[24], "memory-backend-file,id=mem,size=4096B,mem-path=/dev/shm,share=on");
    assert_eq!(args[25], "-numa");
    assert_eq!(args[26], "node,memdev=mem");
    assert_eq!(args[27], "-chardev");
    assert_eq!(
        args[30],
        "vhost-user-fs-pci,queue-size=1024,chardev=char-bbbbbbbb,tag=bbbbbbbb"
    );
    assert_eq!(args.iter().filter(|a| a.as_str() == "-object").count(), 1);
}

#[test]
fn a_fresh_instance_has_a_share_for_each_path() {
    let (mut instance, _) =
        Instance::new(sample(), machine(vec!["/a", "/a"]), network(), false).unwrap();
    let plan = instance.start();
    assert_eq!(plan.share_dirs.len(), 2);
    assert_eq!(plan.share_dirs[0].index, 0);
    assert_eq!(plan.share_dirs[1].index, 1);
    assert_eq!(plan.share_dirs[0].spawn.args[3], "/a");
    let tag_a = plan.share_dirs[0].spawn.args[5].clone();
    let tag_b = plan.share_dirs[1].spawn.args[5].clone();
    assert_eq!(tag_a.len(), 8);
    assert_ne!(tag_a, tag_b);
}

#[test]
fn start_is_idempotent_and_stop_awaits_what_ran() {
    let dirs = vec![
        ShareDir::with_tag(sample(), 4096, "/a".to_string(), "aaaaaaaa".to_string()),
        ShareDir::with_tag(sample(), 4096, "/b".to_string(), "bbbbbbbb".to_string()),
    ];
    let mut instance = Instance::assemble(sample(), 0, machine(vec!["/a", "/b"]), network(), dirs);
    let plan = instance.start();
    assert!(plan.start_qemu);
    assert_eq!(plan.bridge.steps.len(), 5);
    assert_eq!(plan.bridge.steps[0].args, vec!["link", "show", "vmmbr-24n7"]);
    assert_eq!(plan.tap.steps[4].args, vec!["link", "set", "vmmtap-U4n7", "master", "vmmbr-24n7"]);
    assert_eq!(plan.share_dirs.len(), 2);
    assert_eq!(instance.status(), InstanceStatus::Running);
    assert!(!instance.can_drop());
    let again = instance.start();
    assert!(!again.start_qemu);
    assert!(again.share_dirs.is_empty());
    let stop = instance.stop();
    assert!(stop.wait_qemu);
    assert_eq!(stop.share_dirs, vec![0, 1]);
    assert_eq!(instance.status(), InstanceStatus::Stopped);
    assert!(instance.can_drop());
    let idle = instance.stop();
    assert!(!idle.wait_qemu);
    assert!(idle.share_dirs.is_empty());
    assert!(instance.start().start_qemu);
}

#[test]
fn qemu_that_fails_is_an_error() {
    assert_eq!(Instance::stop_qemu(true), Ok(()));
    assert_eq!(Instance::stop_qemu(false), Err(InstanceError::QemuFailed));
}

#[test]
fn qemu_lines_go_to_the_instance_log_of_the_boot() {
    let state = InstanceState { id: sample(), boot_seq: 2, machine_id: Id(1), network_id: Id(2) };
    let (instance, _) = Instance::read(sample(), Some(state), machine(vec![]), network()).unwrap();
    let line = instance.log_line(0, LogStream::Stdout, "boot".to_string());
    assert_eq!(line.id, LogId::Instance(sample(), 3));
    assert_eq!(line.file_name(), "qemu.0-3.stdout");
}
