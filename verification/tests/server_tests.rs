use vmm::id::Id;
use vmm::instance::{Instance, InstanceStatus};
use vmm::ipv4::{Ipv4Address, Ipv4Cidr};
use vmm::machine::{
    Machine, MachineConfig, MachineImageConfig, MachineInterfaceConfig, MachineNetworkConfig,
    MachineStaticNetworkConfig, MachineUserConfig,
};
use vmm::network::{Network, NetworkConfig};
use vmm::server::{EntityKind, Server, ServerError};

fn cidr(d: u8) -> Ipv4Cidr {
    Ipv4Cidr::new(Ipv4Address::new(10, 0, 0, d), 24).unwrap()
}

fn machine_config(name: &str) -> MachineConfig {
    MachineConfig {
        name: name.to_string(),
        cpus: 1,
        memory: 1 << 30,
        image: MachineImageConfig { url: "https://example/img".to_string(), hash: None },
        share_dirs: vec![],
        user: MachineUserConfig { name: "alice".to_string(), ssh_authorized_keys: vec![] },
        network: MachineNetworkConfig {
            id: Id(100),
            interface: MachineInterfaceConfig::Static(MachineStaticNetworkConfig {
                interface: "eth0".to_string(),
                ip: cidr(2),
                gateway: cidr(1),
                nameservers: vec![],
            }),
        },
    }
}

fn network_config(name: &str) -> NetworkConfig {
    NetworkConfig { name: name.to_string(), ip: cidr(1) }
}

fn machine(id: u128, name: &str) -> Machine {
    Machine::new(Id(id), machine_config(name))
}

fn network(id: u128, name: &str) -> Network {
    Network::with_config(Id(id), network_config(name))
}

fn instance(id: u128, machine_id: u128, network_id: u128) -> Instance {
    Instance::assemble(Id(id), 0, machine(machine_id, "m"), network(network_id, "n"), vec![])
}

fn server_with_two_instances() -> Server {
    let mut server = Server::new();
    server.add_machine(machine(1, "web")).unwrap();
    server.add_network(network(100, "lan")).unwrap();
    server.add_instance(instance(10, 1, 100)).unwrap();
    server.add_instance(instance(11, 1, 100)).unwrap();
    server
}

#[test]
fn an_empty_registry_finds_nothing() {
    let server = Server::new();
    assert!(!server.has_machine(Id(1)));
    assert!(!server.has_network(Id(1)));
    assert!(!server.has_instance(Id(1)));
    assert!(server.machine(Id(1)).is_none());
    assert_eq!(server.lookup(EntityKind::Machine, &"web".to_string()), None);
}

#[test]
fn names_are_unique_within_a_kind() {
    let mut server = Server::new();
    assert_eq!(server.add_machine(machine(1, "web")), Ok(()));
    assert_eq!(
        server.add_machine(machine(2, "web")),
        Err(ServerError::DuplicateName(EntityKind::Machine))
    );
    assert_eq!(server.add_machine(machine(1, "db")), Err(ServerError::DuplicateId));
    assert_eq!(server.add_machine(machine(2, "db")), Ok(()));
    assert_eq!(server.add_network(network(1, "web")), Ok(()));
    assert_eq!(
        server.add_network(network(2, "web")),
        Err(ServerError::DuplicateName(EntityKind::Network))
    );
    assert_eq!(server.add_network(network(1, "lan")), Err(ServerError::DuplicateId));
    assert_eq!(server.lookup(EntityKind::Machine, &"db".to_string()), Some(Id(2)));
    assert_eq!(server.lookup(EntityKind::Network, &"web".to_string()), Some(Id(1)));
    assert_eq!(server.lookup(EntityKind::Network, &"db".to_string()), None);
    assert_eq!(server.machine(Id(2)), Some(&machine(2, "db")));
    assert_eq!(server.network(Id(1)), Some(&network(1, "web")));
}

#[test]
fn read_all_fails_loudly_on_duplicate_names() {
    let mut server = Server::new();
    let result = server.read_all(
        vec![machine(1, "web"), machine(2, "db"), machine(3, "web")],
        vec![network(100, "lan")],
        vec![],
    );
    assert_eq!(result, Err(ServerError::DuplicateName(EntityKind::Machine)));
    let mut server = Server::new();
    let result =
        server.read_all(vec![machine(1, "web")], vec![network(1, "lan"), network(2, "lan")], vec![]);
    assert_eq!(result, Err(ServerError::DuplicateName(EntityKind::Network)));
}

#[test]
fn read_all_files_everything() {
    let mut server = Server::new();
    let result = server.read_all(
        vec![machine(1, "web"), machine(2, "db")],
        vec![network(100, "lan")],
        vec![instance(10, 1, 100), instance(11, 2, 100)],
    );
    assert_eq!(result, Ok(()));
    assert!(server.has_machine(Id(1)) && server.has_machine(Id(2)));
    assert!(server.has_network(Id(100)));
    assert!(server.has_instance(Id(10)) && server.has_instance(Id(11)));
    assert_eq!(server.instance(Id(11)).unwrap().status(), InstanceStatus::New);
}

#[test]
fn instances_must_reference_what_exists() {
    let mut server = Server::new();
    server.add_machine(machine(1, "web")).unwrap();
    server.add_network(network(100, "lan")).unwrap();
    assert_eq!(server.add_instance(instance(10, 2, 100)), Err(ServerError::MachineNotFound));
    assert_eq!(server.add_instance(instance(10, 1, 101)), Err(ServerError::NetworkNotFound));
    assert_eq!(server.add_instance(instance(10, 1, 100)), Ok(()));
    assert_eq!(server.add_instance(instance(10, 1, 100)), Err(ServerError::DuplicateId));
    assert_eq!(
        server.read_instances(vec![instance(11, 1, 100), instance(12, 9, 100)]),
        Err(ServerError::MachineNotFound)
    );
    assert_eq!(server.read_machines(vec![machine(1, "x")]), Err(ServerError::DuplicateId));
    assert_eq!(server.read_networks(vec![network(101, "wan")]), Ok(()));
}

#[test]
fn created_entities_get_fresh_ids() {
    let mut server = Server::new();
    let a = server.create_machine(machine_config("web")).unwrap();
    let b = server.create_machine(machine_config("db")).unwrap();
    assert_ne!(a, b);
    assert_eq!(*server.machine(a).unwrap().config(), machine_config("web"));
    assert_eq!(
        server.create_machine(machine_config("web")),
        Err(ServerError::DuplicateName(EntityKind::Machine))
    );
    let n = server.create_network(network_config("lan")).unwrap();
    assert_eq!(*server.network(n).unwrap().config(), network_config("lan"));
    assert_eq!(
        server.create_network(network_config("lan")),
        Err(ServerError::DuplicateName(EntityKind::Network))
    );
    let state = server.create_instance(a, n).unwrap();
    assert_eq!(state.boot_seq, 0);
    assert_eq!(state.machine_id, a);
    assert_eq!(state.network_id, n);
    assert!(server.has_instance(state.id));
    assert_eq!(server.create_instance(Id(5), n), Err(ServerError::MachineNotFound));
    assert_eq!(server.create_instance(a, Id(5)), Err(ServerError::NetworkNotFound));
    assert!(server.new_machine_id().is_ok());
    assert!(server.new_network_id().is_ok());
    assert!(server.new_instance_id().is_ok());
}

#[test]
fn starting_or_stopping_an_unknown_instance_fails() {
    let mut server = Server::new();
    assert_eq!(server.start_instance(&Id(1)).err(), Some(ServerError::InstanceNotFound));
    assert_eq!(server.stop_instance(Id(1)).err(), Some(ServerError::InstanceNotFound));
}

#[test]
fn two_instances_on_one_network_share_its_bridge() {
    let mut server = server_with_two_instances();
    let first = server.start_instance(&Id(10)).unwrap();
    assert!(first.first_on_network);
    assert!(first.plan.start_qemu);
    assert_eq!(first.plan.bridge.steps[1].args, vec!["link", "add", "vmmbr-24n7", "type", "bridge"]);
    let second = server.start_instance(&Id(11)).unwrap();
    assert!(!second.first_on_network);
    assert_eq!(server.instance(Id(10)).unwrap().status(), InstanceStatus::Running);

    let stop = server.stop_instance(Id(10)).unwrap();
    assert!(stop.plan.wait_qemu);
    assert_eq!(
        stop.delete_tap.unwrap().steps[1].args,
        vec!["link", "delete", "vmmtap-24n7"]
    );
    assert_eq!(stop.delete_bridge, None);

    let last = server.stop_instance(Id(11)).unwrap();
    assert!(last.delete_tap.is_some());
    assert_eq!(
        last.delete_bridge.unwrap().steps[1].args,
        vec!["link", "delete", "vmmbr-24n7"]
    );
    assert_eq!(server.instance(Id(11)).unwrap().status(), InstanceStatus::Stopped);
}

#[test]
fn stopping_an_instance_that_does_not_run_removes_nothing() {
    let mut server = server_with_two_instances();
    let stop = server.stop_instance(Id(10)).unwrap();
    assert!(!stop.plan.wait_qemu);
    assert_eq!(stop.delete_tap, None);
    assert_eq!(stop.delete_bridge, None);
}

#[test]
fn starting_twice_finds_the_bridge() {
    let mut server = server_with_two_instances();
    assert!(server.start_instance(&Id(10)).unwrap().first_on_network);
    let again = server.start_instance(&Id(10)).unwrap();
    assert!(!again.first_on_network);
    assert!(!again.plan.start_qemu);
}

#[test]
fn bridges_of_other_networks_are_not_shared() {
    let mut server = server_with_two_instances();
    server.add_network(network(200, "wan")).unwrap();
    server.add_instance(instance(12, 1, 200)).unwrap();
    assert!(server.start_instance(&Id(10)).unwrap().first_on_network);
    assert!(server.start_instance(&Id(12)).unwrap().first_on_network);
    assert!(server.stop_instance(Id(12)).unwrap().delete_bridge.is_some());
    assert!(server.stop_instance(Id(10)).unwrap().delete_bridge.is_some());
}
