use vmm::id::Id;
use vmm::ipv4::{Ipv4Address, Ipv4Cidr};
use vmm::net::{create_bridge_device, create_tap_device, delete_bridge_device, delete_tap_device};
use vmm::network::{Network, NetworkConfig, NetworkError};
use vmm::script::{Next, Script, StepRule, POLL_INTERVAL_MILLIS};
use vmm::vmm_dirs::VmmDirs;

fn dirs() -> VmmDirs {
    VmmDirs::new("/c", "/k", Some("/s")).unwrap()
}

fn config() -> NetworkConfig {
    NetworkConfig {
        name: "lan".to_string(),
        ip: Ipv4Cidr::new(Ipv4Address::new(10, 0, 0, 1), 24).unwrap(),
    }
}

fn network() -> Network {
    Network::with_config(Id(0), config())
}

fn commands(script: &Script) -> Vec<Vec<&str>> {
    script.steps.iter().map(|s| s.args.iter().map(|a| a.as_str()).collect()).collect()
}

fn rules(script: &Script) -> Vec<StepRule> {
    script.steps.iter().map(|s| s.rule).collect()
}

#[test]
fn a_new_network_must_not_exist() {
    assert_eq!(Network::new(&dirs(), Id(0), config(), true).err(), Some(NetworkError::ConfigExists));
    let (network, place) = Network::new(&dirs(), Id(0), config(), false).unwrap();
    assert_eq!(*network.id(), Id(0));
    assert_eq!(*network.config(), config());
    assert_eq!(place.dir, "/c/vmm/networks/8chF7tm8n9klfT5MGD24n7");
    assert_eq!(place.file, "/c/vmm/networks/8chF7tm8n9klfT5MGD24n7/config.json");
}

#[test]
fn a_network_is_read_from_its_record() {
    assert_eq!(Network::read(Id(1), None).err(), Some(NetworkError::ConfigNotFound));
    let network = Network::read(Id(1), Some(config())).unwrap();
    assert_eq!(*network.id(), Id(1));
    assert_eq!(network.duplicate(), network);
}

#[test]
fn bridge_and_tap_names() {
    assert_eq!(network().get_bridge_name(), "vmmbr-24n7");
    assert_eq!(network().get_tap_name(&Id(u128::MAX)), "vmmtap-48aF");
}

#[test]
fn the_bridge_script_creates_only_a_missing_bridge() {
    let script = network().set_bridge_up_or_create();
    assert_eq!(
        commands(&script),
        vec![
            vec!["link", "show", "vmmbr-24n7"],
            vec!["link", "add", "vmmbr-24n7", "type", "bridge"],
            vec!["link", "show", "vmmbr-24n7"],
            vec!["addr", "add", "10.0.0.1/24", "dev", "vmmbr-24n7"],
            vec!["link", "set", "up", "dev", "vmmbr-24n7"],
        ]
    );
    assert_eq!(
        rules(&script),
        vec![
            StepRule::WhenPresentSkip(2),
            StepRule::MustSucceed,
            StepRule::RetryUntilSuccess,
            StepRule::MustSucceed,
            StepRule::MustSucceed,
        ]
    );
    assert_eq!(script.first(), Next::Run(0));
    assert_eq!(script.advance(0, true), Next::Run(3));
    assert_eq!(script.advance(0, false), Next::Run(1));
    assert_eq!(script.advance(1, true), Next::Run(2));
    assert_eq!(script.advance(1, false), Next::Failed(1));
    assert_eq!(script.advance(2, false), Next::RunAfter(50, 2));
    assert_eq!(POLL_INTERVAL_MILLIS, 50);
    assert_eq!(script.advance(2, true), Next::Run(3));
    assert_eq!(script.advance(3, true), Next::Run(4));
    assert_eq!(script.advance(3, false), Next::Failed(3));
    assert_eq!(script.advance(4, true), Next::Done);
    assert_eq!(script.advance(4, false), Next::Failed(4));
}

#[test]
fn the_tap_script_puts_the_tap_into_the_bridge() {
    let script = network().set_tap_up_or_create(&Id(u128::MAX));
    assert_eq!(
        commands(&script),
        vec![
            vec!["link", "show", "vmmtap-48aF"],
            vec!["tuntap", "add", "vmmtap-48aF", "mode", "tap"],
            vec!["link", "show", "vmmtap-48aF"],
            vec!["link", "set", "vmmtap-48aF", "up"],
            vec!["link", "set", "vmmtap-48aF", "master", "vmmbr-24n7"],
        ]
    );
    assert_eq!(rules(&script)[0], StepRule::WhenPresentSkip(2));
}

#[test]
fn devices_are_taken_down_before_they_are_deleted() {
    let tap = network().delete_tap_device(&Id(u128::MAX));
    assert_eq!(
        commands(&tap),
        vec![vec!["link", "set", "vmmtap-48aF", "down"], vec!["link", "delete", "vmmtap-48aF"]]
    );
    assert_eq!(rules(&tap), vec![StepRule::MustSucceed, StepRule::MustSucceed]);
    let bridge = network().delete_bridge_device();
    assert_eq!(
        commands(&bridge),
        vec![vec!["link", "set", "vmmbr-24n7", "down"], vec!["link", "delete", "vmmbr-24n7"]]
    );
    assert_eq!(commands(&delete_tap_device("t0")), vec![
        vec!["link", "set", "t0", "down"],
        vec!["link", "delete", "t0"]
    ]);
    assert_eq!(commands(&delete_bridge_device("b0")), vec![
        vec!["link", "set", "b0", "down"],
        vec!["link", "delete", "b0"]
    ]);
}

#[test]
fn creating_a_bridge_that_exists_fails() {
    let script = create_bridge_device("br0", &config().ip);
    assert_eq!(commands(&script)[0], vec!["link", "show", "br0"]);
    assert_eq!(commands(&script)[3], vec!["addr", "add", "10.0.0.1/24", "dev", "br0"]);
    assert_eq!(script.advance(0, true), Next::Failed(0));
    assert_eq!(script.advance(0, false), Next::Run(1));
}

#[test]
fn creating_a_tap_awaits_it() {
    let script = create_tap_device("tap0", "br0");
    assert_eq!(
        commands(&script),
        vec![
            vec!["tuntap", "add", "tap0", "mode", "tap"],
            vec!["link", "show", "tap0"],
            vec!["link", "set", "tap0", "up"],
            vec!["link", "set", "tap0", "master", "br0"],
        ]
    );
    assert_eq!(script.advance(1, false), Next::RunAfter(50, 1));
    assert_eq!(script.advance(3, true), Next::Done);
}

#[test]
fn an_empty_script_is_done() {
    let script = Script { steps: vec![] };
    assert_eq!(script.first(), Next::Done);
}

#[test]
fn a_probe_at_the_end_skips_past_the_end() {
    let script = Script {
        steps: vec![vmm::script::step(vec!["x".to_string()], StepRule::WhenPresentSkip(5))],
    };
    assert_eq!(script.advance(0, true), Next::Done);
    assert_eq!(script.advance(0, false), Next::Done);
}
