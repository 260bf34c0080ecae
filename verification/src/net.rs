//! Names of the host devices that belong to a network or an instance, and
//! the hardware address of a guest.

use crate::id::{
    base62_digits, be_value, id_bytes, id_text, lemma_be_value_of_fixed, lemma_pow256_16, pow256, Id,
};
use crate::ipv4::Ipv4Cidr;
use crate::network::{
    bridge_up_commands, delete_commands, delete_device_script, delete_rules, script5,
    tap_up_commands,
};
use crate::script::{step, Script, Step, StepRule};
use crate::text::{hex_byte, hex_byte_string, words3, words4, words5};
use vstd::prelude::*;
use vstd::string::*;

verus! {

/// The last four characters of an identifier's text.
pub open spec fn id_suffix(value: u128) -> Seq<char> {
    id_text(value).subrange(id_text(value).len() - 4, id_text(value).len() as int)
}

/// The bridge device of a network: `vmmbr-` and the last four characters of
/// the network's identifier.
pub open spec fn bridge_name(network: u128) -> Seq<char> {
    "vmmbr-"@ + id_suffix(network)
}

/// The TAP device of an instance: `vmmtap-` and the last four characters of
/// the instance's identifier.
pub open spec fn tap_name(instance: u128) -> Seq<char> {
    "vmmtap-"@ + id_suffix(instance)
}

/// The guest's hardware address: the fixed prefix `52:54:00` and the last
/// three bytes of the identifier in hexadecimal.
pub open spec fn mac_address(id: u128) -> Seq<char> {
    "52:54:00:"@ + hex_byte(id_bytes(id)[13]) + ":"@ + hex_byte(id_bytes(id)[14]) + ":"@
        + hex_byte(id_bytes(id)[15])
}

/// A byte `1` in front of a byte string adds `256^len` to its value.
pub proof fn lemma_framed_value(bytes: Seq<u8>)
    ensures
        be_value(seq![1u8] + bytes) == pow256(bytes.len()) + be_value(bytes),
    decreases bytes.len(),
{
    let framed = seq![1u8] + bytes;
    if bytes.len() == 0 {
        assert(framed.drop_last() =~= Seq::<u8>::empty());
        assert(be_value(framed.drop_last()) == 0);
    } else {
        lemma_framed_value(bytes.drop_last());
        assert(framed.drop_last() =~= seq![1u8] + bytes.drop_last());
        assert(framed.last() == bytes.last());
    }
}

/// The text of an identifier has at least four characters.
pub proof fn lemma_id_text_len(value: u128)
    ensures
        id_text(value).len() >= 4,
{
    let bytes = id_bytes(value);
    lemma_pow256_16();
    lemma_be_value_of_fixed(value as nat, 16);
    lemma_framed_value(bytes);
    let n = be_value(seq![1u8] + bytes);
    assert(n >= 0x1_0000_0000_0000_0000_0000_0000_0000_0000);
    let n1 = n / 62;
    let n2 = n1 / 62;
    let n3 = n2 / 62;
    assert(n3 >= 1);
    assert(base62_digits(n).len() == 1 + base62_digits(n1).len());
    assert(base62_digits(n1).len() == 1 + base62_digits(n2).len());
    assert(base62_digits(n2).len() == 1 + base62_digits(n3).len());
    assert(base62_digits(n3).len() == 1 + base62_digits(n3 / 62).len());
}

/// The last four characters of the identifier's text.
pub fn id_suffix_string(id: &Id) -> (s: String)
    ensures
        s@ == id_suffix(id@),
{
    let text = id.to_string();
    proof {
        lemma_id_text_len(id@);
    }
    let len: usize = text.as_str().unicode_len();
    let tail = text.as_str().substring_char(len - 4, len);
    String::from_str(tail)
}

/// The name of the bridge device of the network `id`.
pub fn get_bridge_name(id: &Id) -> (name: String)
    ensures
        name@ == bridge_name(id@),
{
    let suffix = id_suffix_string(id);
    String::from_str("vmmbr-").concat(suffix.as_str())
}

/// The name of the TAP device of the instance `id`.
pub fn get_tap_name(id: &Id) -> (name: String)
    ensures
        name@ == tap_name(id@),
{
    let suffix = id_suffix_string(id);
    String::from_str("vmmtap-").concat(suffix.as_str())
}

/// The hardware address of the guest of the instance `id`.
pub fn get_mac(id: &Id) -> (mac: String)
    ensures
        mac@ == mac_address(id@),
{
    let bytes = id.to_bytes();
    proof {
        lemma_pow256_16();
        lemma_be_value_of_fixed(id@ as nat, 16);
    }
    let mut mac = String::from_str("52:54:00:");
    mac.append(hex_byte_string(bytes[13]).as_str());
    mac.append(":");
    mac.append(hex_byte_string(bytes[14]).as_str());
    mac.append(":");
    mac.append(hex_byte_string(bytes[15]).as_str());
    mac
}

/// The rules of the script that creates a bridge which must not exist yet.
pub open spec fn create_bridge_rules() -> Seq<StepRule> {
    seq![
        StepRule::FailWhenPresent,
        StepRule::MustSucceed,
        StepRule::RetryUntilSuccess,
        StepRule::MustSucceed,
        StepRule::MustSucceed,
    ]
}

/// The rules of the script that creates a TAP device.
pub open spec fn create_tap_rules() -> Seq<StepRule> {
    seq![
        StepRule::MustSucceed,
        StepRule::RetryUntilSuccess,
        StepRule::MustSucceed,
        StepRule::MustSucceed,
    ]
}

/// The script that creates the bridge `name` with the address `ip` and
/// brings it up. It fails when the bridge exists already.
pub fn create_bridge_device(name: &str, ip: &Ipv4Cidr) -> (script: Script)
    ensures
        script.commands() == bridge_up_commands(name@, ip.text()),
        script.rules() == create_bridge_rules(),
{
    let cidr = ip.to_string();
    let script = script5(
        step(words3("link", "show", name), StepRule::FailWhenPresent),
        step(words5("link", "add", name, "type", "bridge"), StepRule::MustSucceed),
        step(words3("link", "show", name), StepRule::RetryUntilSuccess),
        step(words5("addr", "add", cidr.as_str(), "dev", name), StepRule::MustSucceed),
        step(words5("link", "set", "up", "dev", name), StepRule::MustSucceed),
    );
    assert(script.commands() =~= bridge_up_commands(name@, ip.text()));
    assert(script.rules() =~= create_bridge_rules());
    script
}

/// The script that creates the TAP device `name`, awaits it, brings it up
/// and puts it into the bridge `bridge`.
pub fn create_tap_device(name: &str, bridge: &str) -> (script: Script)
    ensures
        script.commands() == tap_up_commands(name@, bridge@).subrange(1, 5),
        script.rules() == create_tap_rules(),
{
    let mut steps: Vec<Step> = Vec::new();
    steps.push(step(words5("tuntap", "add", name, "mode", "tap"), StepRule::MustSucceed));
    steps.push(step(words3("link", "show", name), StepRule::RetryUntilSuccess));
    steps.push(step(words4("link", "set", name, "up"), StepRule::MustSucceed));
    steps.push(step(words5("link", "set", name, "master", bridge), StepRule::MustSucceed));
    let script = Script { steps };
    assert(script.commands() =~= tap_up_commands(name@, bridge@).subrange(1, 5));
    assert(script.rules() =~= create_tap_rules());
    script
}

/// The script that takes the TAP device `name` down and deletes it.
pub fn delete_tap_device(name: &str) -> (script: Script)
    ensures
        script.commands() == delete_commands(name@),
        script.rules() == delete_rules(),
{
    delete_device_script(name)
}

/// The script that takes the bridge `name` down and deletes it.
pub fn delete_bridge_device(name: &str) -> (script: Script)
    ensures
        script.commands() == delete_commands(name@),
        script.rules() == delete_rules(),
{
    delete_device_script(name)
}

/// What to do about a bridge, given what a lookup of its name found.
#[derive(Debug, Clone, Copy, PartialEq, Eq, Structural)]
pub enum BridgeStep {
    /// The bridge exists under this index: bring it up, and it is ensured.
    BringUp(u32),
    /// The bridge is missing: create it, then look it up again.
    Create,
    /// The bridge is missing although it was created.
    Vanished,
}

/// Decides the next step for a bridge: `found` is the index under which a
/// lookup found it, if it did, and `created` says whether it was created
/// before that lookup.
pub fn ensure_bridge(found: Option<u32>, created: bool) -> (step: BridgeStep)
    ensures
        step == match found {
            Some(index) => BridgeStep::BringUp(index),
            None => if created {
                BridgeStep::Vanished
            } else {
                BridgeStep::Create
            },
        },
{
    match found {
        Some(index) => BridgeStep::BringUp(index),
        None => {
            if created {
                BridgeStep::Vanished
            } else {
                BridgeStep::Create
            }
        },
    }
}

} // verus!
