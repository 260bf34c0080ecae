//! IPv4 addresses and networks, and their text.

use crate::text::{decimal, decimal_string};
use vstd::prelude::*;
use vstd::string::*;

verus! {

/// An IPv4 address.
#[derive(Debug, Clone, Copy, PartialEq, Eq)]
pub struct Ipv4Address {
    pub octets: [u8; 4],
}

/// The dotted form of four octets.
pub open spec fn dotted(octets: Seq<u8>) -> Seq<char>
    recommends
        octets.len() == 4,
{
    decimal(octets[0] as nat) + "."@ + decimal(octets[1] as nat) + "."@ + decimal(octets[2] as nat)
        + "."@ + decimal(octets[3] as nat)
}

/// The text of a network: the dotted address, a slash, and the length of the
/// prefix.
pub open spec fn cidr_text(octets: Seq<u8>, prefix_len: u8) -> Seq<char> {
    dotted(octets) + "/"@ + decimal(prefix_len as nat)
}

impl Ipv4Address {
    /// The address of four octets.
    pub fn new(a: u8, b: u8, c: u8, d: u8) -> (address: Ipv4Address)
        ensures
            address.octets@ == seq![a, b, c, d],
    {
        let address = Ipv4Address { octets: [a, b, c, d] };
        assert(address.octets@ =~= seq![a, b, c, d]);
        address
    }

    /// The dotted form of the address.
    pub fn to_string(&self) -> (text: String)
        ensures
            text@ == dotted(self.octets@),
    {
        let mut text = decimal_string(self.octets[0] as u64);
        text.append(".");
        text.append(decimal_string(self.octets[1] as u64).as_str());
        text.append(".");
        text.append(decimal_string(self.octets[2] as u64).as_str());
        text.append(".");
        text.append(decimal_string(self.octets[3] as u64).as_str());
        text
    }
}

/// The length of a prefix was over 32.
#[derive(Debug, Clone, Copy, PartialEq, Eq, Structural)]
pub struct PrefixLenError {}

/// An IPv4 address with the length of its network's prefix.
#[derive(Debug, Clone, Copy, PartialEq, Eq)]
pub struct Ipv4Cidr {
    addr: Ipv4Address,
    prefix_len: u8,
}

impl Ipv4Cidr {
    /// The address.
    pub closed spec fn octets(&self) -> Seq<u8> {
        self.addr.octets@
    }

    /// The length of the prefix.
    pub closed spec fn prefix(&self) -> u8 {
        self.prefix_len
    }

    /// The text of the network.
    pub open spec fn text(&self) -> Seq<char> {
        cidr_text(self.octets(), self.prefix())
    }

    /// The network of an address and a prefix length, which is at most 32.
    pub fn new(addr: Ipv4Address, prefix_len: u8) -> (r: Result<Ipv4Cidr, PrefixLenError>)
        ensures
            prefix_len > 32 ==> r.is_err(),
            prefix_len <= 32 ==> r.is_ok() && r.unwrap().octets() == addr.octets@
                && r.unwrap().prefix() == prefix_len,
    {
        if prefix_len > 32 {
            Err(PrefixLenError {  })
        } else {
            Ok(Ipv4Cidr { addr, prefix_len })
        }
    }

    /// The address.
    pub fn addr(&self) -> (addr: Ipv4Address)
        ensures
            addr.octets@ == self.octets(),
    {
        self.addr
    }

    /// The length of the prefix.
    pub fn prefix_len(&self) -> (len: u8)
        ensures
            len == self.prefix(),
    {
        self.prefix_len
    }

    /// The text of the network, such as `10.0.0.1/24`.
    pub fn to_string(&self) -> (text: String)
        ensures
            text@ == self.text(),
    {
        let mut text = self.addr.to_string();
        text.append("/");
        text.append(decimal_string(self.prefix_len as u64).as_str());
        text
    }
}

} // verus!
