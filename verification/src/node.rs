//! Description of the broadcast service's lightning node, and the choice of
//! the connection target: prefer the first advertised address; with none
//! advertised, connect by node identifier alone.

use vstd::prelude::*;
use vstd::string::StringExecFns;
use crate::decimal::spec_decimal;
use crate::decimal::u64_to_decimal;

verus! {

/// Bitcoin network enum
#[derive(Debug, Eq, PartialEq, Hash, Ord, PartialOrd)]
pub enum BitcoinNetwork {
    Mainnet,
    Testnet,
    Regtest,
}

/// One address of the broadcast service's lightning node
#[derive(Debug, Eq, PartialEq, Hash, Ord, PartialOrd)]
pub struct NodeAddress {
    /// ipv4/ipv6/TOR
    pub addr_type: String,
    /// IP/hidden service
    pub address: String,
    pub port: u16,
}

impl NodeAddress {
    /// The `host:port` string a connection attempt dials.
    pub fn dial_string(&self) -> (r: String)
        ensures
            r@ == self.address@ + ":"@ + spec_decimal(self.port as nat),
    {
        let mut s = self.address.clone();
        s.append(":");
        let port = u64_to_decimal(self.port as u64);
        s.append(port.as_str());
        s
    }
}

/// Descriptor for the broadcast service's lightning node
#[derive(Debug, Eq, PartialEq, Hash, Ord, PartialOrd)]
pub struct LightningNode {
    pub id: String,
    pub address: Vec<NodeAddress>,
    pub version: String,
    pub block_height: u64,
    pub network: BitcoinNetwork,
}

impl LightningNode {
    /// The address a connection attempt should dial: the first advertised
    /// one, or none when the node advertises no address at all.
    pub fn first_address(&self) -> (r: Option<&NodeAddress>)
        ensures
            match r {
                Some(a) => self.address@.len() > 0 && *a == self.address@[0],
                None => self.address@.len() == 0,
            },
    {
        if self.address.len() > 0 {
            Some(&self.address[0])
        } else {
            None
        }
    }
}

} // verus!
