//! Addresses as the settings layer reads them: a network prefix, a
//! version and a raw payload.

use vstd::prelude::*;

verus! {

/// The network prefix of an address.
///
/// `A` and `B` are testing prefixes: addresses can carry them, but they
/// correspond to no network, so network resolution from such a prefix
/// fails.
#[derive(Clone, Copy, Debug, PartialEq, Eq, Structural)]
pub enum Prefix {
    Mainnet,
    Testnet,
    Simnet,
    Devnet,
    A,
    B,
}

/// The version of an address, which determines how its payload is to be
/// interpreted. The settings layer carries it through unread.
#[derive(Clone, Copy, Debug, PartialEq, Eq, Structural)]
pub enum Version {
    PubKey,
    PubKeyECDSA,
    ScriptHash,
}

/// An address: a recipient of funds, and — as the change address of a
/// settings bundle — where unspent remainder is returned.
pub struct Address {
    pub prefix: Prefix,
    pub version: Version,
    pub payload: Vec<u8>,
}

/// The mathematical content of an [`Address`].
pub struct AddressData {
    pub prefix: Prefix,
    pub version: Version,
    pub payload: Seq<u8>,
}

impl View for Address {
    type V = AddressData;

    open spec fn view(&self) -> AddressData {
        AddressData { prefix: self.prefix, version: self.version, payload: self.payload@ }
    }
}

impl Clone for Address {
    /// Cloning an address preserves its content exactly.
    fn clone(&self) -> (r: Self)
        ensures
            r@ == self@,
    {
        let payload = self.payload.clone();
        proof {
            assert(payload@ =~= self.payload@);
        }
        Address { prefix: self.prefix, version: self.version, payload }
    }
}

} // verus!
