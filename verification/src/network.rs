//! Network identity: which independent ledger instance a transaction and
//! its addresses belong to.

use vstd::prelude::*;

use crate::address::Prefix;
use crate::error::ResolutionError;

verus! {

/// The kind of network a transaction targets.
#[derive(Clone, Copy, Debug, PartialEq, Eq, Structural)]
pub enum NetworkType {
    Mainnet,
    Testnet,
    Devnet,
    Simnet,
}

/// A full network identifier: a network type together with an optional
/// numeric suffix distinguishing parallel instances of the same type.
#[derive(Clone, Copy, Debug, PartialEq, Eq, Structural)]
pub struct NetworkId {
    pub network_type: NetworkType,
    pub suffix: Option<u32>,
}

impl NetworkId {
    /// The network type this identifier belongs to.
    pub fn network_type(&self) -> (t: NetworkType)
        ensures
            t == self.network_type,
    {
        self.network_type
    }
}

/// The network, if any, that an address prefix designates. The testing
/// prefixes designate none.
pub open spec fn network_type_of_prefix(prefix: Prefix) -> Option<NetworkType> {
    match prefix {
        Prefix::Mainnet => Some(NetworkType::Mainnet),
        Prefix::Testnet => Some(NetworkType::Testnet),
        Prefix::Simnet => Some(NetworkType::Simnet),
        Prefix::Devnet => Some(NetworkType::Devnet),
        Prefix::A => None,
        Prefix::B => None,
    }
}

impl NetworkType {
    /// Resolves the network type designated by an address prefix; a
    /// prefix that designates no network is rejected.
    pub fn try_from_prefix(prefix: Prefix) -> (r: Result<NetworkType, ResolutionError>)
        ensures
            match network_type_of_prefix(prefix) {
                Some(t) => r == Ok::<NetworkType, ResolutionError>(t),
                None => r == Err::<NetworkType, ResolutionError>(ResolutionError),
            },
    {
        match prefix {
            Prefix::Mainnet => Ok(NetworkType::Mainnet),
            Prefix::Testnet => Ok(NetworkType::Testnet),
            Prefix::Simnet => Ok(NetworkType::Simnet),
            Prefix::Devnet => Ok(NetworkType::Devnet),
            Prefix::A => Err(ResolutionError),
            Prefix::B => Err(ResolutionError),
        }
    }
}

} // verus!
