//! The wallet-account handle that settings assembly consumes.

use vstd::prelude::*;

use workflow_core::channel::Multiplexer;

use crate::address::Address;
use crate::error::ResolutionError;
use crate::events::Events;
use crate::utxo::UtxoContext;

verus! {

/// What settings assembly reads of a wallet account: its spending
/// context, the wallet-level notification channel, its change address
/// and its signing parameters.
pub struct Account {
    /// The spending context the account draws outputs from.
    pub utxo_context: UtxoContext,
    /// The wallet-level notification channel.
    pub multiplexer: Multiplexer<Box<Events>>,
    /// The account's change address, or `None` when derivation fails.
    pub change_address: Option<Address>,
    /// Expected number of signature operations per input.
    pub sig_op_count: u8,
    /// The multisignature threshold.
    pub minimum_signatures: u16,
}

impl Account {
    /// An account is well formed when its signing parameters are
    /// positive: at least one signature operation per input and a
    /// threshold of at least one required signature.
    pub open spec fn wf(&self) -> bool {
        self.sig_op_count >= 1 && self.minimum_signatures >= 1
    }

    /// The account's spending context.
    pub fn utxo_context(&self) -> (r: &UtxoContext)
        ensures
            *r == self.utxo_context,
    {
        &self.utxo_context
    }

    /// The account's change address; fails when the account cannot
    /// derive one.
    pub fn change_address(&self) -> (r: Result<Address, ResolutionError>)
        ensures
            match self.change_address {
                Some(a) => r matches Ok(out) && out@ == a@,
                None => r == Err::<Address, ResolutionError>(ResolutionError),
            },
    {
        match &self.change_address {
            Some(a) => Ok(a.clone()),
            None => Err(ResolutionError),
        }
    }

    /// The expected number of signature operations per input.
    pub fn sig_op_count(&self) -> (r: u8)
        ensures
            r == self.sig_op_count,
    {
        self.sig_op_count
    }

    /// The multisignature threshold.
    pub fn minimum_signatures(&self) -> (r: u16)
        ensures
            r == self.minimum_signatures,
    {
        self.minimum_signatures
    }
}

} // verus!
