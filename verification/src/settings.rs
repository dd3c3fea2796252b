//! The settings bundle consumed by the downstream transaction
//! generator, with its three mutually exclusive construction paths and
//! the transfer-marking transformation.

use vstd::prelude::*;

use workflow_core::channel::Multiplexer;

use crate::account::Account;
use crate::address::Address;
use crate::error::ResolutionError;
use crate::events::clone_multiplexer;
use crate::events::Events;
use crate::network::network_type_of_prefix;
use crate::network::NetworkType;
use crate::tx::Fees;
use crate::tx::PaymentDestination;
use crate::utxo::UtxoContext;
use crate::utxo::UtxoIterator;

verus! {

/// Everything the downstream transaction generator needs, gathered into
/// one validated, immutable bundle: the source of spendable outputs,
/// fee policy, destinations, an optional payload and the signing
/// parameters. Created once through exactly one of the three
/// constructors, optionally transfer-marked once, then consumed exactly
/// once by the generator.
pub struct GeneratorSettings {
    /// The network the transaction targets; derived once, never
    /// mutated.
    pub network_type: NetworkType,
    /// The notification channel lifecycle events are published on, when
    /// a consumer was supplied.
    pub multiplexer: Option<Multiplexer<Box<Events>>>,
    /// The single-pass source of spendable outputs; drained lazily by
    /// the downstream generator, not here.
    pub utxo_iterator: UtxoIterator,
    /// The spending context construction originated from, when the
    /// account or context path was used.
    pub source_utxo_context: Option<UtxoContext>,
    /// Expected number of signature operations per input.
    pub sig_op_count: u8,
    /// The multisignature threshold.
    pub minimum_signatures: u16,
    /// Where unspent remainder is returned.
    pub change_address: Address,
    /// The priority fee applied only to the final transaction.
    pub final_transaction_priority_fee: Fees,
    /// The outputs of the final transaction.
    pub final_transaction_destination: PaymentDestination,
    /// Opaque bytes attached to the final transaction, if any.
    pub final_transaction_payload: Option<Vec<u8>>,
    /// The spending context completed funds are recorded against when
    /// the construction is a transfer between tracked contexts. Set
    /// exclusively by [`GeneratorSettings::utxo_context_transfer`].
    pub destination_utxo_context: Option<UtxoContext>,
}

/// The settings value after transfer marking: the destination spending
/// context set, every other field unchanged.
pub open spec fn transfer_marked(
    settings: GeneratorSettings,
    destination: UtxoContext,
) -> GeneratorSettings {
    GeneratorSettings { destination_utxo_context: Some(destination), ..settings }
}

impl GeneratorSettings {
    /// A settings value is well formed when its signing parameters are
    /// positive.
    pub open spec fn wf(&self) -> bool {
        self.sig_op_count >= 1 && self.minimum_signatures >= 1
    }

    /// Builds settings from a wallet account: the network identifier
    /// and the output source come from the account's spending context,
    /// the change address and signing parameters from the account
    /// itself, and the wallet's notification channel is always wrapped
    /// as `Some`.
    pub fn try_new_with_account(
        account: &Account,
        final_transaction_destination: PaymentDestination,
        final_priority_fee: Fees,
        final_transaction_payload: Option<Vec<u8>>,
    ) -> (result: Result<GeneratorSettings, ResolutionError>)
        requires
            account.wf(),
        ensures
            result is Ok <==> account.utxo_context.network_id is Some
                && account.change_address is Some,
            result matches Ok(s) ==> {
                &&& account.utxo_context.network_id matches Some(nid)
                    && s.network_type == nid.network_type
                &&& s.multiplexer is Some
                &&& s.utxo_iterator@ == account.utxo_context.entries@
                &&& s.source_utxo_context matches Some(c) && c@ == account.utxo_context@
                &&& s.sig_op_count == account.sig_op_count
                &&& s.minimum_signatures == account.minimum_signatures
                &&& account.change_address matches Some(a) && s.change_address@ == a@
                &&& s.final_transaction_priority_fee == final_priority_fee
                &&& s.final_transaction_destination == final_transaction_destination
                &&& s.final_transaction_payload == final_transaction_payload
                &&& s.destination_utxo_context is None
                &&& s.wf()
            },
    {
        let network_id = match account.utxo_context().network_id() {
            Ok(id) => id,
            Err(e) => {
                return Err(e);
            },
        };
        let network_type = network_id.network_type();
        let change_address = match account.change_address() {
            Ok(a) => a,
            Err(e) => {
                return Err(e);
            },
        };
        let multiplexer = clone_multiplexer(&account.multiplexer);
        let sig_op_count = account.sig_op_count();
        let minimum_signatures = account.minimum_signatures();

        let utxo_iterator = UtxoIterator::new(account.utxo_context());

        let settings = GeneratorSettings {
            network_type,
            multiplexer: Some(multiplexer),
            sig_op_count,
            minimum_signatures,
            change_address,
            utxo_iterator,
            source_utxo_context: Some(account.utxo_context().clone()),
            final_transaction_priority_fee: final_priority_fee,
            final_transaction_destination,
            final_transaction_payload,
            destination_utxo_context: None,
        };

        Ok(settings)
    }

    /// Builds settings from an explicit spending context: the network
    /// identifier and the output source come from the context, every
    /// other parameter is caller-supplied; no account is consulted.
    pub fn try_new_with_context(
        utxo_context: UtxoContext,
        change_address: Address,
        sig_op_count: u8,
        minimum_signatures: u16,
        final_transaction_destination: PaymentDestination,
        final_priority_fee: Fees,
        final_transaction_payload: Option<Vec<u8>>,
        multiplexer: Option<Multiplexer<Box<Events>>>,
    ) -> (result: Result<GeneratorSettings, ResolutionError>)
        requires
            sig_op_count >= 1,
            minimum_signatures >= 1,
        ensures
            result is Ok <==> utxo_context.network_id is Some,
            result matches Ok(s) ==> {
                &&& utxo_context.network_id matches Some(nid)
                    && s.network_type == nid.network_type
                &&& s.multiplexer == multiplexer
                &&& s.utxo_iterator@ == utxo_context.entries@
                &&& s.source_utxo_context == Some(utxo_context)
                &&& s.sig_op_count == sig_op_count
                &&& s.minimum_signatures == minimum_signatures
                &&& s.change_address == change_address
                &&& s.final_transaction_priority_fee == final_priority_fee
                &&& s.final_transaction_destination == final_transaction_destination
                &&& s.final_transaction_payload == final_transaction_payload
                &&& s.destination_utxo_context is None
                &&& s.wf()
            },
    {
        let network_id = match utxo_context.network_id() {
            Ok(id) => id,
            Err(e) => {
                return Err(e);
            },
        };
        let network_type = network_id.network_type();
        let utxo_iterator = UtxoIterator::new(&utxo_context);

        let settings = GeneratorSettings {
            network_type,
            multiplexer,
            sig_op_count,
            minimum_signatures,
            change_address,
            utxo_iterator,
            source_utxo_context: Some(utxo_context),
            final_transaction_priority_fee: final_priority_fee,
            final_transaction_destination,
            final_transaction_payload,
            destination_utxo_context: None,
        };

        Ok(settings)
    }

    /// Builds settings from an already-constructed output-reference
    /// source, taking ownership of it. This is the one path that
    /// derives the network identifier from the change address's prefix
    /// rather than from a source context, and no source context is
    /// recorded; the caller must ensure the prefix and the source's
    /// actual network agree — this is not cross-checked here. An empty
    /// source is accepted: emptiness is a downstream concern.
    pub fn try_new_with_iterator(
        utxo_iterator: UtxoIterator,
        change_address: Address,
        sig_op_count: u8,
        minimum_signatures: u16,
        final_transaction_destination: PaymentDestination,
        final_priority_fee: Fees,
        final_transaction_payload: Option<Vec<u8>>,
        multiplexer: Option<Multiplexer<Box<Events>>>,
    ) -> (result: Result<GeneratorSettings, ResolutionError>)
        requires
            sig_op_count >= 1,
            minimum_signatures >= 1,
        ensures
            result is Ok <==> network_type_of_prefix(change_address.prefix) is Some,
            result matches Ok(s) ==> {
                &&& network_type_of_prefix(change_address.prefix) matches Some(t)
                    && s.network_type == t
                &&& s.multiplexer == multiplexer
                &&& s.utxo_iterator == utxo_iterator
                &&& s.source_utxo_context is None
                &&& s.sig_op_count == sig_op_count
                &&& s.minimum_signatures == minimum_signatures
                &&& s.change_address == change_address
                &&& s.final_transaction_priority_fee == final_priority_fee
                &&& s.final_transaction_destination == final_transaction_destination
                &&& s.final_transaction_payload == final_transaction_payload
                &&& s.destination_utxo_context is None
                &&& s.wf()
            },
    {
        let network_type = match NetworkType::try_from_prefix(change_address.prefix) {
            Ok(t) => t,
            Err(e) => {
                return Err(e);
            },
        };

        let settings = GeneratorSettings {
            network_type,
            multiplexer,
            sig_op_count,
            minimum_signatures,
            change_address,
            utxo_iterator,
            source_utxo_context: None,
            final_transaction_priority_fee: final_priority_fee,
            final_transaction_destination,
            final_transaction_payload,
            destination_utxo_context: None,
        };

        Ok(settings)
    }

    /// Marks the settings as part of a transfer between two tracked
    /// contexts: sets exactly the destination spending context, leaving
    /// every other field unchanged, and consumes the original — a
    /// settings value cannot be marked twice without being
    /// reconstructed. Total: no failure path.
    pub fn utxo_context_transfer(
        self,
        destination_utxo_context: &UtxoContext,
    ) -> (result: GeneratorSettings)
        ensures
            result.destination_utxo_context matches Some(c)
                && c@ == destination_utxo_context@
                && result == transfer_marked(self, c),
    {
        let mut settings = self;
        settings.destination_utxo_context = Some(destination_utxo_context.clone());
        settings
    }
}

/// Law: transfer marking decides only the destination spending context,
/// so marking a value that already carries the destination again with
/// the same destination yields exactly the same value.
pub proof fn lemma_transfer_marking_idempotent(
    settings: GeneratorSettings,
    destination: UtxoContext,
)
    ensures
        transfer_marked(transfer_marked(settings, destination), destination)
            == transfer_marked(settings, destination),
{
}

} // verus!
