use generator_settings::account::Account;
use generator_settings::address::{Address, Prefix, Version};
use generator_settings::error::ResolutionError;
use generator_settings::events::Events;
use generator_settings::network::{NetworkId, NetworkType};
use generator_settings::settings::GeneratorSettings;
use generator_settings::tx::{Fees, PaymentDestination};
use generator_settings::utxo::{UtxoContext, UtxoEntryReference, UtxoIterator};
use workflow_core::channel::Multiplexer;

fn mainnet_address() -> Address {
    Address { prefix: Prefix::Mainnet, version: Version::PubKey, payload: vec![1, 2, 3] }
}

fn entry(transaction_id: u64, index: u32, amount: u64) -> UtxoEntryReference {
    UtxoEntryReference { transaction_id, index, amount }
}

fn bound_context(network_type: NetworkType) -> UtxoContext {
    UtxoContext {
        id: 7,
        network_id: Some(NetworkId { network_type, suffix: None }),
        entries: vec![entry(11, 0, 5_000), entry(12, 1, 2_500)],
    }
}

fn account_with(context: UtxoContext, change_address: Option<Address>) -> Account {
    let multiplexer: Multiplexer<Box<Events>> = Multiplexer::new();
    Account {
        utxo_context: context,
        multiplexer,
        change_address,
        sig_op_count: 2,
        minimum_signatures: 1,
    }
}

#[test]
fn network_from_account_context() {
    let account = account_with(bound_context(NetworkType::Testnet), Some(mainnet_address()));
    let settings = GeneratorSettings::try_new_with_account(
        &account,
        PaymentDestination::Change,
        Fees::NoFee,
        None,
    )
    .unwrap();
    assert_eq!(settings.network_type, NetworkType::Testnet);
}

#[test]
fn network_from_explicit_context() {
    let settings = GeneratorSettings::try_new_with_context(
        bound_context(NetworkType::Devnet),
        mainnet_address(),
        1,
        1,
        PaymentDestination::Change,
        Fees::NoFee,
        None,
        None,
    )
    .unwrap();
    assert_eq!(settings.network_type, NetworkType::Devnet);
    assert!(settings.multiplexer.is_none());
}

#[test]
fn network_from_address_prefix() {
    let address =
        Address { prefix: Prefix::Simnet, version: Version::ScriptHash, payload: vec![9] };
    let settings = GeneratorSettings::try_new_with_iterator(
        UtxoIterator::with_entries(vec![entry(1, 0, 100)]),
        address,
        1,
        1,
        PaymentDestination::Change,
        Fees::NoFee,
        None,
        None,
    )
    .unwrap();
    assert_eq!(settings.network_type, NetworkType::Simnet);
    assert!(settings.source_utxo_context.is_none());
}

#[test]
fn prefix_network_mapping() {
    assert_eq!(NetworkType::try_from_prefix(Prefix::Mainnet), Ok(NetworkType::Mainnet));
    assert_eq!(NetworkType::try_from_prefix(Prefix::Testnet), Ok(NetworkType::Testnet));
    assert_eq!(NetworkType::try_from_prefix(Prefix::Simnet), Ok(NetworkType::Simnet));
    assert_eq!(NetworkType::try_from_prefix(Prefix::Devnet), Ok(NetworkType::Devnet));
    assert_eq!(NetworkType::try_from_prefix(Prefix::A), Err(ResolutionError));
    assert_eq!(NetworkType::try_from_prefix(Prefix::B), Err(ResolutionError));
}

#[test]
fn unresolved_account_network_fails() {
    let unbound = UtxoContext { id: 3, network_id: None, entries: vec![entry(1, 0, 10)] };
    let account = account_with(unbound, Some(mainnet_address()));
    let result = GeneratorSettings::try_new_with_account(
        &account,
        PaymentDestination::Change,
        Fees::NoFee,
        None,
    );
    assert!(matches!(result, Err(ResolutionError)));
}

#[test]
fn failed_change_address_derivation_fails() {
    let account = account_with(bound_context(NetworkType::Mainnet), None);
    let result = GeneratorSettings::try_new_with_account(
        &account,
        PaymentDestination::Change,
        Fees::NoFee,
        None,
    );
    assert!(matches!(result, Err(ResolutionError)));
}

#[test]
fn unresolved_context_network_fails() {
    let unbound = UtxoContext { id: 4, network_id: None, entries: vec![] };
    let result = GeneratorSettings::try_new_with_context(
        unbound,
        mainnet_address(),
        1,
        1,
        PaymentDestination::Change,
        Fees::NoFee,
        None,
        None,
    );
    assert!(matches!(result, Err(ResolutionError)));
}

#[test]
fn unsupported_prefix_fails() {
    let address = Address { prefix: Prefix::A, version: Version::PubKey, payload: vec![1] };
    let result = GeneratorSettings::try_new_with_iterator(
        UtxoIterator::with_entries(vec![]),
        address,
        1,
        1,
        PaymentDestination::Change,
        Fees::NoFee,
        None,
        None,
    );
    assert!(matches!(result, Err(ResolutionError)));
}

#[test]
fn account_scenario_fields() {
    let change = Address { prefix: Prefix::Mainnet, version: Version::PubKey, payload: vec![42] };
    let account = account_with(bound_context(NetworkType::Mainnet), Some(change));
    let settings = GeneratorSettings::try_new_with_account(
        &account,
        PaymentDestination::PaymentOutputs(vec![]),
        Fees::SenderPays(1_000),
        Some(vec![0xCA, 0xFE]),
    )
    .unwrap();

    assert_eq!(settings.sig_op_count, 2);
    assert_eq!(settings.minimum_signatures, 1);
    assert_eq!(settings.change_address.prefix, Prefix::Mainnet);
    assert_eq!(settings.change_address.version, Version::PubKey);
    assert_eq!(settings.change_address.payload, vec![42]);
    assert!(settings.multiplexer.is_some());
    assert_eq!(settings.final_transaction_priority_fee, Fees::SenderPays(1_000));
    assert!(matches!(settings.final_transaction_destination, PaymentDestination::PaymentOutputs(_)));
    assert_eq!(settings.final_transaction_payload, Some(vec![0xCA, 0xFE]));

    let source = settings.source_utxo_context.expect("account path records its source context");
    assert_eq!(source.id, account.utxo_context.id);
    assert_eq!(source.network_id, account.utxo_context.network_id);
    assert_eq!(source.entries, account.utxo_context.entries);
    assert!(settings.destination_utxo_context.is_none());
}

#[test]
fn empty_reference_sequence_succeeds() {
    let settings = GeneratorSettings::try_new_with_iterator(
        UtxoIterator::with_entries(vec![]),
        mainnet_address(),
        1,
        1,
        PaymentDestination::Change,
        Fees::NoFee,
        None,
        None,
    )
    .unwrap();
    let mut iterator = settings.utxo_iterator;
    assert!(iterator.next().is_none());
}

#[test]
fn iterator_is_single_pass() {
    let first = entry(21, 0, 700);
    let second = entry(22, 3, 900);
    let mut iterator = UtxoIterator::with_entries(vec![first, second]);
    assert_eq!(iterator.remaining_len(), 2);
    assert_eq!(iterator.next(), Some(first));
    assert_eq!(iterator.next(), Some(second));
    assert_eq!(iterator.next(), None);
    assert_eq!(iterator.next(), None);
    assert_eq!(iterator.remaining_len(), 0);
}

#[test]
fn iterator_wraps_context_entries() {
    let context = bound_context(NetworkType::Mainnet);
    let mut iterator = UtxoIterator::new(&context);
    assert_eq!(iterator.next(), Some(entry(11, 0, 5_000)));
    assert_eq!(iterator.next(), Some(entry(12, 1, 2_500)));
    assert_eq!(iterator.next(), None);
    // Wrapping transfers a snapshot; the context still tracks its outputs.
    assert_eq!(context.entries.len(), 2);
}

#[test]
fn transfer_marking_sets_only_destination() {
    let settings = GeneratorSettings::try_new_with_context(
        bound_context(NetworkType::Mainnet),
        mainnet_address(),
        3,
        2,
        PaymentDestination::Change,
        Fees::ReceiverPays(500),
        Some(vec![7]),
        None,
    )
    .unwrap();
    assert!(settings.destination_utxo_context.is_none());

    let destination = UtxoContext {
        id: 99,
        network_id: Some(NetworkId { network_type: NetworkType::Mainnet, suffix: Some(1) }),
        entries: vec![],
    };
    let marked = settings.utxo_context_transfer(&destination);

    let recorded = marked.destination_utxo_context.expect("destination context is set");
    assert_eq!(recorded.id, 99);
    assert_eq!(recorded.network_id, destination.network_id);
    assert_eq!(recorded.entries, destination.entries);

    // Every other field is unchanged.
    assert_eq!(marked.network_type, NetworkType::Mainnet);
    assert_eq!(marked.sig_op_count, 3);
    assert_eq!(marked.minimum_signatures, 2);
    assert_eq!(marked.change_address.payload, vec![1, 2, 3]);
    assert_eq!(marked.final_transaction_priority_fee, Fees::ReceiverPays(500));
    assert!(matches!(marked.final_transaction_destination, PaymentDestination::Change));
    assert_eq!(marked.final_transaction_payload, Some(vec![7]));
    let source = marked.source_utxo_context.expect("context path records its source context");
    assert_eq!(source.id, 7);
}
