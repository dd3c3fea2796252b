//! Settings assembly for a wallet transaction generator.
//!
//! The crate gathers everything a downstream transaction builder needs —
//! the source of spendable outputs, fee policy, destinations, an optional
//! payload and the signing parameters — into one validated, immutable
//! [`settings::GeneratorSettings`] bundle before construction begins.

pub mod account;
pub mod address;
pub mod error;
pub mod events;
pub mod network;
pub mod settings;
pub mod tx;
pub mod utxo;
