//! Fee policy and payment destinations for the final transaction of a
//! construction.

use vstd::prelude::*;

use crate::address::Address;

verus! {

/// The priority fee applied only to the final transaction in a
/// (possibly chained) construction. Immutable once set; this layer
/// carries it through unread.
#[derive(Clone, Copy, Debug, PartialEq, Eq, Structural)]
pub enum Fees {
    /// No priority fee.
    NoFee,
    /// A priority fee paid by the sender on top of the sent amount.
    SenderPays(u64),
    /// A priority fee deducted from the received amount.
    ReceiverPays(u64),
}

/// One output of the final transaction: a recipient and an amount.
pub struct PaymentOutput {
    pub address: Address,
    pub amount: u64,
}

/// The destination of the final transaction. Immutable once set; this
/// layer carries it through unread.
pub enum PaymentDestination {
    /// No explicit recipients: everything is returned as change.
    Change,
    /// Explicit recipients with their amounts.
    PaymentOutputs(Vec<PaymentOutput>),
}

} // verus!
