//! The notification channel that settings assembly shares with the rest
//! of the wallet process.

use vstd::prelude::*;

use workflow_core::channel::Multiplexer;

verus! {

/// A wallet notification event. Settings assembly only clones a handle
/// to the channel these are published on; it never publishes or reads
/// one, so the event content is opaque here.
#[derive(Clone, Debug)]
pub struct Events;

/// `workflow_core`'s multi-producer broadcast channel. A settings value
/// carries a cloned handle to it through to the downstream generator,
/// unread.
#[verifier::external_type_specification]
#[verifier::external_body]
#[verifier::reject_recursive_types(T)]
pub struct ExMultiplexer<T: Clone + Send + Sync + 'static>(Multiplexer<T>);

/// Relies on `workflow_core::channel::Multiplexer::clone` (its derived
/// `Clone`): returns a new handle to the same underlying broadcast
/// channel, leaving the argument usable.
#[verifier::external_body]
pub(crate) fn clone_multiplexer(multiplexer: &Multiplexer<Box<Events>>) -> Multiplexer<Box<Events>> {
    multiplexer.clone()
}

} // verus!
