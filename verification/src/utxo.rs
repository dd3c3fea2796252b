//! Spendable outputs: references to them, the spending context that
//! tracks them, and the single-pass iterator that hands them to the
//! downstream generator.

use vstd::prelude::*;

use crate::error::ResolutionError;
use crate::network::NetworkId;

verus! {

/// A reference to a previously recorded spendable transaction output,
/// not yet consumed.
#[derive(Clone, Copy, Debug, PartialEq, Eq, Structural)]
pub struct UtxoEntryReference {
    /// The transaction that created the output.
    pub transaction_id: u64,
    /// The position of the output within that transaction.
    pub index: u32,
    /// The amount the output carries.
    pub amount: u64,
}

/// The live record of which outputs are currently tracked as available
/// to spend for one address or account scope.
pub struct UtxoContext {
    /// Identity of the scope this context is bound to.
    pub id: u64,
    /// The network the context is bound to, or `None` while the binding
    /// is not yet established.
    pub network_id: Option<NetworkId>,
    /// The outputs currently tracked as spendable.
    pub entries: Vec<UtxoEntryReference>,
}

/// The mathematical content of a [`UtxoContext`].
pub struct UtxoContextData {
    pub id: u64,
    pub network_id: Option<NetworkId>,
    pub entries: Seq<UtxoEntryReference>,
}

impl View for UtxoContext {
    type V = UtxoContextData;

    open spec fn view(&self) -> UtxoContextData {
        UtxoContextData { id: self.id, network_id: self.network_id, entries: self.entries@ }
    }
}

impl Clone for UtxoContext {
    /// Cloning a context preserves its content exactly.
    fn clone(&self) -> (r: Self)
        ensures
            r@ == self@,
    {
        let entries = self.entries.clone();
        proof {
            assert(entries@ =~= self.entries@);
        }
        UtxoContext { id: self.id, network_id: self.network_id, entries }
    }
}

impl UtxoContext {
    /// The network identifier the context is bound to; fails while the
    /// context is not yet bound to a network.
    pub fn network_id(&self) -> (r: Result<NetworkId, ResolutionError>)
        ensures
            match self.network_id {
                Some(id) => r == Ok::<NetworkId, ResolutionError>(id),
                None => r == Err::<NetworkId, ResolutionError>(ResolutionError),
            },
    {
        match self.network_id {
            Some(id) => Ok(id),
            None => Err(ResolutionError),
        }
    }
}

/// A forward-only, single-pass source of output references. Each
/// reference is produced at most once; ownership of the whole sequence
/// is transferred into the settings value that carries it.
pub struct UtxoIterator {
    remaining: Vec<UtxoEntryReference>,
}

impl View for UtxoIterator {
    type V = Seq<UtxoEntryReference>;

    /// The references the iterator has yet to produce, in order.
    closed spec fn view(&self) -> Seq<UtxoEntryReference> {
        self.remaining@
    }
}

impl UtxoIterator {
    /// A fresh iterator over the outputs a spending context currently
    /// tracks.
    pub fn new(context: &UtxoContext) -> (r: UtxoIterator)
        ensures
            r@ == context.entries@,
    {
        let entries = context.entries.clone();
        proof {
            assert(entries@ =~= context.entries@);
        }
        UtxoIterator { remaining: entries }
    }

    /// An iterator over an explicit sequence of output references,
    /// taking ownership of it. The sequence may be empty.
    pub fn with_entries(entries: Vec<UtxoEntryReference>) -> (r: UtxoIterator)
        ensures
            r@ == entries@,
    {
        UtxoIterator { remaining: entries }
    }

    /// How many references the iterator has yet to produce.
    pub fn remaining_len(&self) -> (n: usize)
        ensures
            n == self@.len(),
    {
        self.remaining.len()
    }

    /// Produces the next output reference, or `None` once the source is
    /// exhausted. A produced reference is never produced again.
    pub fn next(&mut self) -> (r: Option<UtxoEntryReference>)
        ensures
            old(self)@.len() == 0 ==> r is None && final(self)@ == old(self)@,
            old(self)@.len() > 0 ==> r == Some(old(self)@[0]) && final(self)@ == old(self)@.drop_first(),
    {
        if self.remaining.len() == 0 {
            None
        } else {
            let entry = self.remaining.remove(0);
            proof {
                assert(self.remaining@ =~= old(self).remaining@.drop_first());
            }
            Some(entry)
        }
    }
}

} // verus!
