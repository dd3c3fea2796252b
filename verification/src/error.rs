//! The single error kind surfaced by settings assembly.

use vstd::prelude::*;

verus! {

/// Raised when the network identity of a settings bundle cannot be
/// determined from the chosen source — an unbound spending context, an
/// unsupported address prefix — or when change-address derivation on an
/// account fails. Construction is atomic: no partial settings value is
/// ever returned together with this error.
#[derive(Clone, Copy, Debug, PartialEq, Eq, Structural)]
pub struct ResolutionError;

} // verus!
