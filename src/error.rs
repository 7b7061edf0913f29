use vstd::prelude::*;

verus! {

/// Opaque error of the key abstraction, the keyring and the signing service.
///
/// It carries no detail on purpose: which of the checks failed (a missing
/// key, a malformed digest, a failed primitive) is not revealed to callers
/// through the error's content.
#[derive(Clone, Copy, Debug, PartialEq, Eq, Structural)]
pub struct Error;

} // verus!
