use vstd::prelude::*;

verus! {

/// Identifier of an account or a contract.
///
/// The host environment gives every account an opaque address; the library
/// only ever compares addresses for equality and uses them as keys, so it
/// refers to each one by a numeric identifier.
pub type Address = u64;

} // verus!
