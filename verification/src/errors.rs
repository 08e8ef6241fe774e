//! The ways in which an amendment is refused.

use vstd::prelude::*;

verus! {

/// Why an amendment was refused. Every refusal leaves all state as it was.
#[derive(Clone, Copy, Debug, PartialEq, Eq, Structural)]
pub enum MultisigError {
    /// The caller is not among the members of the multisig.
    NotAMember,
    /// The caller is a member but lacks the permission to initiate.
    Unauthorized,
    /// The stored message already meets or exceeds the size ceiling.
    TransactionTooLarge,
    /// The rent payer cannot fund the storage that the amendment needs.
    InsufficientFunds,
    /// An ephemeral signer that the amendment asks for has no derivable
    /// address: its ordinal does not fit the one-byte seed, or no bump seed
    /// yields a valid address.
    EphemeralSignerUnavailable,
    /// The multisig fails its consistency predicate.
    InvariantViolation,
}

} // verus!
