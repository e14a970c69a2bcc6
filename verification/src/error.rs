//! Everything a handler can reject, one variant per distinguishable cause:
//! malformed input, authorization failure, address-integrity failure, and
//! state-sequencing failure.

use vstd::prelude::*;

verus! {

/// Why a call was rejected. No handler mutates anything when it returns one
/// of these.
#[derive(Clone, Copy, Debug, PartialEq, Eq, Structural)]
pub enum EscrowError {
    /// The instruction payload does not decode.
    MalformedInstruction,
    /// The escrow record buffer does not deserialize.
    MalformedRecord,
    /// The rent sysvar data does not deserialize, or the rent parameters are
    /// out of range for the requested size.
    MalformedRent,
    /// The supplied token account data does not unpack.
    MalformedTokenAccount,
    /// Fewer accounts were supplied than the instruction needs.
    NotEnoughAccounts,
    /// Init on a record that already holds an active swap.
    AlreadyInitialized,
    /// The instruction is valid for one of the parties, but not in the
    /// record's current state.
    WrongPhase,
    /// The caller is neither of the two stored parties.
    NotAParty,
    /// The supplied token account is not owned by the token program.
    NotOwnedByTokenProgram,
    /// The token account's owner field is not the calling party.
    TokenOwnerMismatch,
    /// The token account's mint is not the mint expected for the caller's
    /// side.
    MintMismatch,
    /// The supplied vault is not the address re-derived from the stored
    /// record fields.
    VaultKeyMismatch,
    /// The supplied escrow record account is not the address re-derived from
    /// the stored record fields.
    EscrowKeyMismatch,
    /// Re-derivation with the stored bump produced no valid address.
    DerivationFailed,
    /// No bump in the search space produces a valid address.
    BumpSearchExhausted,
}

} // verus!
