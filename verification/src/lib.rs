//! A two-party atomic token-swap escrow, modelled as a deterministic state
//! machine over externally supplied account snapshots.
//!
//! Two counterparties agree to exchange a quantity of token X for a quantity
//! of token Y. The program custodies both sides' funds in vaults at derived
//! addresses and releases them only once both deposits are in. Every handler
//! is a pure decision: it reads a snapshot of the supplied accounts,
//! re-derives every address from the stored record fields, checks ownership,
//! mint identity and phase, and returns either the one rejection cause or
//! the effects for the host to perform.

use vstd::prelude::*;

pub mod derive;
pub mod error;
pub mod instruction;
pub mod processor;
pub mod rent;
pub mod state;
pub mod token;

verus! {

/// A 32-byte identifier: a party, a mint, a program, or a derived address.
#[derive(Clone, Copy, Debug, PartialEq, Eq)]
pub struct Key(pub [u8; 32]);

impl View for Key {
    type V = Seq<u8>;

    open spec fn view(&self) -> Seq<u8> {
        self.0@
    }
}

/// Byte-for-byte equality of two identifiers.
pub fn key_eq(a: &Key, b: &Key) -> (r: bool)
    ensures
        r == (a@ == b@),
{
    let mut i: usize = 0;
    while i < 32
        invariant
            i <= 32,
            forall|j: int| 0 <= j < i ==> a@[j] == b@[j],
        decreases 32 - i,
    {
        if a.0[i] != b.0[i] {
            assert(a@[i as int] != b@[i as int]);
            return false;
        }
        i += 1;
    }
    assert(a@ =~= b@);
    true
}

} // verus!
