//! Reading caller-supplied token accounts. A token account is 165 bytes in
//! the token program's own layout; the handlers only consult its mint, its
//! logical owner, and its balance, so the unpacking call is taken on trust
//! with exactly those fields stated.

use vstd::prelude::*;
use vstd::bytes::spec_u64_from_le_bytes;
use solana_program::program_pack::Pack;
use crate::Key;

verus! {

broadcast use vstd::array::group_array_axioms;

/// The fields of a token account that the handlers consult.
#[derive(Clone, Copy, Debug, PartialEq, Eq)]
pub struct TokenAccountView {
    pub mint: Key,
    pub owner: Key,
    pub amount: u64,
}

/// The buffers the token program's unpacking accepts: exactly 165 bytes,
/// with well-formed option tags for the delegate (bytes 72..76, ahead of the
/// 32-byte delegate body), the native field (bytes 109..113), and the close
/// authority (bytes 129..133, after the 8-byte delegated amount at
/// 121..129), and a known state byte at 108.
pub open spec fn spec_token_account_ok(s: Seq<u8>) -> bool {
    &&& s.len() == 165
    &&& (s.subrange(72, 76) == seq![0u8, 0u8, 0u8, 0u8] || s.subrange(72, 76) == seq![
        1u8,
        0u8,
        0u8,
        0u8,
    ])
    &&& s[108] <= 2
    &&& (s.subrange(109, 113) == seq![0u8, 0u8, 0u8, 0u8] || s.subrange(109, 113) == seq![
        1u8,
        0u8,
        0u8,
        0u8,
    ])
    &&& (s.subrange(129, 133) == seq![0u8, 0u8, 0u8, 0u8] || s.subrange(129, 133) == seq![
        1u8,
        0u8,
        0u8,
        0u8,
    ])
}

/// Relies on `spl_token::state::Account::unpack_unchecked`: it accepts
/// exactly the 165-byte buffers with well-formed option tags and state byte,
/// and reads the mint from bytes 0..32, the owner from bytes 32..64, and the
/// amount from bytes 64..72 little-endian.
#[verifier::external_body]
pub(crate) fn unpack_token_account(data: &Vec<u8>) -> (r: Option<TokenAccountView>)
    ensures
        r is Some <==> spec_token_account_ok(data@),
        (r matches Some(t) ==> {
            &&& t.mint@ == data@.subrange(0, 32)
            &&& t.owner@ == data@.subrange(32, 64)
            &&& t.amount == spec_u64_from_le_bytes(data@.subrange(64, 72))
        }),
{
    match spl_token::state::Account::unpack_unchecked(data.as_slice()) {
        Ok(a) => Some(TokenAccountView {
            mint: Key(a.mint.to_bytes()),
            owner: Key(a.owner.to_bytes()),
            amount: a.amount,
        }),
        Err(_) => None,
    }
}

} // verus!
