//! The escrow record: the fixed-layout persisted state of one swap, and its
//! binary codec.
//!
//! The record is stored as exactly 148 bytes: `size_x` and `size_y` as
//! little-endian `u64`, the four 32-byte identifiers, one state byte, and the
//! three bump bytes. Deserialization fails closed: a buffer of the wrong
//! length or with an unknown state byte is rejected, never defaulted.

use vstd::prelude::*;
use vstd::bytes::{spec_u64_from_le_bytes, spec_u64_to_le_bytes, u64_from_le_bytes, u64_to_le_bytes};
use vstd::slice::slice_subrange;
use crate::Key;

verus! {

broadcast use vstd::array::group_array_axioms;

/// The phase of a swap, advanced by the three instruction handlers.
#[derive(Clone, Copy, Debug, PartialEq, Eq, Structural)]
pub enum EscrowState {
    Uninitialized,
    Initialized,
    DepositAlice,
    DepositBob,
    Committed,
    WithdrawAlice,
    WithdrawBob,
}

/// The byte that stands for a state in the persisted record.
pub open spec fn spec_state_byte(s: EscrowState) -> u8 {
    match s {
        EscrowState::Uninitialized => 0,
        EscrowState::Initialized => 1,
        EscrowState::DepositAlice => 2,
        EscrowState::DepositBob => 3,
        EscrowState::Committed => 4,
        EscrowState::WithdrawAlice => 5,
        EscrowState::WithdrawBob => 6,
    }
}

/// The state a byte stands for, if any.
pub open spec fn spec_parse_state(b: u8) -> Option<EscrowState> {
    if b == 0 {
        Some(EscrowState::Uninitialized)
    } else if b == 1 {
        Some(EscrowState::Initialized)
    } else if b == 2 {
        Some(EscrowState::DepositAlice)
    } else if b == 3 {
        Some(EscrowState::DepositBob)
    } else if b == 4 {
        Some(EscrowState::Committed)
    } else if b == 5 {
        Some(EscrowState::WithdrawAlice)
    } else if b == 6 {
        Some(EscrowState::WithdrawBob)
    } else {
        None
    }
}

pub fn state_byte(s: EscrowState) -> (r: u8)
    ensures
        r == spec_state_byte(s),
{
    match s {
        EscrowState::Uninitialized => 0,
        EscrowState::Initialized => 1,
        EscrowState::DepositAlice => 2,
        EscrowState::DepositBob => 3,
        EscrowState::Committed => 4,
        EscrowState::WithdrawAlice => 5,
        EscrowState::WithdrawBob => 6,
    }
}

pub fn parse_state(b: u8) -> (r: Option<EscrowState>)
    ensures
        r == spec_parse_state(b),
{
    match b {
        0 => Some(EscrowState::Uninitialized),
        1 => Some(EscrowState::Initialized),
        2 => Some(EscrowState::DepositAlice),
        3 => Some(EscrowState::DepositBob),
        4 => Some(EscrowState::Committed),
        5 => Some(EscrowState::WithdrawAlice),
        6 => Some(EscrowState::WithdrawBob),
        _ => None,
    }
}

pub proof fn lemma_state_byte_round_trip(s: EscrowState)
    ensures
        spec_parse_state(spec_state_byte(s)) == Some(s),
{
}

/// The persisted record of one swap.
#[derive(Clone, Copy, Debug, PartialEq, Eq)]
pub struct EscrowData {
    pub size_x: u64,
    pub size_y: u64,
    pub pubkey_alice: Key,
    pub pubkey_bob: Key,
    pub pubkey_mint_x: Key,
    pub pubkey_mint_y: Key,
    pub state: EscrowState,
    pub escrow_bump: u8,
    pub vault_x_bump: u8,
    pub vault_y_bump: u8,
}

impl EscrowData {
    /// Size of the serialized record in bytes.
    pub const LEN: usize = 8 + 8 + 32 + 32 + 32 + 32 + 1 + 1 + 1 + 1;
}

/// The exact byte image of a record.
pub open spec fn spec_serialize_record(d: EscrowData) -> Seq<u8> {
    spec_u64_to_le_bytes(d.size_x) + spec_u64_to_le_bytes(d.size_y) + d.pubkey_alice@
        + d.pubkey_bob@ + d.pubkey_mint_x@ + d.pubkey_mint_y@
        + seq![spec_state_byte(d.state), d.escrow_bump, d.vault_x_bump, d.vault_y_bump]
}

/// `d` is the record that the buffer `s` holds.
pub open spec fn record_represents(d: EscrowData, s: Seq<u8>) -> bool {
    &&& s.len() == 148
    &&& d.size_x == spec_u64_from_le_bytes(s.subrange(0, 8))
    &&& d.size_y == spec_u64_from_le_bytes(s.subrange(8, 16))
    &&& d.pubkey_alice@ == s.subrange(16, 48)
    &&& d.pubkey_bob@ == s.subrange(48, 80)
    &&& d.pubkey_mint_x@ == s.subrange(80, 112)
    &&& d.pubkey_mint_y@ == s.subrange(112, 144)
    &&& spec_parse_state(s[144]) == Some(d.state)
    &&& d.escrow_bump == s[145]
    &&& d.vault_x_bump == s[146]
    &&& d.vault_y_bump == s[147]
}

/// What deserialization yields: the unique record whose image the buffer is,
/// or nothing when the buffer is truncated or malformed.
pub open spec fn spec_deserialize_record(s: Seq<u8>) -> Option<EscrowData> {
    if exists|d: EscrowData| record_represents(d, s) {
        Some(choose|d: EscrowData| record_represents(d, s))
    } else {
        None
    }
}

/// A buffer can hold at most one record.
pub proof fn lemma_record_represents_injective(d1: EscrowData, d2: EscrowData, s: Seq<u8>)
    requires
        record_represents(d1, s),
        record_represents(d2, s),
    ensures
        d1 == d2,
{
    vstd::bytes::lemma_auto_spec_u64_to_from_le_bytes();
    assert(d1.pubkey_alice.0 =~= d2.pubkey_alice.0);
    assert(d1.pubkey_bob.0 =~= d2.pubkey_bob.0);
    assert(d1.pubkey_mint_x.0 =~= d2.pubkey_mint_x.0);
    assert(d1.pubkey_mint_y.0 =~= d2.pubkey_mint_y.0);
}

/// The byte image of a record is the one buffer that holds it.
pub proof fn lemma_serialize_represents(d: EscrowData)
    ensures
        spec_serialize_record(d).len() == 148,
        record_represents(d, spec_serialize_record(d)),
{
    vstd::bytes::lemma_auto_spec_u64_to_from_le_bytes();
    let s = spec_serialize_record(d);
    assert(s.subrange(0, 8) =~= spec_u64_to_le_bytes(d.size_x));
    assert(s.subrange(8, 16) =~= spec_u64_to_le_bytes(d.size_y));
    assert(s.subrange(16, 48) =~= d.pubkey_alice@);
    assert(s.subrange(48, 80) =~= d.pubkey_bob@);
    assert(s.subrange(80, 112) =~= d.pubkey_mint_x@);
    assert(s.subrange(112, 144) =~= d.pubkey_mint_y@);
    assert(s[144] == spec_state_byte(d.state));
    lemma_state_byte_round_trip(d.state);
}

/// Round trip: deserializing a record's image gives the record back.
pub proof fn lemma_record_round_trip(d: EscrowData)
    ensures
        spec_deserialize_record(spec_serialize_record(d)) == Some(d),
{
    lemma_serialize_represents(d);
    let s = spec_serialize_record(d);
    let d2 = choose|x: EscrowData| record_represents(x, s);
    lemma_record_represents_injective(d, d2, s);
}

/// Conversely: a buffer that deserializes is exactly the image of its record.
pub proof fn lemma_deserialize_then_serialize(s: Seq<u8>, d: EscrowData)
    requires
        spec_deserialize_record(s) == Some(d),
    ensures
        spec_serialize_record(d) == s,
{
    let dc = choose|x: EscrowData| record_represents(x, s);
    assert(record_represents(dc, s));
    assert(dc == d);
    vstd::bytes::lemma_auto_spec_u64_to_from_le_bytes();
    let img = spec_serialize_record(d);
    lemma_serialize_represents(d);
    assert forall|i: int| 0 <= i < 148 implies img[i] == s[i] by {
        if i < 8 {
            assert(img[i] == spec_u64_to_le_bytes(d.size_x)[i]);
            assert(spec_u64_to_le_bytes(d.size_x) =~= s.subrange(0, 8));
        } else if i < 16 {
            assert(img[i] == spec_u64_to_le_bytes(d.size_y)[i - 8]);
            assert(spec_u64_to_le_bytes(d.size_y) =~= s.subrange(8, 16));
        } else if i < 48 {
            assert(img[i] == d.pubkey_alice@[i - 16]);
            assert(s.subrange(16, 48)[i - 16] == s[i]);
        } else if i < 80 {
            assert(img[i] == d.pubkey_bob@[i - 48]);
            assert(s.subrange(48, 80)[i - 48] == s[i]);
        } else if i < 112 {
            assert(img[i] == d.pubkey_mint_x@[i - 80]);
            assert(s.subrange(80, 112)[i - 80] == s[i]);
        } else if i < 144 {
            assert(img[i] == d.pubkey_mint_y@[i - 112]);
            assert(s.subrange(112, 144)[i - 112] == s[i]);
        } else if i == 144 {
            assert(spec_parse_state(s[144]) == Some(d.state));
            lemma_state_byte_round_trip(d.state);
            assert(spec_state_byte(d.state) == s[144]) by {
                let b = s[144];
                assert(spec_parse_state(b) == Some(d.state));
            }
        }
    }
    assert(img =~= s);
}

/// Append the bytes of a 32-byte identifier.
fn push_key(v: &mut Vec<u8>, k: &Key)
    ensures
        final(v)@ == old(v)@ + k@,
{
    let mut i: usize = 0;
    while i < 32
        invariant
            i <= 32,
            v@ == old(v)@ + k@.subrange(0, i as int),
        decreases 32 - i,
    {
        v.push(k.0[i]);
        assert(k@.subrange(0, i + 1 as int) =~= k@.subrange(0, i as int) + seq![k@[i as int]]);
        i += 1;
    }
    assert(k@.subrange(0, 32) =~= k@);
}

/// Append the little-endian bytes of a `u64`.
fn push_u64_le(v: &mut Vec<u8>, x: u64)
    ensures
        final(v)@ == old(v)@ + spec_u64_to_le_bytes(x),
{
    let bytes = u64_to_le_bytes(x);
    let mut i: usize = 0;
    while i < bytes.len()
        invariant
            i <= bytes@.len(),
            bytes@ == spec_u64_to_le_bytes(x),
            bytes@.len() == 8,
            v@ == old(v)@ + bytes@.subrange(0, i as int),
        decreases bytes@.len() - i,
    {
        v.push(bytes[i]);
        assert(bytes@.subrange(0, i + 1 as int) =~= bytes@.subrange(0, i as int) + seq![bytes@[i as int]]);
        i += 1;
    }
    assert(bytes@.subrange(0, 8) =~= bytes@);
}

/// Read a 32-byte identifier out of a slice.
pub fn key_from_slice(s: &[u8]) -> (r: Key)
    requires
        s@.len() == 32,
    ensures
        r@ == s@,
{
    let mut a = [0u8; 32];
    let mut i: usize = 0;
    while i < 32
        invariant
            i <= 32,
            s@.len() == 32,
            forall|j: int| 0 <= j < i ==> a@[j] == s@[j],
        decreases 32 - i,
    {
        a[i] = s[i];
        i += 1;
    }
    assert(a@ =~= s@);
    Key(a)
}

impl EscrowData {
    /// Serialize the record to its 148-byte image.
    pub fn to_vec(&self) -> (r: Vec<u8>)
        ensures
            r@ == spec_serialize_record(*self),
            r@.len() == 148,
    {
        proof {
            lemma_serialize_represents(*self);
        }
        let mut v: Vec<u8> = Vec::new();
        push_u64_le(&mut v, self.size_x);
        push_u64_le(&mut v, self.size_y);
        push_key(&mut v, &self.pubkey_alice);
        push_key(&mut v, &self.pubkey_bob);
        push_key(&mut v, &self.pubkey_mint_x);
        push_key(&mut v, &self.pubkey_mint_y);
        v.push(state_byte(self.state));
        v.push(self.escrow_bump);
        v.push(self.vault_x_bump);
        v.push(self.vault_y_bump);
        assert(v@ =~= spec_serialize_record(*self));
        v
    }

    /// Deserialize a record from a buffer; fails closed on a wrong length or
    /// an unknown state byte.
    pub fn try_from_slice(s: &[u8]) -> (r: Option<EscrowData>)
        ensures
            r == spec_deserialize_record(s@),
    {
        if s.len() != 148 {
            proof {
                assert forall|d: EscrowData| !record_represents(d, s@) by {}
            }
            return None;
        }
        let state = match parse_state(s[144]) {
            Some(st) => st,
            None => {
                proof {
                    assert forall|d: EscrowData| !record_represents(d, s@) by {}
                }
                return None;
            },
        };
        let d = EscrowData {
            size_x: u64_from_le_bytes(slice_subrange(s, 0, 8)),
            size_y: u64_from_le_bytes(slice_subrange(s, 8, 16)),
            pubkey_alice: key_from_slice(slice_subrange(s, 16, 48)),
            pubkey_bob: key_from_slice(slice_subrange(s, 48, 80)),
            pubkey_mint_x: key_from_slice(slice_subrange(s, 80, 112)),
            pubkey_mint_y: key_from_slice(slice_subrange(s, 112, 144)),
            state,
            escrow_bump: s[145],
            vault_x_bump: s[146],
            vault_y_bump: s[147],
        };
        proof {
            assert(record_represents(d, s@));
            let dc = choose|x: EscrowData| record_represents(x, s@);
            lemma_record_represents_injective(d, dc, s@);
        }
        Some(d)
    }
}

} // verus!
