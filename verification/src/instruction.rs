//! The wire format of inbound instructions: a tag byte followed by the
//! payload of the matching variant. Unknown tags, truncated payloads and
//! trailing bytes are all rejected.

use vstd::prelude::*;
use vstd::bytes::{spec_u64_from_le_bytes, spec_u64_to_le_bytes, u64_from_le_bytes, u64_to_le_bytes};
use vstd::slice::slice_subrange;
use crate::state::key_from_slice;

verus! {

broadcast use vstd::array::group_array_axioms;

/// One decoded instruction.
#[derive(Clone, Copy, Debug, PartialEq, Eq)]
pub enum EscrowInstruction {
    /// Create the vaults and the escrow record for a new swap.
    InitEscrow { amount_x: u64, amount_y: u64, pass: [u8; 32] },
    /// Move the caller's agreed amount into the caller's vault.
    Deposit { pass: [u8; 32] },
    /// Move the counterparty's deposit out to the caller.
    Withdrawal { pass: [u8; 32] },
}

/// The exact byte image of an instruction.
pub open spec fn spec_serialize_instruction(i: EscrowInstruction) -> Seq<u8> {
    match i {
        EscrowInstruction::InitEscrow { amount_x, amount_y, pass } => seq![0u8]
            + spec_u64_to_le_bytes(amount_x) + spec_u64_to_le_bytes(amount_y) + pass@,
        EscrowInstruction::Deposit { pass } => seq![1u8] + pass@,
        EscrowInstruction::Withdrawal { pass } => seq![2u8] + pass@,
    }
}

/// `i` is the instruction that the buffer `s` holds.
pub open spec fn instruction_represents(i: EscrowInstruction, s: Seq<u8>) -> bool {
    match i {
        EscrowInstruction::InitEscrow { amount_x, amount_y, pass } => {
            &&& s.len() == 49
            &&& s[0] == 0
            &&& amount_x == spec_u64_from_le_bytes(s.subrange(1, 9))
            &&& amount_y == spec_u64_from_le_bytes(s.subrange(9, 17))
            &&& pass@ == s.subrange(17, 49)
        },
        EscrowInstruction::Deposit { pass } => {
            &&& s.len() == 33
            &&& s[0] == 1
            &&& pass@ == s.subrange(1, 33)
        },
        EscrowInstruction::Withdrawal { pass } => {
            &&& s.len() == 33
            &&& s[0] == 2
            &&& pass@ == s.subrange(1, 33)
        },
    }
}

/// What decoding yields: the unique instruction whose image the buffer is,
/// or nothing for an unknown tag, a truncated payload or trailing bytes.
pub open spec fn spec_deserialize_instruction(s: Seq<u8>) -> Option<EscrowInstruction> {
    if exists|i: EscrowInstruction| instruction_represents(i, s) {
        Some(choose|i: EscrowInstruction| instruction_represents(i, s))
    } else {
        None
    }
}

/// A buffer can hold at most one instruction.
pub proof fn lemma_instruction_represents_injective(
    i1: EscrowInstruction,
    i2: EscrowInstruction,
    s: Seq<u8>,
)
    requires
        instruction_represents(i1, s),
        instruction_represents(i2, s),
    ensures
        i1 == i2,
{
    match (i1, i2) {
        (
            EscrowInstruction::InitEscrow { pass: p1, .. },
            EscrowInstruction::InitEscrow { pass: p2, .. },
        ) => {
            assert(p1 =~= p2);
        },
        (EscrowInstruction::Deposit { pass: p1 }, EscrowInstruction::Deposit { pass: p2 }) => {
            assert(p1 =~= p2);
        },
        (
            EscrowInstruction::Withdrawal { pass: p1 },
            EscrowInstruction::Withdrawal { pass: p2 },
        ) => {
            assert(p1 =~= p2);
        },
        _ => {},
    }
}

/// The byte image of an instruction is the one buffer that holds it.
pub proof fn lemma_serialize_instruction_represents(i: EscrowInstruction)
    ensures
        instruction_represents(i, spec_serialize_instruction(i)),
{
    vstd::bytes::lemma_auto_spec_u64_to_from_le_bytes();
    let s = spec_serialize_instruction(i);
    match i {
        EscrowInstruction::InitEscrow { amount_x, amount_y, pass } => {
            assert(s.subrange(1, 9) =~= spec_u64_to_le_bytes(amount_x));
            assert(s.subrange(9, 17) =~= spec_u64_to_le_bytes(amount_y));
            assert(s.subrange(17, 49) =~= pass@);
        },
        EscrowInstruction::Deposit { pass } => {
            assert(s.subrange(1, 33) =~= pass@);
        },
        EscrowInstruction::Withdrawal { pass } => {
            assert(s.subrange(1, 33) =~= pass@);
        },
    }
}

/// Round trip: decoding an instruction's image gives the instruction back.
pub proof fn lemma_instruction_round_trip(i: EscrowInstruction)
    ensures
        spec_deserialize_instruction(spec_serialize_instruction(i)) == Some(i),
{
    lemma_serialize_instruction_represents(i);
    let s = spec_serialize_instruction(i);
    let i2 = choose|x: EscrowInstruction| instruction_represents(x, s);
    lemma_instruction_represents_injective(i, i2, s);
}

impl EscrowInstruction {
    /// Encode the instruction to its byte image.
    pub fn to_vec(&self) -> (r: Vec<u8>)
        ensures
            r@ == spec_serialize_instruction(*self),
    {
        let mut v: Vec<u8> = Vec::new();
        match self {
            EscrowInstruction::InitEscrow { amount_x, amount_y, pass } => {
                v.push(0);
                let ax = u64_to_le_bytes(*amount_x);
                let ay = u64_to_le_bytes(*amount_y);
                append_bytes(&mut v, ax.as_slice());
                append_bytes(&mut v, ay.as_slice());
                append_bytes(&mut v, pass.as_slice());
            },
            EscrowInstruction::Deposit { pass } => {
                v.push(1);
                append_bytes(&mut v, pass.as_slice());
            },
            EscrowInstruction::Withdrawal { pass } => {
                v.push(2);
                append_bytes(&mut v, pass.as_slice());
            },
        }
        assert(v@ =~= spec_serialize_instruction(*self));
        v
    }

    /// Decode an instruction from a buffer; fails closed on an unknown tag,
    /// a wrong length or trailing bytes.
    pub fn try_from_slice(s: &[u8]) -> (r: Option<EscrowInstruction>)
        ensures
            r == spec_deserialize_instruction(s@),
    {
        if s.len() == 0 {
            proof {
                assert forall|i: EscrowInstruction| !instruction_represents(i, s@) by {}
            }
            return None;
        }
        let tag = s[0];
        if tag == 0 && s.len() == 49 {
            let i = EscrowInstruction::InitEscrow {
                amount_x: u64_from_le_bytes(slice_subrange(s, 1, 9)),
                amount_y: u64_from_le_bytes(slice_subrange(s, 9, 17)),
                pass: key_from_slice(slice_subrange(s, 17, 49)).0,
            };
            proof {
                assert(instruction_represents(i, s@));
                let ic = choose|x: EscrowInstruction| instruction_represents(x, s@);
                lemma_instruction_represents_injective(i, ic, s@);
            }
            Some(i)
        } else if tag == 1 && s.len() == 33 {
            let i = EscrowInstruction::Deposit {
                pass: key_from_slice(slice_subrange(s, 1, 33)).0,
            };
            proof {
                assert(instruction_represents(i, s@));
                let ic = choose|x: EscrowInstruction| instruction_represents(x, s@);
                lemma_instruction_represents_injective(i, ic, s@);
            }
            Some(i)
        } else if tag == 2 && s.len() == 33 {
            let i = EscrowInstruction::Withdrawal {
                pass: key_from_slice(slice_subrange(s, 1, 33)).0,
            };
            proof {
                assert(instruction_represents(i, s@));
                let ic = choose|x: EscrowInstruction| instruction_represents(x, s@);
                lemma_instruction_represents_injective(i, ic, s@);
            }
            Some(i)
        } else {
            proof {
                assert forall|i: EscrowInstruction| !instruction_represents(i, s@) by {}
            }
            None
        }
    }
}

/// Append a slice's bytes to a vector.
fn append_bytes(v: &mut Vec<u8>, s: &[u8])
    ensures
        final(v)@ == old(v)@ + s@,
{
    let mut i: usize = 0;
    while i < s.len()
        invariant
            i <= s@.len(),
            v@ == old(v)@ + s@.subrange(0, i as int),
        decreases s@.len() - i,
    {
        v.push(s[i]);
        assert(s@.subrange(0, i + 1 as int) =~= s@.subrange(0, i as int) + seq![s@[i as int]]);
        i += 1;
    }
    assert(s@.subrange(0, s@.len() as int) =~= s@);
}

} // verus!
