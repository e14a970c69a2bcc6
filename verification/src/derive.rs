//! Deterministic address derivation: each vault and the escrow record live at
//! a program-derived address computed from a domain tag, the two parties, the
//! two mints, the secret pass value, and a disambiguating bump byte.
//!
//! The derivation itself is the host's; this module pins its result to a name
//! (`pda_of`), searches for the unique valid bump, and proves the search and
//! every re-derivation deterministic.

use vstd::prelude::*;
use crate::Key;

verus! {

broadcast use vstd::array::group_array_axioms;

/// Which of the three derived addresses is being computed.
#[derive(Clone, Copy, Debug, PartialEq, Eq, Structural)]
pub enum SeedTag {
    VaultX,
    VaultY,
    Escrow,
}

/// The domain-separation bytes of a tag: `"vault_x"`, `"vault_y"`, `"escrow"`.
pub open spec fn tag_bytes(t: SeedTag) -> Seq<u8> {
    match t {
        SeedTag::VaultX => seq![118u8, 97u8, 117u8, 108u8, 116u8, 95u8, 120u8],
        SeedTag::VaultY => seq![118u8, 97u8, 117u8, 108u8, 116u8, 95u8, 121u8],
        SeedTag::Escrow => seq![101u8, 115u8, 99u8, 114u8, 111u8, 119u8],
    }
}

fn make_tag(t: SeedTag) -> (r: Vec<u8>)
    ensures
        r@ == tag_bytes(t),
        r@.len() <= 32,
{
    let mut v: Vec<u8> = Vec::new();
    match t {
        SeedTag::VaultX => {
            v.push(118);
            v.push(97);
            v.push(117);
            v.push(108);
            v.push(116);
            v.push(95);
            v.push(120);
        },
        SeedTag::VaultY => {
            v.push(118);
            v.push(97);
            v.push(117);
            v.push(108);
            v.push(116);
            v.push(95);
            v.push(121);
        },
        SeedTag::Escrow => {
            v.push(101);
            v.push(115);
            v.push(99);
            v.push(114);
            v.push(111);
            v.push(119);
        },
    }
    assert(v@ =~= tag_bytes(t));
    v
}

/// The address the host derives from the seed list
/// `[tag, party_a, party_b, mint_x, mint_y, pass, [bump]]` and a program id,
/// or nothing when that derivation fails. A function of its arguments alone.
pub uninterp spec fn pda_of(
    tag: Seq<u8>,
    party_a: Seq<u8>,
    party_b: Seq<u8>,
    mint_x: Seq<u8>,
    mint_y: Seq<u8>,
    pass: Seq<u8>,
    bump: u8,
    program_id: Seq<u8>,
) -> Option<Seq<u8>>;

/// Relies on `solana_program::pubkey::Pubkey::create_program_address`: the
/// result is a SHA-256 digest of the seed list and the program id, so it is a
/// function of the arguments alone. With seven seeds of at most 32 bytes
/// each, the only failure is a digest that falls on the ed25519 curve; the
/// call never panics.
#[verifier::external_body]
fn create_program_address(
    tag: &Vec<u8>,
    party_a: &Key,
    party_b: &Key,
    mint_x: &Key,
    mint_y: &Key,
    pass: &[u8; 32],
    bump: u8,
    program_id: &Key,
) -> (r: Option<Key>)
    requires
        tag@.len() <= 32,
    ensures
        (match r {
            Some(k) => pda_of(tag@, party_a@, party_b@, mint_x@, mint_y@, pass@, bump, program_id@)
                == Some(k@),
            None => pda_of(tag@, party_a@, party_b@, mint_x@, mint_y@, pass@, bump, program_id@)
                is None,
        }),
{
    let bump_seed = [bump];
    let seeds: [&[u8]; 7] = [
        tag.as_slice(),
        &party_a.0,
        &party_b.0,
        &mint_x.0,
        &mint_y.0,
        pass,
        &bump_seed,
    ];
    let program = solana_program::pubkey::Pubkey::new_from_array(program_id.0);
    match solana_program::pubkey::Pubkey::create_program_address(&seeds, &program) {
        Ok(pk) => Some(Key(pk.to_bytes())),
        Err(_) => None,
    }
}

/// The derived address for a tag, the record's identity fields, and a bump.
pub open spec fn spec_derive(
    t: SeedTag,
    party_a: Seq<u8>,
    party_b: Seq<u8>,
    mint_x: Seq<u8>,
    mint_y: Seq<u8>,
    pass: Seq<u8>,
    bump: u8,
    program_id: Seq<u8>,
) -> Option<Seq<u8>> {
    pda_of(tag_bytes(t), party_a, party_b, mint_x, mint_y, pass, bump, program_id)
}

/// Re-derive the address for a stored bump.
pub fn derive_address(
    t: SeedTag,
    party_a: &Key,
    party_b: &Key,
    mint_x: &Key,
    mint_y: &Key,
    pass: &[u8; 32],
    bump: u8,
    program_id: &Key,
) -> (r: Option<Key>)
    ensures
        (match r {
            Some(k) => spec_derive(t, party_a@, party_b@, mint_x@, mint_y@, pass@, bump, program_id@)
                == Some(k@),
            None => spec_derive(t, party_a@, party_b@, mint_x@, mint_y@, pass@, bump, program_id@)
                is None,
        }),
{
    let tag = make_tag(t);
    create_program_address(&tag, party_a, party_b, mint_x, mint_y, pass, bump, program_id)
}

/// The first valid derivation at or below `bump`, searching downward to 1.
pub open spec fn spec_find_bump_from(
    t: SeedTag,
    party_a: Seq<u8>,
    party_b: Seq<u8>,
    mint_x: Seq<u8>,
    mint_y: Seq<u8>,
    pass: Seq<u8>,
    program_id: Seq<u8>,
    bump: u8,
) -> Option<(Seq<u8>, u8)>
    decreases bump,
{
    match spec_derive(t, party_a, party_b, mint_x, mint_y, pass, bump, program_id) {
        Some(k) => Some((k, bump)),
        None => if bump <= 1 {
            None
        } else {
            spec_find_bump_from(
                t,
                party_a,
                party_b,
                mint_x,
                mint_y,
                pass,
                program_id,
                (bump - 1) as u8,
            )
        },
    }
}

/// The unique valid (address, bump) pair: the first derivation that succeeds
/// searching from 255 downward.
pub open spec fn spec_find_bump(
    t: SeedTag,
    party_a: Seq<u8>,
    party_b: Seq<u8>,
    mint_x: Seq<u8>,
    mint_y: Seq<u8>,
    pass: Seq<u8>,
    program_id: Seq<u8>,
) -> Option<(Seq<u8>, u8)> {
    spec_find_bump_from(t, party_a, party_b, mint_x, mint_y, pass, program_id, 255)
}

/// Search bump candidates from 255 downward until one derives a valid
/// address. Fails only when no candidate in the search space does.
pub fn find_bump(
    t: SeedTag,
    party_a: &Key,
    party_b: &Key,
    mint_x: &Key,
    mint_y: &Key,
    pass: &[u8; 32],
    program_id: &Key,
) -> (r: Option<(Key, u8)>)
    ensures
        (match r {
            Some(p) => spec_find_bump(t, party_a@, party_b@, mint_x@, mint_y@, pass@, program_id@)
                == Some((p.0@, p.1)),
            None => spec_find_bump(t, party_a@, party_b@, mint_x@, mint_y@, pass@, program_id@)
                is None,
        }),
{
    let mut bump: u8 = 255;
    loop
        invariant
            1 <= bump <= 255,
            spec_find_bump(t, party_a@, party_b@, mint_x@, mint_y@, pass@, program_id@)
                == spec_find_bump_from(
                t,
                party_a@,
                party_b@,
                mint_x@,
                mint_y@,
                pass@,
                program_id@,
                bump,
            ),
        decreases bump,
    {
        match derive_address(t, party_a, party_b, mint_x, mint_y, pass, bump, program_id) {
            Some(k) => {
                return Some((k, bump));
            },
            None => {
                if bump == 1 {
                    return None;
                }
                bump -= 1;
            },
        }
    }
}

/// Determinism of derivation: two results computed from the same tag,
/// parties, mints, pass, bump and program id are identical.
pub proof fn lemma_derivation_deterministic(
    t: SeedTag,
    party_a: Seq<u8>,
    party_b: Seq<u8>,
    mint_x: Seq<u8>,
    mint_y: Seq<u8>,
    pass: Seq<u8>,
    bump: u8,
    program_id: Seq<u8>,
    r1: Option<Seq<u8>>,
    r2: Option<Seq<u8>>,
)
    requires
        r1 == spec_derive(t, party_a, party_b, mint_x, mint_y, pass, bump, program_id),
        r2 == spec_derive(t, party_a, party_b, mint_x, mint_y, pass, bump, program_id),
    ensures
        r1 == r2,
{
}

/// Determinism of the bump search: two searches over the same inputs find
/// the same address and the same bump.
pub proof fn lemma_find_bump_deterministic(
    t: SeedTag,
    party_a: Seq<u8>,
    party_b: Seq<u8>,
    mint_x: Seq<u8>,
    mint_y: Seq<u8>,
    pass: Seq<u8>,
    program_id: Seq<u8>,
    r1: Option<(Seq<u8>, u8)>,
    r2: Option<(Seq<u8>, u8)>,
)
    requires
        r1 == spec_find_bump(t, party_a, party_b, mint_x, mint_y, pass, program_id),
        r2 == spec_find_bump(t, party_a, party_b, mint_x, mint_y, pass, program_id),
    ensures
        r1 == r2,
{
}

/// The bump search agrees with re-derivation: the address it finds is
/// exactly the one that re-deriving with the found bump yields.
pub proof fn lemma_find_bump_rederives(
    t: SeedTag,
    party_a: Seq<u8>,
    party_b: Seq<u8>,
    mint_x: Seq<u8>,
    mint_y: Seq<u8>,
    pass: Seq<u8>,
    program_id: Seq<u8>,
    k: Seq<u8>,
    bump: u8,
)
    requires
        spec_find_bump(t, party_a, party_b, mint_x, mint_y, pass, program_id) == Some((k, bump)),
    ensures
        spec_derive(t, party_a, party_b, mint_x, mint_y, pass, bump, program_id) == Some(k),
        1 <= bump <= 255,
{
    lemma_find_bump_from_rederives(t, party_a, party_b, mint_x, mint_y, pass, program_id, k, bump, 255);
}

proof fn lemma_find_bump_from_rederives(
    t: SeedTag,
    party_a: Seq<u8>,
    party_b: Seq<u8>,
    mint_x: Seq<u8>,
    mint_y: Seq<u8>,
    pass: Seq<u8>,
    program_id: Seq<u8>,
    k: Seq<u8>,
    bump: u8,
    from: u8,
)
    requires
        from >= 1,
        spec_find_bump_from(t, party_a, party_b, mint_x, mint_y, pass, program_id, from) == Some(
            (k, bump),
        ),
    ensures
        spec_derive(t, party_a, party_b, mint_x, mint_y, pass, bump, program_id) == Some(k),
        1 <= bump <= from,
    decreases from,
{
    if spec_derive(t, party_a, party_b, mint_x, mint_y, pass, from, program_id) is Some {
    } else if from > 1 {
        lemma_find_bump_from_rederives(
            t,
            party_a,
            party_b,
            mint_x,
            mint_y,
            pass,
            program_id,
            k,
            bump,
            (from - 1) as u8,
        );
    }
}

} // verus!
