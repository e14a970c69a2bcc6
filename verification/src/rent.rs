//! The rent sysvar: the host-supplied parameters that fix the minimum
//! balance an account must hold to persist. The parameters arrive as the
//! sysvar account's data; decoding them and pricing a given size are the
//! host's own calculations, taken on trust and pinned to a name.

use vstd::prelude::*;
use vstd::bytes::spec_u64_from_le_bytes;

verus! {

/// The decoded rent parameters, as plain values.
#[derive(Clone, Copy, Debug, PartialEq, Eq)]
pub struct RentView {
    pub lamports_per_byte: u64,
    pub exemption_threshold: [u8; 8],
    pub burn_percent: u8,
}

/// Relies on `bincode::deserialize` for `solana_program::rent::Rent`: the
/// sysvar encoding is fixed-width little-endian — a `u64` rate, an 8-byte
/// threshold, one percent byte — read in order with trailing bytes allowed,
/// so it succeeds exactly on buffers of at least 17 bytes.
#[verifier::external_body]
fn parse_rent(data: &Vec<u8>) -> (r: Option<RentView>)
    ensures
        r is Some <==> data@.len() >= 17,
        (r matches Some(rv) ==> {
            &&& rv.lamports_per_byte == spec_u64_from_le_bytes(data@.subrange(0, 8))
            &&& rv.exemption_threshold@ == data@.subrange(8, 16)
            &&& rv.burn_percent == data@[16]
        }),
{
    let rent: solana_program::rent::Rent = match bincode::deserialize(data.as_slice()) {
        Ok(r) => r,
        Err(_) => return None,
    };
    #[allow(deprecated)]
    Some(RentView {
        lamports_per_byte: rent.lamports_per_byte,
        exemption_threshold: rent.exemption_threshold,
        burn_percent: rent.burn_percent,
    })
}

/// The two exemption-threshold encodings the host prices without floating
/// point and validates its rate against: the little-endian bytes of 1.0 and
/// of 2.0.
pub open spec fn spec_threshold_known(threshold: Seq<u8>) -> bool {
    threshold == seq![0u8, 0u8, 0u8, 0u8, 0u8, 0u8, 240u8, 63u8] || threshold == seq![
        0u8,
        0u8,
        0u8,
        0u8,
        0u8,
        0u8,
        0u8,
        64u8,
    ]
}

fn threshold_known(threshold: &[u8; 8]) -> (r: bool)
    ensures
        r == spec_threshold_known(threshold@),
{
    let one = threshold[0] == 0 && threshold[1] == 0 && threshold[2] == 0 && threshold[3] == 0
        && threshold[4] == 0 && threshold[5] == 0 && threshold[6] == 240 && threshold[7] == 63;
    let two = threshold[0] == 0 && threshold[1] == 0 && threshold[2] == 0 && threshold[3] == 0
        && threshold[4] == 0 && threshold[5] == 0 && threshold[6] == 0 && threshold[7] == 64;
    proof {
        broadcast use vstd::array::group_array_axioms;

        if one {
            assert(threshold@ =~= seq![0u8, 0u8, 0u8, 0u8, 0u8, 0u8, 240u8, 63u8]);
        }
        if two {
            assert(threshold@ =~= seq![0u8, 0u8, 0u8, 0u8, 0u8, 0u8, 0u8, 64u8]);
        }
    }
    one || two
}

/// The inputs on which the host's pricing is known not to overflow: any size
/// above its 10 MiB data cap is refused before arithmetic; for the two known
/// threshold encodings it validates the rate itself; for any other
/// threshold it multiplies `(128 + size) * rate` unchecked, so that product
/// must fit.
pub open spec fn spec_rent_price_safe(rate: u64, threshold: Seq<u8>, space: nat) -> bool {
    ||| space > 10485760
    ||| spec_threshold_known(threshold)
    ||| (128 + space) * rate <= u64::MAX
}

/// Relies on `solana_program::rent::Rent::try_minimum_balance`: the minimum
/// balance is computed from the rate, the threshold bytes and the data
/// length alone; an out-of-cap length or an out-of-range rate under a known
/// threshold returns `None`. Under any other threshold the host multiplies
/// the rate unchecked, so inputs on which that product could overflow are
/// excluded.
#[verifier::external_body]
#[allow(deprecated)]
fn min_balance(rent: &RentView, space: usize) -> (r: Option<u64>)
    requires
        spec_rent_price_safe(rent.lamports_per_byte, rent.exemption_threshold@, space as nat),
    ensures
        r == rent_min_of(rent.lamports_per_byte, rent.exemption_threshold@, space as nat),
{
    let host_rent = solana_program::rent::Rent {
        lamports_per_byte: rent.lamports_per_byte,
        exemption_threshold: rent.exemption_threshold,
        burn_percent: rent.burn_percent,
    };
    host_rent.try_minimum_balance(space)
}

/// The minimum rent-exempt balance the host computes for an account of
/// `space` bytes under the given rent parameters, or nothing when the size
/// or rate is out of the host's permitted range. A function of its arguments
/// alone.
pub uninterp spec fn rent_min_of(
    lamports_per_byte: u64,
    exemption_threshold: Seq<u8>,
    space: nat,
) -> Option<u64>;

/// The minimum balance that rent sysvar data prices an account of `space`
/// bytes at, or nothing when the data is malformed, the parameters are out
/// of range, or pricing them would overflow.
pub open spec fn spec_rent_minimum_balance(data: Seq<u8>, space: nat) -> Option<u64> {
    if data.len() >= 17 {
        let rate = spec_u64_from_le_bytes(data.subrange(0, 8));
        let threshold = data.subrange(8, 16);
        if spec_rent_price_safe(rate, threshold, space) {
            rent_min_of(rate, threshold, space)
        } else {
            None
        }
    } else {
        None
    }
}

/// Decode the rent sysvar data and price an account of `space` bytes.
pub fn rent_minimum_balance(data: &Vec<u8>, space: usize) -> (r: Option<u64>)
    ensures
        r == spec_rent_minimum_balance(data@, space as nat),
{
    let rv = match parse_rent(data) {
        Some(rv) => rv,
        None => {
            return None;
        },
    };
    let safe = if space as u64 > 10485760 {
        true
    } else if threshold_known(&rv.exemption_threshold) {
        true
    } else {
        let a: u128 = space as u128 + 128;
        let b: u128 = rv.lamports_per_byte as u128;
        proof {
            assert(a * b <= 10485888u128 * 18446744073709551615u128) by (nonlinear_arith)
                requires
                    a <= 10485888,
                    b <= 18446744073709551615u128,
            ;
        }
        a * b <= u64::MAX as u128
    };
    if safe {
        min_balance(&rv, space)
    } else {
        None
    }
}

} // verus!
