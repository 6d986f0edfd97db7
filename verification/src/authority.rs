//! Derivation of the program-controlled signing authority: a deterministic
//! identity computed from a fixed seed and the program id, under which the
//! sale's token pool releases sold tokens. No private key exists for it;
//! only program logic can present the bump seed that witnesses it.

use vstd::prelude::*;
use crate::address::{Address, address_from_bytes};

verus! {

/// What `Pubkey::try_find_program_address` returns for a single seed and a
/// program id: the derived 32-byte address with its bump seed, or nothing
/// when no bump seed yields a valid (off-curve) address.
pub uninterp spec fn derived_address_of(program_id: Seq<u8>, seed: Seq<u8>) -> Option<
    (Seq<u8>, u8),
>;

/// Relies on solana's `Pubkey::try_find_program_address`: the derived
/// address and bump seed are a pure function of the seed and the program id
/// (iterated SHA-256 with an off-curve check), it never panics, and a
/// derived address is 32 bytes long.
#[verifier::external_body]
fn find_derived_address(seed: &Vec<u8>, program_id: &Vec<u8>) -> (r: Option<(Vec<u8>, u8)>)
    requires
        program_id@.len() == 32,
    ensures
        match r {
            Some(p) => derived_address_of(program_id@, seed@) == Some((p.0@, p.1)) && p.0@.len()
                == 32,
            None => derived_address_of(program_id@, seed@) is None,
        },
{
    let mut arr = [0u8; 32];
    arr.copy_from_slice(program_id.as_slice());
    let pid = anchor_lang::prelude::Pubkey::new_from_array(arr);
    match anchor_lang::prelude::Pubkey::try_find_program_address(&[seed.as_slice()], &pid) {
        Some((addr, bump)) => Some((addr.to_bytes().to_vec(), bump)),
        None => None,
    }
}

/// The fixed seed under which the sale's signing authority is derived:
/// the bytes of `"authority"`.
pub open spec fn authority_seed() -> Seq<u8> {
    seq![97u8, 117u8, 116u8, 104u8, 111u8, 114u8, 105u8, 116u8, 121u8]
}

/// Builds the fixed authority seed bytes.
fn authority_seed_bytes() -> (v: Vec<u8>)
    ensures
        v@ == authority_seed(),
{
    let mut v: Vec<u8> = Vec::new();
    v.push(97);
    v.push(117);
    v.push(116);
    v.push(104);
    v.push(111);
    v.push(114);
    v.push(105);
    v.push(116);
    v.push(121);
    proof {
        assert(v@ =~= authority_seed());
    }
    v
}

/// A signing capability over the sale's token pool: the derived address
/// and the bump seed that witnesses it. It is handed to the token transfer
/// service to authorize releasing sold tokens; no external party can sign
/// for it.
#[derive(Clone, Copy, Debug, PartialEq, Eq, Structural)]
pub struct Authority {
    pub address: Address,
    pub bump: u8,
}

/// Derives the sale's signing authority for `program_id` from the fixed
/// seed. The result is stable: every call for the same program id yields
/// the same address and bump. `None` arises only in the statistically
/// improbable case that no bump seed yields a valid derived address.
pub fn derive_authority(program_id: &Address) -> (r: Option<Authority>)
    ensures
        r == (match derived_address_of(program_id.bytes(), authority_seed()) {
            Some(p) => Some(Authority { address: address_from_bytes(p.0), bump: p.1 }),
            None => None::<Authority>,
        }),
{
    let seed = authority_seed_bytes();
    let pid = program_id.to_bytes();
    match find_derived_address(&seed, &pid) {
        Some((bytes, bump)) => {
            let address = Address::from_bytes(&bytes);
            Some(Authority { address, bump })
        },
        None => None,
    }
}

} // verus!
