//! The persisted form of the two stored records. The ledger keeps each
//! record as a keyed byte region: the sale configuration as the price in
//! eight little-endian bytes followed by the treasury and owner addresses,
//! and a buyer record as the buyer's address followed by the running total
//! in eight little-endian bytes.

use vstd::prelude::*;
use crate::address::{
    address_from_bytes, le8, lemma_address_bytes_reassemble, lemma_le8_reassembles, limb_at,
    limb_from, push_le8, Address,
};
use crate::purchase::User;
use crate::sale::Ico;

verus! {

/// The 72 bytes under which a sale configuration is persisted.
pub open spec fn ico_record_bytes(ico: Ico) -> Seq<u8> {
    le8(ico.price) + ico.treasury.bytes() + ico.owner.bytes()
}

/// The configuration a persisted 72-byte region holds.
pub open spec fn parse_ico_record(s: Seq<u8>) -> Ico {
    Ico {
        price: limb_from(s, 0),
        treasury: address_from_bytes(s.subrange(8, 40)),
        owner: address_from_bytes(s.subrange(40, 72)),
    }
}

/// The 40 bytes under which a buyer record is persisted.
pub open spec fn user_record_bytes(user: User) -> Seq<u8> {
    user.usr.bytes() + le8(user.amt)
}

/// The buyer record a persisted 40-byte region holds.
pub open spec fn parse_user_record(s: Seq<u8>) -> User {
    User { usr: address_from_bytes(s.subrange(0, 32)), amt: limb_from(s, 32) }
}

/// Serialises a sale configuration into its persisted form.
pub fn write_ico_record(ico: &Ico) -> (v: Vec<u8>)
    ensures
        v@ == ico_record_bytes(*ico),
        v@.len() == 72,
{
    let mut v: Vec<u8> = Vec::new();
    push_le8(&mut v, ico.price);
    let mut treasury = ico.treasury.to_bytes();
    v.append(&mut treasury);
    let mut owner = ico.owner.to_bytes();
    v.append(&mut owner);
    proof {
        assert(v@ =~= ico_record_bytes(*ico));
    }
    v
}

/// Reads a sale configuration back from its persisted form.
pub fn read_ico_record(b: &Vec<u8>) -> (ico: Ico)
    requires
        b@.len() == 72,
    ensures
        ico == parse_ico_record(b@),
{
    Ico {
        price: limb_at(b, 0),
        treasury: Address::read_at(b, 8),
        owner: Address::read_at(b, 40),
    }
}

/// Serialises a buyer record into its persisted form.
pub fn write_user_record(user: &User) -> (v: Vec<u8>)
    ensures
        v@ == user_record_bytes(*user),
        v@.len() == 40,
{
    let mut v = user.usr.to_bytes();
    push_le8(&mut v, user.amt);
    proof {
        assert(v@ =~= user_record_bytes(*user));
    }
    v
}

/// Reads a buyer record back from its persisted form.
pub fn read_user_record(b: &Vec<u8>) -> (user: User)
    requires
        b@.len() == 40,
    ensures
        user == parse_user_record(b@),
{
    User { usr: Address::read_at(b, 0), amt: limb_at(b, 32) }
}

/// Persisting a sale configuration and reading the bytes back yields the
/// same configuration.
#[verifier::rlimit(100)]
#[verifier::spinoff_prover]
pub proof fn lemma_ico_record_round_trip(ico: Ico)
    ensures
        parse_ico_record(ico_record_bytes(ico)) == ico,
{
    let s = ico_record_bytes(ico);
    assert(s.subrange(8, 40) =~= ico.treasury.bytes());
    assert(s.subrange(40, 72) =~= ico.owner.bytes());
    assert forall|j: int| 0 <= j < 8 implies s[j] == le8(ico.price)[j] by {}
    assert(limb_from(s, 0) == limb_from(le8(ico.price), 0));
    lemma_le8_reassembles(ico.price);
    lemma_address_bytes_reassemble(ico.treasury);
    lemma_address_bytes_reassemble(ico.owner);
}

/// Persisting a buyer record and reading the bytes back yields the same
/// record.
#[verifier::rlimit(100)]
#[verifier::spinoff_prover]
pub proof fn lemma_user_record_round_trip(user: User)
    ensures
        parse_user_record(user_record_bytes(user)) == user,
{
    let s = user_record_bytes(user);
    assert(s.subrange(0, 32) =~= user.usr.bytes());
    assert forall|j: int| 0 <= j < 8 implies s[32 + j] == le8(user.amt)[j] by {}
    assert(limb_from(s, 32) == limb_from(le8(user.amt), 0));
    lemma_le8_reassembles(user.amt);
    lemma_address_bytes_reassemble(user.usr);
}

} // verus!
