use vstd::prelude::*;

use crate::key::Key;

verus! {

/// The program address and bump seed that the ledger derives from a list of
/// seeds and a program id, or `None` where no bump seed gives an address off
/// the ed25519 curve.
pub uninterp spec fn program_address_of(seeds: Seq<Seq<u8>>, program_id: Seq<u8>) -> Option<(Seq<u8>, u8)>;

/// The domain tag that separates identity records from other derived addresses.
pub open spec fn did_tag() -> Seq<u8> {
    seq![0x64u8, 0x69u8, 0x64u8]
}

/// The address and bump seed of the identity record of `owner`.
pub open spec fn did_address_of(owner: Seq<u8>, program_id: Seq<u8>) -> Option<(Seq<u8>, u8)> {
    program_address_of(seq![did_tag(), owner], program_id)
}

/// The view of a derivation result.
pub open spec fn derived_view(r: Option<(Key, u8)>) -> Option<(Seq<u8>, u8)> {
    match r {
        Some((a, b)) => Some((a@, b)),
        None => None,
    }
}

/// Relies on anchor_lang's `Pubkey::try_find_program_address` for the
/// two seeds `tag`, `owner`: the derived address and its canonical bump seed,
/// or `None` where no bump seed gives a valid address.
#[verifier::external_body]
fn try_find_program_address(tag: &[u8; 3], owner: &[u8; 32], program_id: &[u8; 32]) -> (r: Option<([u8; 32], u8)>)
    ensures
        match r {
            Some((a, b)) => program_address_of(seq![tag@, owner@], program_id@) == Some((a@, b)),
            None => program_address_of(seq![tag@, owner@], program_id@) is None,
        },
{
    let program = anchor_lang::prelude::Pubkey::new_from_array(*program_id);
    anchor_lang::prelude::Pubkey::try_find_program_address(&[tag.as_slice(), owner.as_slice()], &program)
        .map(|(a, b)| (a.to_bytes(), b))
}

/// Derives the address of the identity record of `owner` under `program_id`.
/// The result depends on the two keys alone.
pub fn derive_did_address(owner: &Key, program_id: &Key) -> (r: Option<(Key, u8)>)
    ensures
        derived_view(r) == did_address_of(owner@, program_id@),
{
    let tag: [u8; 3] = [0x64, 0x69, 0x64];
    assert(tag@ =~= did_tag());
    match try_find_program_address(&tag, &owner.bytes, &program_id.bytes) {
        Some((a, b)) => Some((Key { bytes: a }, b)),
        None => None,
    }
}

/// Derivation is a function of its inputs: two derivations for the same owner
/// and program give the same address and bump seed.
pub proof fn lemma_derivation_deterministic(owner: Key, program_id: Key, r1: Option<(Key, u8)>, r2: Option<(Key, u8)>)
    requires
        derived_view(r1) == did_address_of(owner@, program_id@),
        derived_view(r2) == did_address_of(owner@, program_id@),
    ensures
        derived_view(r1) == derived_view(r2),
{
}

} // verus!
