//! Program-derived addresses.
//!
//! The ledger assigns an address to a seed vector by hashing the seeds,
//! the deriving program's id, and a fixed marker, and rejecting hashes
//! that name an ordinary key pair. What the hash yields on given inputs
//! takes pages to state, but it is a function of the inputs alone; the
//! library names that function `derived_address` and checks every stored
//! or supplied address against it.

use vstd::prelude::*;

use crate::address::Address;

verus! {

/// The address that the ledger's derivation scheme assigns to `seeds`
/// under `program_id`, or `None` where the scheme has no address for
/// these seeds (too many seeds, an over-long seed, or a hash that lands
/// on the signing curve).
pub uninterp spec fn derived_address(seeds: Seq<Seq<u8>>, program_id: Seq<u8>) -> Option<Seq<u8>>;

/// Relies on Pubkey::create_program_address: its result is a 32-byte
/// address computed from the seeds and the program id alone, and the
/// call fails exactly where the scheme has no address for these seeds.
#[verifier::external_body]
pub(crate) fn create_program_address(seeds: &Vec<Vec<u8>>, program_id: &Address) -> (r: Option<
    Address,
>)
    requires
        program_id.wf(),
    ensures
        match r {
            Some(a) => derived_address(seeds.deep_view(), program_id@) == Some(a@) && a.wf(),
            None => derived_address(seeds.deep_view(), program_id@) is None,
        },
{
    let seed_refs: Vec<&[u8]> = seeds.iter().map(|s| s.as_slice()).collect();
    let program = anchor_lang::solana_program::pubkey::Pubkey::new_from_array(
        program_id.as_bytes().as_slice().try_into().unwrap(),
    );
    match anchor_lang::solana_program::pubkey::Pubkey::create_program_address(
        &seed_refs,
        &program,
    ) {
        Ok(a) => Some(Address::new(a.to_bytes().to_vec())),
        Err(_) => None,
    }
}

/// Does the derivation scheme assign exactly `expected` to these seeds?
pub fn check_derivation(seeds: &Vec<Vec<u8>>, program_id: &Address, expected: &Address) -> (r:
    bool)
    requires
        program_id.wf(),
    ensures
        r == (derived_address(seeds.deep_view(), program_id@) == Some(expected@)),
{
    match create_program_address(seeds, program_id) {
        Some(a) => a.equals(expected),
        None => false,
    }
}

} // verus!
