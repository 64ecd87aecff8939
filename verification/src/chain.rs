//! The calls that the bank makes into the Solana libraries.

use vstd::prelude::*;

use crate::key::Pubkey;

verus! {

/// The address and bump seed that the Solana program-address search finds
/// for `seeds` under `program_id`, if the search finds one.
pub uninterp spec fn program_address_search(seeds: Seq<Seq<u8>>, program_id: Seq<u8>) -> Option<
    (Seq<u8>, u8),
>;

/// The bytes of the native SOL mint, `So11111111111111111111111111111111111111112`.
pub open spec fn native_mint_bytes() -> Seq<u8> {
    seq![6u8, 155, 136, 87, 254, 171, 129, 132, 251, 104, 127, 99, 70, 24, 192, 53, 218, 196, 57, 220, 26, 235, 59, 85, 152, 160, 240, 0, 0, 0, 0, 1]
}

/// Calls `Pubkey::try_find_program_address` (solana-pubkey, re-exported by
/// `anchor_lang`). Claimed: it returns the address and bump that
/// `program_address_search` names for the seeds and the program id, and
/// nothing exactly when that search finds none (which the function reports
/// for too many or too long seeds, and when no bump seed gives an address
/// off the curve). The function does not panic.
#[verifier::external_body]
pub(crate) fn try_find_program_address(seeds: &Vec<Vec<u8>>, program_id: &Pubkey) -> (found: Option<
    (Pubkey, u8),
>)
    ensures
        match found {
            Some((address, bump)) => program_address_search(seeds.deep_view(), program_id@) == Some(
                (address@, bump),
            ),
            None => program_address_search(seeds.deep_view(), program_id@) is None,
        },
{
    let refs: Vec<&[u8]> = seeds.iter().map(|s| s.as_slice()).collect();
    let id = anchor_lang::prelude::Pubkey::new_from_array(program_id.bytes);
    match anchor_lang::prelude::Pubkey::try_find_program_address(&refs, &id) {
        Some((address, bump)) => Some((Pubkey { bytes: address.to_bytes() }, bump)),
        None => None,
    }
}

/// Reads `spl_token::native_mint::ID` (through `anchor_spl`). Claimed: its
/// bytes are the base-58 decoding of the id the crate declares.
#[verifier::external_body]
pub(crate) fn native_mint_id() -> (id: Pubkey)
    ensures
        id@ == native_mint_bytes(),
{
    Pubkey { bytes: anchor_spl::token::spl_token::native_mint::ID.to_bytes() }
}

} // verus!
