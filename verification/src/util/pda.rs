use vstd::prelude::*;
use crate::util::pubkey::Pubkey;

verus! {

/// The address that `seeds` derive under `program_id`, where they derive one: a name for
/// what `Pubkey::create_program_address` of the Solana SDK returns (`None` for its errors).
pub uninterp spec fn program_address(seeds: Seq<Seq<u8>>, program_id: Seq<u8>) -> Option<Seq<u8>>;

/// The address and bump seed that a search from `seeds` under `program_id` ends on: a name
/// for what `Pubkey::try_find_program_address` of the Solana SDK returns.
pub uninterp spec fn found_program_address(seeds: Seq<Seq<u8>>, program_id: Seq<u8>) -> Option<
    (Seq<u8>, u8),
>;

/// The seeds `seeds` followed by the one-byte seed `bump`.
pub open spec fn with_bump(seeds: Seq<Seq<u8>>, bump: u8) -> Seq<Seq<u8>> {
    seeds.push(seq![bump])
}

/// Calls `Pubkey::create_program_address`: the result is the named address of the seeds
/// and the program, and `None` where the SDK reports an error (a seed too long, too many
/// seeds, or seeds whose hash lies on the curve).
#[verifier::external_body]
pub(crate) fn create_program_address(seeds: &Vec<Vec<u8>>, program_id: &Pubkey) -> (r: Option<
    Pubkey,
>)
    ensures
        r matches Some(key) ==> program_address(seeds.deep_view(), program_id@) == Some(key@),
        r is None ==> program_address(seeds.deep_view(), program_id@) is None,
{
    let parts: Vec<&[u8]> = seeds.iter().map(|s| s.as_slice()).collect();
    let program = anchor_lang::prelude::Pubkey::new_from_array(program_id.bytes);
    match anchor_lang::prelude::Pubkey::create_program_address(&parts, &program) {
        Ok(key) => Some(Pubkey { bytes: key.to_bytes() }),
        Err(_) => None,
    }
}

/// Calls `Pubkey::try_find_program_address`: the result is the named outcome of the
/// search, and an address that it finds is the one that the seeds, followed by the bump
/// seed it returns, derive directly.
#[verifier::external_body]
pub(crate) fn try_find_program_address(seeds: &Vec<Vec<u8>>, program_id: &Pubkey) -> (r: Option<
    (Pubkey, u8),
>)
    ensures
        r matches Some((key, bump)) ==> found_program_address(seeds.deep_view(), program_id@)
            == Some((key@, bump)) && program_address(
            with_bump(seeds.deep_view(), bump),
            program_id@,
        ) == Some(key@),
        r is None ==> found_program_address(seeds.deep_view(), program_id@) is None,
{
    let parts: Vec<&[u8]> = seeds.iter().map(|s| s.as_slice()).collect();
    let program = anchor_lang::prelude::Pubkey::new_from_array(program_id.bytes);
    match anchor_lang::prelude::Pubkey::try_find_program_address(&parts, &program) {
        Some((key, bump)) => Some((Pubkey { bytes: key.to_bytes() }, bump)),
        None => None,
    }
}

} // verus!
