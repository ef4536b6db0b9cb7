//! Program-derived addresses: the capabilities by which a program proves that
//! it, and nobody else, stands behind an address.

use vstd::prelude::*;
use vstd::slice::slice_to_vec;
use anchor_lang::prelude::Pubkey;
use crate::address::Address;

verus! {

/// The address that a program derives from a list of seeds, with the bump
/// seed that completes the list; `None` where the seeds yield no address.
pub uninterp spec fn program_address(seeds: Seq<Seq<u8>>, program_id: Seq<u8>) -> Option<
    (Seq<u8>, u8),
>;

/// A derived address and its bump seed as mathematics.
pub open spec fn derived_view(found: Option<(Address, u8)>) -> Option<(Seq<u8>, u8)> {
    match found {
        Some((address, bump)) => Some((address@, bump)),
        None => None,
    }
}

/// Derives the address of `program_id` for `seeds`.
///
/// This calls `Pubkey::try_find_program_address` of the Solana program
/// library, which hashes the seeds, a bump seed and the program's identity,
/// and tries bump seeds from 255 down until the hash is no point of the
/// curve. The contract claims one thing of it: that the address and bump seed
/// it returns are a function of the seeds and the program's identity alone.
/// It returns `None`, and does not panic, for more than 15 seeds, for a seed
/// of more than 32 bytes, or where no bump seed fits.
#[verifier::external_body]
pub(crate) fn try_find_program_address(seeds: &Vec<Vec<u8>>, program_id: &Address) -> (found:
    Option<(Address, u8)>)
    ensures
        derived_view(found) == program_address(seeds.deep_view(), program_id@),
{
    let parts: Vec<&[u8]> = seeds.iter().map(|seed| seed.as_slice()).collect();
    match Pubkey::try_find_program_address(&parts, &Pubkey::new_from_array(program_id.bytes)) {
        Some((address, bump)) => Some((Address { bytes: address.to_bytes() }, bump)),
        None => None,
    }
}

/// The tag of the address by which a relay program signs its deliveries:
/// the text `external_execution_config`.
pub const EXTERNAL_EXECUTION_CONFIG_SEED: [u8; 25] = [
    101, 120, 116, 101, 114, 110, 97, 108, 95, 101, 120, 101, 99, 117, 116, 105, 111, 110, 95, 99,
    111, 110, 102, 105, 103,
];

/// The tag of a router's allow-list entries: the text `allowed_offramp`.
pub const ALLOWED_OFFRAMP_SEED: [u8; 15] = [
    97, 108, 108, 111, 119, 101, 100, 95, 111, 102, 102, 114, 97, 109, 112,
];

/// The eight bytes that spell `value`, least significant byte first.
pub open spec fn le_bytes(value: u64) -> Seq<u8> {
    seq![
        (value % 256) as u8,
        (value / 0x0000_0000_0000_0100 % 256) as u8,
        (value / 0x0000_0000_0001_0000 % 256) as u8,
        (value / 0x0000_0000_0100_0000 % 256) as u8,
        (value / 0x0000_0001_0000_0000 % 256) as u8,
        (value / 0x0000_0100_0000_0000 % 256) as u8,
        (value / 0x0001_0000_0000_0000 % 256) as u8,
        (value / 0x0100_0000_0000_0000) as u8,
    ]
}

/// Spells `value` in eight bytes, least significant byte first.
pub fn to_le_bytes(value: u64) -> (bytes: Vec<u8>)
    ensures
        bytes@ == le_bytes(value),
{
    let mut bytes: Vec<u8> = Vec::new();
    bytes.push((value % 256) as u8);
    bytes.push((value / 0x0000_0000_0000_0100 % 256) as u8);
    bytes.push((value / 0x0000_0000_0001_0000 % 256) as u8);
    bytes.push((value / 0x0000_0000_0100_0000 % 256) as u8);
    bytes.push((value / 0x0000_0001_0000_0000 % 256) as u8);
    bytes.push((value / 0x0000_0100_0000_0000 % 256) as u8);
    bytes.push((value / 0x0001_0000_0000_0000 % 256) as u8);
    bytes.push((value / 0x0100_0000_0000_0000) as u8);
    assert(bytes@ =~= le_bytes(value));
    bytes
}

/// The seeds of the address by which a relay program signs its deliveries to
/// the program `program_id`.
pub open spec fn execution_seeds(program_id: Seq<u8>) -> Seq<Seq<u8>> {
    seq![EXTERNAL_EXECUTION_CONFIG_SEED@, program_id]
}

/// The seeds of a router's allow-list entry for the relay program `offramp`
/// and the source chain `source_chain_selector`.
pub open spec fn allow_list_seeds(source_chain_selector: u64, offramp: Seq<u8>) -> Seq<Seq<u8>> {
    seq![ALLOWED_OFFRAMP_SEED@, le_bytes(source_chain_selector), offramp]
}

/// The address by which the relay program `offramp` signs its deliveries to
/// the program `program_id`.
pub fn relay_signer_address(program_id: &Address, offramp: &Address) -> (found: Option<
    (Address, u8),
>)
    ensures
        derived_view(found) == program_address(execution_seeds(program_id@), offramp@),
{
    let mut seeds: Vec<Vec<u8>> = Vec::new();
    seeds.push(slice_to_vec(EXTERNAL_EXECUTION_CONFIG_SEED.as_slice()));
    seeds.push(slice_to_vec(program_id.bytes.as_slice()));
    assert(seeds.deep_view() =~~= execution_seeds(program_id@));
    try_find_program_address(&seeds, offramp)
}

/// The address of the allow-list entry of `router` for the relay program
/// `offramp` and the source chain `source_chain_selector`.
pub fn allow_list_address(
    source_chain_selector: u64,
    offramp: &Address,
    router: &Address,
) -> (found: Option<(Address, u8)>)
    ensures
        derived_view(found) == program_address(
            allow_list_seeds(source_chain_selector, offramp@),
            router@,
        ),
{
    let mut seeds: Vec<Vec<u8>> = Vec::new();
    seeds.push(slice_to_vec(ALLOWED_OFFRAMP_SEED.as_slice()));
    seeds.push(to_le_bytes(source_chain_selector));
    seeds.push(slice_to_vec(offramp.bytes.as_slice()));
    assert(seeds.deep_view() =~~= allow_list_seeds(source_chain_selector, offramp@));
    try_find_program_address(&seeds, router)
}

} // verus!
