//! Program-derived addresses, as computed by the host platform's libraries.
use vstd::prelude::*;
use vstd::utf8::encode_utf8;

verus! {

/// The program address derived from `seeds` under `program_id`, or `None`
/// where derivation fails (too many or too long seeds, or a point on the
/// curve).
pub uninterp spec fn program_address(seeds: Seq<Seq<u8>>, program_id: Seq<u8>) -> Option<Seq<u8>>;

/// The first off-curve program address found from `seeds` and a bump seed,
/// with that bump seed, or `None` where there is none.
pub uninterp spec fn found_program_address(seeds: Seq<Seq<u8>>, program_id: Seq<u8>) -> Option<(Seq<u8>, u8)>;

/// The token program (TokenkegQfeZyiNwAJbNbGKPFXCWuBvf9Ss623VQ5DA).
pub const TOKEN_PROGRAM_ID: [u8; 32] = [
    6, 221, 246, 225, 215, 101, 161, 147, 217, 203, 225, 70, 206, 235, 121, 172, 28, 180, 133, 237,
    95, 91, 55, 145, 58, 140, 245, 133, 126, 255, 0, 169,
];

/// The associated token account program
/// (ATokenGPvbdGVxr1b2hvZbsiqW5xWH25efTNsLJA8knL).
pub const ASSOCIATED_TOKEN_PROGRAM_ID: [u8; 32] = [
    140, 151, 37, 143, 78, 36, 137, 241, 187, 61, 16, 41, 20, 142, 13, 131, 11, 90, 19, 153, 218,
    255, 16, 132, 4, 142, 123, 216, 219, 233, 248, 89,
];

/// The token metadata program (metaqbxxUerdq28cj1RbAWkYQm3ybzjb6a8bt518x1s).
pub const TOKEN_METADATA_PROGRAM_ID: [u8; 32] = [
    11, 112, 101, 177, 227, 209, 124, 69, 56, 157, 82, 127, 107, 4, 195, 205, 88, 184, 108, 115,
    26, 160, 253, 181, 73, 182, 209, 188, 3, 248, 41, 70,
];

/// The seed that starts a metadata account's seeds.
pub const METADATA_SEED: &'static str = "metadata";

pub open spec fn found_address(seeds: Seq<Seq<u8>>, program_id: Seq<u8>) -> Option<Seq<u8>> {
    match found_program_address(seeds, program_id) {
        Some((a, _)) => Some(a),
        None => None,
    }
}

/// The associated token account of `wallet` for `mint`: the program address
/// found from the wallet, the token program and the mint under the
/// associated token account program.
pub open spec fn associated_token_address(wallet: Seq<u8>, mint: Seq<u8>) -> Option<Seq<u8>> {
    found_address(seq![wallet, TOKEN_PROGRAM_ID@, mint], ASSOCIATED_TOKEN_PROGRAM_ID@)
}

/// The metadata account of `mint`: the program address found from
/// "metadata", the metadata program and the mint under the metadata program.
pub open spec fn metadata_address(mint: Seq<u8>) -> Option<Seq<u8>> {
    found_address(
        seq![encode_utf8(METADATA_SEED@), TOKEN_METADATA_PROGRAM_ID@, mint],
        TOKEN_METADATA_PROGRAM_ID@,
    )
}

pub open spec fn address_view(a: Option<[u8; 32]>) -> Option<Seq<u8>> {
    match a {
        Some(v) => Some(v@),
        None => None,
    }
}

pub open spec fn found_view(a: Option<([u8; 32], u8)>) -> Option<(Seq<u8>, u8)> {
    match a {
        Some((v, bump)) => Some((v@, bump)),
        None => None,
    }
}

/// Relies on solana_program::pubkey::Pubkey::create_program_address, which
/// hashes the seeds with the program id and fails on too many or too long
/// seeds or on a result that lies on the curve; the result depends on the
/// arguments alone.
#[verifier::external_body]
pub(crate) fn create_program_address(seeds: &Vec<Vec<u8>>, program_id: &[u8; 32]) -> (r: Option<[u8; 32]>)
    ensures
        address_view(r) == program_address(seeds.deep_view(), program_id@),
{
    let refs: Vec<&[u8]> = seeds.iter().map(|s| s.as_slice()).collect();
    let program = solana_program::pubkey::Pubkey::new_from_array(*program_id);
    solana_program::pubkey::Pubkey::create_program_address(&refs, &program).ok().map(|k| k.to_bytes())
}

/// Relies on solana_program::pubkey::Pubkey::try_find_program_address, which
/// tries bump seeds from 255 down and returns the first address that
/// create_program_address accepts, with its bump seed, or `None`.
#[verifier::external_body]
pub(crate) fn try_find_program_address(seeds: &Vec<Vec<u8>>, program_id: &[u8; 32]) -> (r: Option<([u8; 32], u8)>)
    ensures
        found_view(r) == found_program_address(seeds.deep_view(), program_id@),
{
    let refs: Vec<&[u8]> = seeds.iter().map(|s| s.as_slice()).collect();
    let program = solana_program::pubkey::Pubkey::new_from_array(*program_id);
    solana_program::pubkey::Pubkey::try_find_program_address(&refs, &program).map(|(k, bump)| (k.to_bytes(), bump))
}

fn found_key(seeds: &Vec<Vec<u8>>, program_id: &[u8; 32]) -> (r: Option<[u8; 32]>)
    ensures
        address_view(r) == found_address(seeds.deep_view(), program_id@),
{
    match try_find_program_address(seeds, program_id) {
        Some((a, _)) => Some(a),
        None => None,
    }
}

/// The associated token account of `wallet` for `mint`, if one is found.
pub fn associated_token_account(wallet: &[u8; 32], mint: &[u8; 32]) -> (r: Option<[u8; 32]>)
    ensures
        address_view(r) == associated_token_address(wallet@, mint@),
{
    let seeds = seed_triple(wallet.as_slice(), &TOKEN_PROGRAM_ID, mint);
    found_key(&seeds, &ASSOCIATED_TOKEN_PROGRAM_ID)
}

/// The metadata account of `mint`, if one is found.
pub fn metadata_account(mint: &[u8; 32]) -> (r: Option<[u8; 32]>)
    ensures
        address_view(r) == metadata_address(mint@),
{
    let seeds = seed_triple(METADATA_SEED.as_bytes(), &TOKEN_METADATA_PROGRAM_ID, mint);
    found_key(&seeds, &TOKEN_METADATA_PROGRAM_ID)
}

/// The seed list `[first, second, third]`.
pub fn seed_triple(first: &[u8], second: &[u8; 32], third: &[u8; 32]) -> (r: Vec<Vec<u8>>)
    ensures
        r.deep_view() == seq![first@, second@, third@],
{
    let mut a: Vec<u8> = Vec::new();
    crate::bytes::append_bytes(&mut a, first);
    let mut b: Vec<u8> = Vec::new();
    crate::bytes::append_bytes(&mut b, second.as_slice());
    let mut c: Vec<u8> = Vec::new();
    crate::bytes::append_bytes(&mut c, third.as_slice());
    let mut r: Vec<Vec<u8>> = Vec::new();
    r.push(a);
    r.push(b);
    r.push(c);
    assert(r@[0].deep_view() =~= first@);
    assert(r@[1].deep_view() =~= second@);
    assert(r@[2].deep_view() =~= third@);
    assert(r.deep_view() =~= seq![first@, second@, third@]);
    r
}

/// The seed list that holds one 32-byte seed.
pub fn single_seed(seed: &[u8; 32]) -> (r: Vec<Vec<u8>>)
    ensures
        r.deep_view() == seq![seed@],
{
    let mut s: Vec<u8> = Vec::new();
    crate::bytes::append_bytes(&mut s, seed.as_slice());
    let mut r: Vec<Vec<u8>> = Vec::new();
    r.push(s);
    assert(r@[0].deep_view() =~= seed@);
    assert(r.deep_view() =~= seq![seed@]);
    r
}

/// The seed list `[first, second]`.
pub fn seed_pair(first: &[u8], second: &[u8; 32]) -> (r: Vec<Vec<u8>>)
    ensures
        r.deep_view() == seq![first@, second@],
{
    let mut a: Vec<u8> = Vec::new();
    crate::bytes::append_bytes(&mut a, first);
    let mut b: Vec<u8> = Vec::new();
    crate::bytes::append_bytes(&mut b, second.as_slice());
    let mut r: Vec<Vec<u8>> = Vec::new();
    r.push(a);
    r.push(b);
    assert(r@[0].deep_view() =~= first@);
    assert(r@[1].deep_view() =~= second@);
    assert(r.deep_view() =~= seq![first@, second@]);
    r
}

} // verus!
