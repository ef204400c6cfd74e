//! Hashing and public-key recovery, as computed by the host platform's library.
use vstd::prelude::*;

verus! {

/// The keccak-256 digest of a byte string.
pub uninterp spec fn keccak_of(data: Seq<u8>) -> Seq<u8>;

/// The uncompressed 64-byte secp256k1 public key recovered from a signature
/// over a 32-byte message, or `None` where recovery fails.
pub uninterp spec fn secp256k1_recovered(message: Seq<u8>, recovery_id: u8, signature: Seq<u8>) -> Option<Seq<u8>>;

pub open spec fn key_view(k: Option<[u8; 64]>) -> Option<Seq<u8>> {
    match k {
        Some(v) => Some(v@),
        None => None,
    }
}

/// Relies on solana_program::keccak::hash, which returns the keccak-256
/// digest of `data`; the digest depends on the bytes alone.
#[verifier::external_body]
pub(crate) fn keccak(data: &[u8]) -> (r: [u8; 32])
    ensures
        r@ == keccak_of(data@),
{
    solana_program::keccak::hash(data).to_bytes()
}

/// Relies on solana_program::secp256k1_recover::secp256k1_recover, which
/// recovers the signer's public key from a 64-byte compact signature and a
/// recovery id over a 32-byte message. It fails for a recovery id above 3
/// (libsecp256k1's RecoveryId::parse), for an overflowing signature and for
/// a point that is not on the curve.
#[verifier::external_body]
pub(crate) fn recover_key(message: &[u8; 32], recovery_id: u8, signature: &[u8; 64]) -> (r: Option<[u8; 64]>)
    ensures
        key_view(r) == secp256k1_recovered(message@, recovery_id, signature@),
        recovery_id > 3 ==> r is None,
{
    match solana_program::secp256k1_recover::secp256k1_recover(message, recovery_id, signature) {
        Ok(key) => Some(key.to_bytes()),
        Err(_) => None,
    }
}

} // verus!
