//! Checking a secp256k1 signature against the trusted authority key.
use vstd::prelude::*;
use crate::bytes::key_eq;
use crate::crypto::{key_view, recover_key, secp256k1_recovered};
use crate::error::BridgeError;

verus! {

/// The outcome of checking a recovered key (or a failed recovery) against
/// the expected key.
pub open spec fn recovered_key_check(recovered: Option<Seq<u8>>, target_key: Seq<u8>) -> Result<(), BridgeError> {
    match recovered {
        None => Err(BridgeError::InvalidSignature),
        Some(k) => if k == target_key {
            Ok(())
        } else {
            Err(BridgeError::WrongSignature)
        },
    }
}

/// The outcome of checking `signature` over `message` against `target_key`.
pub open spec fn signature_check(message: Seq<u8>, signature: Seq<u8>, recovery_id: u8, target_key: Seq<u8>) -> Result<(), BridgeError> {
    recovered_key_check(secp256k1_recovered(message, recovery_id, signature), target_key)
}

/// Compares the result of key recovery with the expected key: a failed
/// recovery is `InvalidSignature`, another key is `WrongSignature`.
pub fn check_recovered_key(recovered: Option<[u8; 64]>, target_key: &[u8; 64]) -> (r: Result<(), BridgeError>)
    ensures
        r == recovered_key_check(key_view(recovered), target_key@),
{
    match recovered {
        None => Err(BridgeError::InvalidSignature),
        Some(k) => if key_eq(&k, target_key) {
            Ok(())
        } else {
            Err(BridgeError::WrongSignature)
        },
    }
}

/// Recovers the signer of `hash` from `signature` and `recovery_id` and
/// requires it to be `target_key`.
pub fn verify_ecdsa_signature(hash: &[u8; 32], signature: &[u8; 64], recovery_id: u8, target_key: &[u8; 64]) -> (r: Result<(), BridgeError>)
    ensures
        r == signature_check(hash@, signature@, recovery_id, target_key@),
        recovery_id > 3 ==> r == Err::<(), BridgeError>(BridgeError::InvalidSignature),
{
    let recovered = recover_key(hash, recovery_id, signature);
    check_recovered_key(recovered, target_key)
}

} // verus!
