use bridge::ecdsa::verify_ecdsa_signature;
use bridge::error::BridgeError;
use libsecp256k1::{Message, PublicKey, SecretKey};

fn keypair(seed: u8) -> (SecretKey, [u8; 64]) {
    let sk = SecretKey::parse(&[seed; 32]).unwrap();
    let full = PublicKey::from_secret_key(&sk).serialize();
    let mut key = [0u8; 64];
    key.copy_from_slice(&full[1..65]);
    (sk, key)
}

fn sign(sk: &SecretKey, message: &[u8; 32]) -> ([u8; 64], u8) {
    let (sig, rid) = libsecp256k1::sign(&Message::parse(message), sk);
    (sig.serialize(), rid.serialize())
}

#[test]
fn signature_by_the_key_verifies() {
    let (sk, key) = keypair(11);
    let message = [0x5au8; 32];
    let (sig, rid) = sign(&sk, &message);
    assert_eq!(verify_ecdsa_signature(&message, &sig, rid, &key), Ok(()));
}

#[test]
fn flipped_message_bit_fails() {
    let (sk, key) = keypair(11);
    let message = [0x5au8; 32];
    let (sig, rid) = sign(&sk, &message);
    for i in [0usize, 13, 31] {
        let mut m = message;
        m[i] ^= 1;
        assert!(verify_ecdsa_signature(&m, &sig, rid, &key).is_err());
    }
}

#[test]
fn flipped_signature_bit_fails() {
    let (sk, key) = keypair(11);
    let message = [0x5au8; 32];
    let (sig, rid) = sign(&sk, &message);
    for i in [0usize, 31, 32, 63] {
        let mut s = sig;
        s[i] ^= 0x10;
        assert!(verify_ecdsa_signature(&message, &s, rid, &key).is_err());
    }
}

#[test]
fn other_key_is_wrong_signature() {
    let (sk, _) = keypair(11);
    let (_, other) = keypair(12);
    let message = [0x5au8; 32];
    let (sig, rid) = sign(&sk, &message);
    assert_eq!(verify_ecdsa_signature(&message, &sig, rid, &other), Err(BridgeError::WrongSignature));
}

#[test]
fn bad_recovery_id_is_invalid_signature() {
    let (sk, key) = keypair(11);
    let message = [0x5au8; 32];
    let (sig, _) = sign(&sk, &message);
    assert_eq!(verify_ecdsa_signature(&message, &sig, 4, &key), Err(BridgeError::InvalidSignature));
    assert_eq!(verify_ecdsa_signature(&message, &[0u8; 64], 0, &key), Err(BridgeError::InvalidSignature));
}
