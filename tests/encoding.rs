use bridge::bytes::{amount_bytes, be_ge, read_u64_le};
use bridge::commission::decode_charge_commission;
use bridge::error::{BridgeError, ErrorKind};
use bridge::merkle::get_merkle_root;
use bridge::merkle_node::{ContentNode, Operation, TransferOperation};
use bridge::state::{AdminRecord, TokenType, WithdrawRecord};
use solana_program::keccak;

fn hash(bytes: &[u8]) -> [u8; 32] {
    keccak::hash(bytes).to_bytes()
}

fn pair(a: &[u8; 32], b: &[u8; 32]) -> [u8; 32] {
    let mut v = Vec::new();
    if a >= b {
        v.extend_from_slice(a);
        v.extend_from_slice(b);
    } else {
        v.extend_from_slice(b);
        v.extend_from_slice(a);
    }
    hash(&v)
}

#[test]
fn amount_bytes_is_big_endian_in_32_bytes() {
    let r = amount_bytes(0x0102_0304_0506_0708);
    let mut expected = [0u8; 32];
    expected[24..].copy_from_slice(&[1, 2, 3, 4, 5, 6, 7, 8]);
    assert_eq!(r, expected);
    assert_eq!(amount_bytes(0), [0u8; 32]);
    let mut max = [0u8; 32];
    max[24..].copy_from_slice(&[0xff; 8]);
    assert_eq!(amount_bytes(u64::MAX), max);
}

#[test]
fn be_ge_compares_as_big_endian_integers() {
    let mut a = [0u8; 32];
    let mut b = [0u8; 32];
    a[0] = 1;
    b[31] = 0xff;
    assert!(be_ge(&a, &b));
    assert!(!be_ge(&b, &a));
    assert!(be_ge(&a, &a));
}

#[test]
fn read_u64_le_reads_little_endian() {
    let v = vec![9u8, 0x08, 0x07, 0x06, 0x05, 0x04, 0x03, 0x02, 0x01];
    assert_eq!(read_u64_le(&v, 1), 0x0102_0304_0506_0708);
}

#[test]
fn empty_merkle_path_is_malformed() {
    let leaf = [3u8; 32];
    assert_eq!(get_merkle_root(&leaf, &Vec::new()), Err(BridgeError::MalformedProof));
    assert_eq!(BridgeError::MalformedProof.kind(), ErrorKind::Data);
}

#[test]
fn merkle_root_hashes_sorted_pairs() {
    let leaf = [3u8; 32];
    let low = [1u8; 32];
    let high = [9u8; 32];
    let path = vec![low, high];
    let first = pair(&leaf, &low);
    let expected = pair(&first, &high);
    assert_eq!(get_merkle_root(&leaf, &path), Ok(expected));
    let mut by_hand = Vec::new();
    by_hand.extend_from_slice(&leaf);
    by_hand.extend_from_slice(&low);
    assert_eq!(first, hash(&by_hand));
}

#[test]
fn merkle_root_ignores_sibling_side() {
    let a = [0x42u8; 32];
    let b = [0x17u8; 32];
    let from_a = get_merkle_root(&a, &vec![b]).unwrap();
    let from_b = get_merkle_root(&b, &vec![a]).unwrap();
    assert_eq!(from_a, from_b);
    let same = get_merkle_root(&a, &vec![a]).unwrap();
    let mut v = a.to_vec();
    v.extend_from_slice(&a);
    assert_eq!(same, hash(&v));
}

#[test]
fn native_operation_bytes() {
    let op = TransferOperation::new_native_transfer(100);
    let mut expected = vec![0u8; 32];
    expected.extend_from_slice(&amount_bytes(100));
    assert_eq!(op.get_operation(), expected);
    assert_eq!(op.get_operation().len(), 64);
}

#[test]
fn fungible_operation_bytes() {
    let mint = [5u8; 32];
    let op = TransferOperation::new_ft_transfer(mint, 7, "Tok".to_string(), "TK".to_string(), "u://x".to_string(), 9);
    let mut expected = mint.to_vec();
    expected.extend_from_slice(&amount_bytes(7));
    expected.extend_from_slice(b"TokTKu://x");
    assert_eq!(op.get_operation(), expected);
}

#[test]
fn non_fungible_operation_bytes() {
    let mint = [5u8; 32];
    let collection = [6u8; 32];
    let op = TransferOperation::new_nft_transfer(mint, Some(collection), "N".to_string(), "S".to_string(), "U".to_string());
    let mut expected = mint.to_vec();
    expected.extend_from_slice(&collection);
    expected.extend_from_slice(&amount_bytes(1));
    expected.extend_from_slice(b"NSU");
    assert_eq!(op.get_operation(), expected);

    let op = TransferOperation::new_nft_transfer(mint, None, "N".to_string(), "S".to_string(), "U".to_string());
    let mut expected = mint.to_vec();
    expected.extend_from_slice(&[0u8; 32]);
    expected.extend_from_slice(&amount_bytes(1));
    expected.extend_from_slice(b"NSU");
    assert_eq!(op.get_operation(), expected);
}

#[test]
fn content_node_hash_covers_all_fields() {
    let origin = [1u8; 32];
    let receiver = [2u8; 32];
    let program = [3u8; 32];
    let data = vec![4u8, 5, 6];
    let node = ContentNode::new(origin, receiver, program, data.clone());
    assert_eq!(node.network_to, "Solana");
    let mut bytes = origin.to_vec();
    bytes.extend_from_slice(b"Solana");
    bytes.extend_from_slice(&receiver);
    bytes.extend_from_slice(&program);
    bytes.extend_from_slice(&data);
    assert_eq!(node.hash(), hash(&bytes));
    let other = ContentNode::new([9u8; 32], receiver, program, data);
    assert_ne!(other.hash(), node.hash());
}

#[test]
fn decode_charge_commission_message() {
    let mut data = vec![1u8, 0];
    data.extend_from_slice(&100u64.to_le_bytes());
    assert_eq!(decode_charge_commission(&data), Some((TokenType::Native, 100)));
    data[1] = 2;
    assert_eq!(decode_charge_commission(&data), Some((TokenType::NFT, 100)));
    data[1] = 3;
    assert_eq!(decode_charge_commission(&data), None);
    data[1] = 1;
    data[0] = 0;
    assert_eq!(decode_charge_commission(&data), None);
    assert_eq!(decode_charge_commission(&vec![1u8, 0, 1]), None);
}

#[test]
fn error_kinds() {
    assert_eq!(BridgeError::AlreadyInUse.kind(), ErrorKind::State);
    assert_eq!(BridgeError::NotInitialized.kind(), ErrorKind::State);
    assert_eq!(BridgeError::WrongSeeds.kind(), ErrorKind::Config);
    assert_eq!(BridgeError::WrongSignature.kind(), ErrorKind::Auth);
    assert_eq!(BridgeError::WrongCommissionArguments.kind(), ErrorKind::Auth);
    assert_eq!(BridgeError::WrongBalance.kind(), ErrorKind::Resource);
}

#[test]
fn admin_record_layout_round_trips() {
    let a = AdminRecord { is_initialized: true, public_key: [4u8; 64], commission_program: [9u8; 32] };
    let bytes = a.pack();
    assert_eq!(bytes.len(), 97);
    assert_eq!(bytes[0], 1);
    assert_eq!(&bytes[1..65], &[4u8; 64][..]);
    assert_eq!(&bytes[65..97], &[9u8; 32][..]);
    let back = AdminRecord::unpack(&bytes).unwrap();
    assert_eq!(back.public_key, a.public_key);
    assert_eq!(back.commission_program, a.commission_program);
    assert!(back.is_initialized);
    assert!(!AdminRecord::unpack(&[0u8; 97]).unwrap().is_initialized);
    assert_eq!(AdminRecord::unpack(&bytes[..96]).unwrap_err(), BridgeError::InvalidRecord);
    let mut bad = bytes.clone();
    bad[0] = 2;
    assert_eq!(AdminRecord::unpack(&bad).unwrap_err(), BridgeError::InvalidRecord);
}

#[test]
fn withdraw_record_layout_round_trips() {
    let w = WithdrawRecord {
        is_initialized: true,
        token_type: TokenType::FT,
        origin: [2u8; 32],
        mint: Some([3u8; 32]),
        amount: 0x0102,
        receiver_address: [5u8; 32],
    };
    let bytes = w.pack();
    assert_eq!(bytes.len(), 107);
    assert_eq!(&bytes[..2], &[1u8, 1][..]);
    assert_eq!(bytes[34], 1);
    assert_eq!(&bytes[67..75], &[2u8, 1, 0, 0, 0, 0, 0, 0][..]);
    let back = WithdrawRecord::unpack(&bytes).unwrap();
    assert_eq!(back.mint, w.mint);
    assert_eq!(back.amount, w.amount);
    assert_eq!(back.receiver_address, w.receiver_address);
    assert_eq!(back.token_type, TokenType::FT);

    let native = WithdrawRecord { token_type: TokenType::Native, mint: None, ..w };
    let mut stored = native.pack();
    assert_eq!(stored.len(), 75);
    stored.resize(107, 0);
    let back = WithdrawRecord::unpack(&stored).unwrap();
    assert_eq!(back.mint, None);
    assert_eq!(back.amount, 0x0102);
    assert_eq!(back.origin, [2u8; 32]);
    assert_eq!(WithdrawRecord::unpack(&stored[..74]).unwrap_err(), BridgeError::InvalidRecord);
}
