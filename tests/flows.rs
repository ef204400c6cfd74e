use bridge::bytes::amount_bytes;
use bridge::commission::PrecedingOperation;
use bridge::error::{BridgeError, ErrorKind};
use bridge::instruction::{DepositArgs, MintArgs, WithdrawArgs};
use bridge::metadata::{CollectionMetadata, SignedMetadata, TokenMetadata};
use bridge::processor::Bridge;
use bridge::state::TokenType;
use bridge::token_flow::DepositAction;
use libsecp256k1::{Message, PublicKey, SecretKey};
use solana_program::keccak;
use solana_program::pubkey::Pubkey;

const PROGRAM: [u8; 32] = [7u8; 32];

fn hash(bytes: &[u8]) -> [u8; 32] {
    keccak::hash(bytes).to_bytes()
}

fn keypair(seed: u8) -> (SecretKey, [u8; 64]) {
    let sk = SecretKey::parse(&[seed; 32]).unwrap();
    let full = PublicKey::from_secret_key(&sk).serialize();
    let mut key = [0u8; 64];
    key.copy_from_slice(&full[1..65]);
    (sk, key)
}

fn sign(sk: &SecretKey, message: &[u8; 32]) -> ([u8; 64], u8) {
    let (sig, rid) = libsecp256k1::sign(&Message::parse(message), sk);
    (sig.serialize(), rid.serialize())
}

fn admin_seeds() -> ([u8; 32], [u8; 32]) {
    for b in 0..=255u8 {
        let seeds = [b; 32];
        if let Ok(k) = Pubkey::create_program_address(&[&seeds], &Pubkey::new_from_array(PROGRAM)) {
            return (seeds, k.to_bytes());
        }
    }
    panic!("no admin seeds");
}

fn commission_program(admin: &[u8; 32]) -> ([u8; 32], [u8; 32]) {
    for b in 0..=255u8 {
        let c = [b; 32];
        if let Ok(k) = Pubkey::create_program_address(&[b"commission_admin", admin], &Pubkey::new_from_array(c)) {
            return (c, k.to_bytes());
        }
    }
    panic!("no commission program");
}

fn withdraw_address(origin: &[u8; 32]) -> [u8; 32] {
    Pubkey::find_program_address(&[origin], &Pubkey::new_from_array(PROGRAM)).0.to_bytes()
}

fn charge(program: [u8; 32], account: [u8; 32], kind: u8, amount: u64) -> PrecedingOperation {
    let mut data = vec![1u8, kind];
    data.extend_from_slice(&amount.to_le_bytes());
    PrecedingOperation { program_id: program, accounts: vec![account], data }
}

fn leaf(origin: &[u8; 32], receiver: &[u8; 32], payload: &[u8]) -> [u8; 32] {
    let mut bytes = origin.to_vec();
    bytes.extend_from_slice(b"Solana");
    bytes.extend_from_slice(receiver);
    bytes.extend_from_slice(&PROGRAM);
    bytes.extend_from_slice(payload);
    hash(&bytes)
}

fn native_payload(amount: u64) -> Vec<u8> {
    let mut p = vec![0u8; 32];
    p.extend_from_slice(&amount_bytes(amount));
    p
}

fn root(leaf: &[u8; 32], sibling: &[u8; 32]) -> [u8; 32] {
    let mut v = Vec::new();
    if sibling >= leaf {
        v.extend_from_slice(sibling);
        v.extend_from_slice(leaf);
    } else {
        v.extend_from_slice(leaf);
        v.extend_from_slice(sibling);
    }
    hash(&v)
}

struct Setup {
    bridge: Bridge,
    seeds: [u8; 32],
    admin: [u8; 32],
    commission: [u8; 32],
    commission_account: [u8; 32],
    sk: SecretKey,
}

fn setup() -> Setup {
    let (seeds, admin) = admin_seeds();
    let (commission, commission_account) = commission_program(&admin);
    let (sk, key) = keypair(21);
    let mut bridge = Bridge::new(PROGRAM);
    assert_eq!(bridge.process_init_admin(&seeds, &admin, key, commission), Ok(()));
    Setup { bridge, seeds, admin, commission, commission_account, sk }
}

#[test]
fn init_admin_once() {
    let mut s = setup();
    let (_, other) = keypair(22);
    assert!(s.bridge.admin.is_initialized);
    assert_eq!(s.bridge.admin.commission_program, s.commission);
    assert_eq!(s.bridge.process_init_admin(&s.seeds, &s.admin, other, s.commission), Err(BridgeError::AlreadyInUse));
    assert_eq!(s.bridge.process_init_admin(&s.seeds, &[0u8; 32], other, s.commission), Err(BridgeError::WrongSeeds));
    assert_ne!(s.bridge.admin.public_key, other);
}

#[test]
fn uninitialized_bridge_refuses_requests() {
    let (seeds, admin) = admin_seeds();
    let bridge = Bridge::new(PROGRAM);
    assert_eq!(bridge.process_deposit_native(&seeds, &admin, &None, 5), Err(BridgeError::NotInitialized));
}

#[test]
fn key_rotation_needs_the_current_key() {
    let mut s = setup();
    let (sk2, k2) = keypair(33);
    let message = hash(&k2);
    let (self_sig, self_rid) = sign(&sk2, &message);
    assert_eq!(
        s.bridge.process_transfer_ownership(&s.seeds, &s.admin, k2, &self_sig, self_rid),
        Err(BridgeError::WrongSignature)
    );
    let (sig, rid) = sign(&s.sk, &message);
    assert_eq!(s.bridge.process_transfer_ownership(&s.seeds, &s.admin, k2, &sig, rid), Ok(()));
    assert_eq!(s.bridge.admin.public_key, k2);
    assert_eq!(s.bridge.admin.commission_program, s.commission);
    let (_, k3) = keypair(44);
    let (old_sig, old_rid) = sign(&s.sk, &hash(&k3));
    assert_eq!(
        s.bridge.process_transfer_ownership(&s.seeds, &s.admin, k3, &old_sig, old_rid),
        Err(BridgeError::WrongSignature)
    );
}

#[test]
fn commission_must_match_the_deposit() {
    let s = setup();
    let b = &s.bridge;
    assert_eq!(b.process_deposit_native(&s.seeds, &s.admin, &None, 100), Err(BridgeError::NoCommission));
    let wrong_program = charge([0xeeu8; 32], s.commission_account, 0, 100);
    assert_eq!(
        b.process_deposit_native(&s.seeds, &s.admin, &Some(wrong_program), 100),
        Err(BridgeError::WrongCommissionProgram)
    );
    let wrong_account = charge(s.commission, [1u8; 32], 0, 100);
    assert_eq!(
        b.process_deposit_native(&s.seeds, &s.admin, &Some(wrong_account), 100),
        Err(BridgeError::WrongCommissionAccount)
    );
    let wrong_amount = charge(s.commission, s.commission_account, 0, 99);
    assert_eq!(
        b.process_deposit_native(&s.seeds, &s.admin, &Some(wrong_amount), 100),
        Err(BridgeError::WrongCommissionArguments)
    );
    let wrong_kind = charge(s.commission, s.commission_account, 1, 100);
    assert_eq!(
        b.process_deposit_native(&s.seeds, &s.admin, &Some(wrong_kind), 100),
        Err(BridgeError::WrongCommissionArguments)
    );
    let good = charge(s.commission, s.commission_account, 0, 100);
    assert_eq!(b.process_deposit_native(&s.seeds, &s.admin, &Some(good), 100), Ok(()));
}

#[test]
fn end_to_end_deposit_and_single_withdrawal() {
    let mut s = setup();
    let none = s.bridge.process_deposit_native(&s.seeds, &s.admin, &None, 100);
    assert_eq!(none.unwrap_err().kind(), ErrorKind::Auth);
    let good = charge(s.commission, s.commission_account, 0, 100);
    assert_eq!(s.bridge.process_deposit_native(&s.seeds, &s.admin, &Some(good), 100), Ok(()));

    let origin = [0x0au8; 32];
    let receiver = [0x0bu8; 32];
    let w = withdraw_address(&origin);
    let l = leaf(&origin, &receiver, &native_payload(100));
    let sibling = [0x33u8; 32];
    let r = root(&l, &sibling);
    let (sig, rid) = sign(&s.sk, &r);
    let path = vec![sibling];
    assert_eq!(
        s.bridge.process_withdraw_native(&s.seeds, &s.admin, &receiver, &w, &origin, 100, &path, &sig, rid, 1000),
        Ok(())
    );
    assert_eq!(s.bridge.withdrawals.len(), 1);
    let rec = s.bridge.withdrawals[0].record;
    assert!(rec.is_initialized);
    assert_eq!(rec.token_type, TokenType::Native);
    assert_eq!(rec.origin, origin);
    assert_eq!(rec.mint, None);
    assert_eq!(rec.amount, 100);
    assert_eq!(rec.receiver_address, receiver);
    assert_eq!(s.bridge.withdrawals[0].address, w);
    assert_eq!(
        s.bridge.process_withdraw_native(&s.seeds, &s.admin, &receiver, &w, &origin, 100, &path, &sig, rid, 1000),
        Err(BridgeError::AlreadyInUse)
    );
    assert_eq!(
        s.bridge.process_withdraw_native(&s.seeds, &s.admin, &[1u8; 32], &w, &origin, 5, &path, &sig, rid, 1000),
        Err(BridgeError::AlreadyInUse)
    );
    assert_eq!(s.bridge.withdrawals.len(), 1);
}

#[test]
fn withdrawal_failures() {
    let mut s = setup();
    let origin = [0x0cu8; 32];
    let receiver = [0x0du8; 32];
    let w = withdraw_address(&origin);
    let l = leaf(&origin, &receiver, &native_payload(50));
    let sibling = [0x44u8; 32];
    let (sig, rid) = sign(&s.sk, &root(&l, &sibling));
    let path = vec![sibling];
    assert_eq!(
        s.bridge.process_withdraw_native(&s.seeds, &s.admin, &receiver, &w, &origin, 50, &Vec::new(), &sig, rid, 100),
        Err(BridgeError::MalformedProof)
    );
    assert_eq!(
        s.bridge.process_withdraw_native(&s.seeds, &s.admin, &receiver, &[0u8; 32], &origin, 50, &path, &sig, rid, 100),
        Err(BridgeError::WrongNonce)
    );
    assert_eq!(
        s.bridge.process_withdraw_native(&s.seeds, &s.admin, &receiver, &w, &origin, 51, &path, &sig, rid, 100),
        Err(BridgeError::WrongSignature)
    );
    assert_eq!(
        s.bridge.process_withdraw_native(&s.seeds, &s.admin, &receiver, &w, &origin, 50, &path, &sig, rid, 49),
        Err(BridgeError::WrongBalance)
    );
    assert_eq!(s.bridge.withdrawals.len(), 0);
    assert_eq!(
        s.bridge.process_withdraw_native(&s.seeds, &s.admin, &receiver, &w, &origin, 50, &path, &sig, rid, 50),
        Ok(())
    );
}

fn ata(wallet: &[u8; 32], mint: &[u8; 32]) -> [u8; 32] {
    spl_associated_token_account::get_associated_token_address(
        &Pubkey::new_from_array(*wallet),
        &Pubkey::new_from_array(*mint),
    )
    .to_bytes()
}

fn metadata_pda(mint: &[u8; 32]) -> [u8; 32] {
    mpl_token_metadata::accounts::Metadata::find_pda(&Pubkey::new_from_array(*mint)).0.to_bytes()
}

#[test]
fn token_deposits() {
    let s = setup();
    let mint = [0x55u8; 32];
    let bridge_account = ata(&s.admin, &mint);
    let ft = charge(s.commission, s.commission_account, 1, 30);
    assert_eq!(
        s.bridge.process_deposit_ft(&s.seeds, &s.admin, &Some(ft), 30, &mint, &bridge_account, &None),
        Ok(DepositAction::Transfer)
    );
    let ft = charge(s.commission, s.commission_account, 1, 30);
    assert_eq!(
        s.bridge.process_deposit_ft(&s.seeds, &s.admin, &Some(ft), 30, &mint, &[0u8; 32], &None),
        Err(BridgeError::WrongTokenAccount)
    );
    let token_seed = [0x66u8; 32];
    let minted = Pubkey::find_program_address(&[&token_seed], &Pubkey::new_from_array(PROGRAM)).0.to_bytes();
    let minted_account = ata(&s.admin, &minted);
    let nft = charge(s.commission, s.commission_account, 2, 1);
    assert_eq!(
        s.bridge.process_deposit_nft(&s.seeds, &s.admin, &Some(nft), &minted, &minted_account, &Some(token_seed)),
        Ok(DepositAction::Burn)
    );
    let nft = charge(s.commission, s.commission_account, 2, 1);
    assert_eq!(
        s.bridge.process_deposit_nft(&s.seeds, &s.admin, &Some(nft), &mint, &bridge_account, &Some(token_seed)),
        Err(BridgeError::WrongTokenSeed)
    );
}

#[test]
fn fungible_withdrawal_strips_metadata_padding() {
    let mut s = setup();
    let origin = [0x0eu8; 32];
    let receiver = [0x0fu8; 32];
    let mint = [0x57u8; 32];
    let w = withdraw_address(&origin);
    let mut payload = mint.to_vec();
    payload.extend_from_slice(&amount_bytes(40));
    payload.extend_from_slice(b"GoldGLDhttps://g");
    let l = leaf(&origin, &receiver, &payload);
    let sibling = [0x21u8; 32];
    let (sig, rid) = sign(&s.sk, &root(&l, &sibling));
    let metadata = TokenMetadata {
        name: "Gold\0\0\0".to_string(),
        symbol: "GLD\0".to_string(),
        uri: "https://g\0\0".to_string(),
        collection: None,
    };
    let r = s.bridge.process_withdraw_ft(
        &s.seeds, &s.admin, &receiver, &w, &origin, 40, &vec![sibling], &sig, rid, &mint,
        &metadata_pda(&mint), &metadata, 6, &ata(&s.admin, &mint), &ata(&receiver, &mint), 15,
    );
    assert_eq!(r, Ok(25));
    assert_eq!(s.bridge.withdrawals[0].record.mint, Some(mint));
    assert_eq!(s.bridge.withdrawals[0].record.token_type, TokenType::FT);
}

#[test]
fn non_fungible_withdrawal_uses_collection_names() {
    let mut s = setup();
    let origin = [0x1eu8; 32];
    let receiver = [0x1fu8; 32];
    let mint = [0x58u8; 32];
    let collection_mint = [0x59u8; 32];
    let w = withdraw_address(&origin);
    let mut payload = mint.to_vec();
    payload.extend_from_slice(&collection_mint);
    payload.extend_from_slice(&amount_bytes(1));
    payload.extend_from_slice(b"ApesAPEuri1");
    let l = leaf(&origin, &receiver, &payload);
    let sibling = [0x22u8; 32];
    let (sig, rid) = sign(&s.sk, &root(&l, &sibling));
    let metadata = TokenMetadata {
        name: "Ape #1".to_string(),
        symbol: "A1".to_string(),
        uri: "uri1\0".to_string(),
        collection: Some(collection_mint),
    };
    let collection = Some(CollectionMetadata {
        address: metadata_pda(&collection_mint),
        name: "Apes\0".to_string(),
        symbol: "APE".to_string(),
    });
    let r = s.bridge.process_withdraw_nft(
        &s.seeds, &s.admin, &receiver, &w, &origin, &vec![sibling], &sig, rid, &mint,
        &metadata_pda(&mint), &metadata, &None, &ata(&s.admin, &mint), &ata(&receiver, &mint), 0,
    );
    assert_eq!(r, Err(BridgeError::WrongMetadataAccount));
    let r = s.bridge.process_withdraw_nft(
        &s.seeds, &s.admin, &receiver, &w, &origin, &vec![sibling], &sig, rid, &mint,
        &metadata_pda(&mint), &metadata, &collection, &ata(&s.admin, &mint), &ata(&receiver, &mint), 0,
    );
    assert_eq!(r, Ok(true));
    assert_eq!(s.bridge.withdrawals[0].record.amount, 1);
}

#[test]
fn mint_planning_and_collection_checks() {
    let s = setup();
    let token_seed = [0x67u8; 32];
    let mint = Pubkey::find_program_address(&[&token_seed], &Pubkey::new_from_array(PROGRAM)).0.to_bytes();
    let meta = Some(SignedMetadata { name: "N".to_string(), symbol: "S".to_string(), uri: "U".to_string(), decimals: 0 });
    assert_eq!(s.bridge.try_mint_token_with_meta(&token_seed, &mint, &meta, false), Ok(true));
    assert_eq!(s.bridge.try_mint_token_with_meta(&token_seed, &mint, &meta, true), Ok(false));
    assert_eq!(s.bridge.try_mint_token_with_meta(&token_seed, &mint, &None, false), Err(BridgeError::NoTokenMeta));
    assert_eq!(s.bridge.try_mint_token_with_meta(&token_seed, &[1u8; 32], &meta, false), Err(BridgeError::WrongTokenSeed));
    assert_eq!(s.bridge.process_create_collection(&s.seeds, &s.admin, &mint, &ata(&s.admin, &mint), &token_seed), Ok(()));
    assert_eq!(
        s.bridge.process_create_collection(&s.seeds, &s.admin, &mint, &ata(&[3u8; 32], &mint), &token_seed),
        Err(BridgeError::WrongTokenAccount)
    );
}

#[test]
fn argument_sizes() {
    let args = DepositArgs {
        seeds: [0u8; 32],
        network_to: "Ethereum".to_string(),
        receiver_address: "0xabc".to_string(),
        amount: 1,
        token_seed: None,
    };
    assert_eq!(args.validate(), Ok(()));
    let long = DepositArgs { receiver_address: "x".repeat(101), ..args };
    assert_eq!(long.validate(), Err(BridgeError::WrongArgsSize));
    let meta = SignedMetadata { name: "n".repeat(33), symbol: "S".to_string(), uri: "U".to_string(), decimals: 0 };
    let mint = MintArgs { seeds: [0u8; 32], data: meta, token_seed: [0u8; 32] };
    assert_eq!(mint.validate(), Err(BridgeError::WrongArgsSize));
    let w = WithdrawArgs {
        seeds: [0u8; 32],
        signature: [0u8; 64],
        recovery_id: 0,
        path: vec![],
        origin: [0u8; 32],
        amount: 1,
        token_seed: None,
        signed_meta: None,
    };
    assert_eq!(w.validate(), Ok(()));
}

#[test]
fn withdrawal_checks_the_record_address_last() {
    let mut s = setup();
    let origin = [0x2cu8; 32];
    let receiver = [0x2du8; 32];
    let w = withdraw_address(&origin);
    let l = leaf(&origin, &receiver, &native_payload(50));
    let sibling = [0x45u8; 32];
    let (sig, rid) = sign(&s.sk, &root(&l, &sibling));
    let path = vec![sibling];
    let wrong = [0u8; 32];
    assert_eq!(
        s.bridge.process_withdraw_native(&s.seeds, &s.admin, &receiver, &wrong, &origin, 50, &Vec::new(), &sig, rid, 100),
        Err(BridgeError::MalformedProof)
    );
    assert_eq!(
        s.bridge.process_withdraw_native(&s.seeds, &s.admin, &receiver, &wrong, &origin, 50, &path, &sig, rid, 10),
        Err(BridgeError::WrongBalance)
    );
    assert_eq!(
        s.bridge.process_withdraw_native(&s.seeds, &s.admin, &receiver, &wrong, &origin, 50, &path, &sig, rid, 100),
        Err(BridgeError::WrongNonce)
    );
    assert_eq!(
        s.bridge.process_withdraw_native(&s.seeds, &s.admin, &receiver, &w, &origin, 50, &path, &sig, rid, 100),
        Ok(())
    );
    assert_eq!(
        s.bridge.process_withdraw_native(&s.seeds, &s.admin, &receiver, &wrong, &origin, 50, &Vec::new(), &sig, rid, 0),
        Err(BridgeError::AlreadyInUse)
    );
}

#[test]
fn error_numbering() {
    assert_eq!(BridgeError::AlreadyInUse as u32, 0);
    assert_eq!(BridgeError::NotInitialized as u32, 2);
    assert_eq!(BridgeError::WrongSeeds as u32, 6);
    assert_eq!(BridgeError::WrongNonce as u32, 7);
    assert_eq!(BridgeError::WrongTokenAccount as u32, 8);
    assert_eq!(BridgeError::WrongMetadataAccount as u32, 9);
}
