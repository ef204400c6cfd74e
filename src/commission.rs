//! The check that a deposit was charged its commission by the operation
//! that precedes it in the same atomic unit.
use vstd::prelude::*;
use vstd::utf8::encode_utf8;
use crate::address::{create_program_address, program_address, seed_pair};
use crate::bytes::{bytes_eq, le_value, read_u64_le};
use crate::error::BridgeError;
use crate::state::{AdminRecord, TokenType};

verus! {

/// The seed that, with the bridge admin address, derives the commission
/// program's admin account.
pub const COMMISSION_ADMIN_PDA_SEED: &'static str = "commission_admin";

/// The leading byte of a "charge commission" message.
pub const CHARGE_COMMISSION_TAG: u8 = 1;

/// The operation that precedes the deposit in its atomic unit.
pub struct PrecedingOperation {
    pub program_id: [u8; 32],
    pub accounts: Vec<[u8; 32]>,
    pub data: Vec<u8>,
}

pub open spec fn token_type_of(b: u8) -> Option<TokenType> {
    if b == 0 {
        Some(TokenType::Native)
    } else if b == 1 {
        Some(TokenType::FT)
    } else if b == 2 {
        Some(TokenType::NFT)
    } else {
        None
    }
}

/// A "charge commission" message is ten bytes: the tag, the token kind
/// (0 native, 1 fungible, 2 non-fungible) and the amount, a little-endian
/// `u64`.
pub open spec fn charge_commission_args(data: Seq<u8>) -> Option<(TokenType, u64)> {
    if data.len() == 10 && data[0] == CHARGE_COMMISSION_TAG && token_type_of(data[1]) is Some {
        Some((token_type_of(data[1])->0, le_value(data.subrange(2, 10)) as u64))
    } else {
        None
    }
}

pub open spec fn commission_seed() -> Seq<u8> {
    encode_utf8(COMMISSION_ADMIN_PDA_SEED@)
}

/// The outcome of the commission check for a deposit of `amount` of `token`.
pub open spec fn commission_check(
    admin: AdminRecord,
    admin_address: Seq<u8>,
    preceding: Option<PrecedingOperation>,
    token: TokenType,
    amount: u64,
) -> Result<(), BridgeError> {
    match preceding {
        None => Err(BridgeError::NoCommission),
        Some(op) => if op.program_id@ != admin.commission_program@ {
            Err(BridgeError::WrongCommissionProgram)
        } else {
            match program_address(seq![commission_seed(), admin_address], op.program_id@) {
                None => Err(BridgeError::WrongCommissionAccount),
                Some(key) => if op.accounts@.len() == 0 || op.accounts@[0]@ != key {
                    Err(BridgeError::WrongCommissionAccount)
                } else if charge_commission_args(op.data@) == Some((token, amount)) {
                    Ok(())
                } else {
                    Err(BridgeError::WrongCommissionArguments)
                },
            }
        },
    }
}

fn token_type_from_byte(b: u8) -> (r: Option<TokenType>)
    ensures
        r == token_type_of(b),
{
    if b == 0 {
        Some(TokenType::Native)
    } else if b == 1 {
        Some(TokenType::FT)
    } else if b == 2 {
        Some(TokenType::NFT)
    } else {
        None
    }
}

/// Decodes a "charge commission" message.
pub fn decode_charge_commission(data: &Vec<u8>) -> (r: Option<(TokenType, u64)>)
    ensures
        r == charge_commission_args(data@),
{
    if data.len() != 10 || data[0] != CHARGE_COMMISSION_TAG {
        return None;
    }
    match token_type_from_byte(data[1]) {
        None => None,
        Some(token) => Some((token, read_u64_le(data.as_slice(), 2))),
    }
}

/// Requires that the operation preceding a deposit charges the commission
/// for exactly `(token, amount)` through the configured commission program,
/// on the commission admin account derived from the bridge admin address.
pub fn verify_commission_charged(
    admin_address: &[u8; 32],
    preceding: &Option<PrecedingOperation>,
    admin: &AdminRecord,
    token: TokenType,
    amount: u64,
) -> (r: Result<(), BridgeError>)
    ensures
        r == commission_check(*admin, admin_address@, *preceding, token, amount),
{
    match preceding {
        None => Err(BridgeError::NoCommission),
        Some(op) => {
            if !bytes_eq(&op.program_id, &admin.commission_program) {
                return Err(BridgeError::WrongCommissionProgram);
            }
            let seeds = seed_pair(COMMISSION_ADMIN_PDA_SEED.as_bytes(), admin_address);
            match create_program_address(&seeds, &op.program_id) {
                None => Err(BridgeError::WrongCommissionAccount),
                Some(key) => {
                    if op.accounts.len() == 0 || !bytes_eq(&op.accounts[0], &key) {
                        return Err(BridgeError::WrongCommissionAccount);
                    }
                    match decode_charge_commission(&op.data) {
                        Some((t, a)) => if t == token && a == amount {
                            Ok(())
                        } else {
                            Err(BridgeError::WrongCommissionArguments)
                        },
                        None => Err(BridgeError::WrongCommissionArguments),
                    }
                },
            }
        },
    }
}

} // verus!
