//! Request arguments and their size checks.
use vstd::prelude::*;
use vstd::utf8::encode_utf8;
use crate::error::BridgeError;
use crate::metadata::SignedMetadata;

verus! {

/// Longest receiver address on another chain, in bytes.
pub const MAX_ADDRESS_SIZE: usize = 100;

/// Longest destination network name, in bytes.
pub const MAX_NETWORKS_SIZE: usize = 20;

/// Longest token name, in bytes.
pub const MAX_NAME_LENGTH: usize = 32;

/// Longest token symbol, in bytes.
pub const MAX_SYMBOL_LENGTH: usize = 10;

/// Longest token uri, in bytes.
pub const MAX_URI_LENGTH: usize = 200;

/// The length of a string in UTF-8 bytes.
pub open spec fn byte_len(s: String) -> nat {
    encode_utf8(s@).len()
}

pub open spec fn metadata_fits(m: SignedMetadata) -> bool {
    byte_len(m.name) <= MAX_NAME_LENGTH && byte_len(m.symbol) <= MAX_SYMBOL_LENGTH && byte_len(m.uri)
        <= MAX_URI_LENGTH
}

fn check_metadata_sizes(m: &SignedMetadata) -> (r: Result<(), BridgeError>)
    ensures
        r is Ok <==> metadata_fits(*m),
        r is Err ==> r == Err::<(), BridgeError>(BridgeError::WrongArgsSize),
{
    if m.name.as_str().as_bytes().len() > MAX_NAME_LENGTH || m.symbol.as_str().as_bytes().len() > MAX_SYMBOL_LENGTH
        || m.uri.as_str().as_bytes().len() > MAX_URI_LENGTH {
        return Err(BridgeError::WrongArgsSize);
    }
    Ok(())
}

pub struct InitializeAdminArgs {
    pub seeds: [u8; 32],
    pub public_key: [u8; 64],
    pub commission_program: [u8; 32],
}

pub struct TransferOwnershipArgs {
    pub seeds: [u8; 32],
    pub new_public_key: [u8; 64],
    pub signature: [u8; 64],
    pub recovery_id: u8,
}

pub struct DepositArgs {
    pub seeds: [u8; 32],
    pub network_to: String,
    pub receiver_address: String,
    pub amount: u64,
    /// Present for a token that the bridge minted.
    pub token_seed: Option<[u8; 32]>,
}

impl DepositArgs {
    /// The receiver address and the network name must fit their bounds.
    pub fn validate(&self) -> (r: Result<(), BridgeError>)
        ensures
            r is Ok <==> byte_len(self.receiver_address) <= MAX_ADDRESS_SIZE && byte_len(
                self.network_to,
            ) <= MAX_NETWORKS_SIZE,
            r is Err ==> r == Err::<(), BridgeError>(BridgeError::WrongArgsSize),
    {
        if self.receiver_address.as_str().as_bytes().len() > MAX_ADDRESS_SIZE || self.network_to.as_str().as_bytes().len()
            > MAX_NETWORKS_SIZE {
            return Err(BridgeError::WrongArgsSize);
        }
        Ok(())
    }
}

pub struct WithdrawArgs {
    pub seeds: [u8; 32],
    pub signature: [u8; 64],
    pub recovery_id: u8,
    pub path: Vec<[u8; 32]>,
    pub origin: [u8; 32],
    pub amount: u64,
    /// Present for a token that the bridge mints.
    pub token_seed: Option<[u8; 32]>,
    /// Metadata for the token, should the bridge have to mint it.
    pub signed_meta: Option<SignedMetadata>,
}

impl WithdrawArgs {
    /// Given metadata must fit the bounds of a metadata record.
    pub fn validate(&self) -> (r: Result<(), BridgeError>)
        ensures
            r is Ok <==> match self.signed_meta {
                Some(m) => metadata_fits(m),
                None => true,
            },
            r is Err ==> r == Err::<(), BridgeError>(BridgeError::WrongArgsSize),
    {
        match &self.signed_meta {
            Some(m) => check_metadata_sizes(m),
            None => Ok(()),
        }
    }
}

pub struct MintArgs {
    pub seeds: [u8; 32],
    pub data: SignedMetadata,
    pub token_seed: [u8; 32],
}

impl MintArgs {
    /// The metadata must fit the bounds of a metadata record.
    pub fn validate(&self) -> (r: Result<(), BridgeError>)
        ensures
            r is Ok <==> metadata_fits(self.data),
            r is Err ==> r == Err::<(), BridgeError>(BridgeError::WrongArgsSize),
    {
        check_metadata_sizes(&self.data)
    }
}

/// The requests the bridge serves.
pub enum BridgeInstruction {
    InitializeAdmin(InitializeAdminArgs),
    TransferOwnership(TransferOwnershipArgs),
    DepositNative(DepositArgs),
    DepositFT(DepositArgs),
    DepositNFT(DepositArgs),
    WithdrawNative(WithdrawArgs),
    WithdrawFT(WithdrawArgs),
    WithdrawNFT(WithdrawArgs),
    MintCollection(MintArgs),
}

} // verus!
