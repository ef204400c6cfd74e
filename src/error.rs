use vstd::prelude::*;

verus! {

/// Broad classes of failure; every error aborts the whole request.
#[derive(Clone, Copy, Debug, PartialEq, Eq, Structural)]
pub enum ErrorKind {
    /// A derived address or a seed does not match.
    Config,
    /// A record is already initialized, or not yet.
    State,
    /// A signature or the commission charge does not check out.
    Auth,
    /// Malformed input data.
    Data,
    /// Not enough funds.
    Resource,
}

/// Errors that the bridge returns.
#[derive(Clone, Copy, Debug, PartialEq, Eq, Structural)]
pub enum BridgeError {
    /// The record cannot be initialized because it is already in use.
    AlreadyInUse,
    /// The account's balance is below the rent-exempt threshold.
    NotRentExempt,
    /// The record has not been initialized.
    NotInitialized,
    /// The admin did not sign.
    UnsignedAdmin,
    /// The admin account is not the expected one.
    WrongAdmin,
    /// An account's data has the wrong length.
    WrongDataLen,
    /// The admin account is not the one derived from the given seeds.
    WrongSeeds,
    /// The withdraw account is not the one derived from the origin.
    WrongNonce,
    /// A token account is not the associated account it must be.
    WrongTokenAccount,
    /// The metadata account is not the one derived from the mint.
    WrongMetadataAccount,
    /// No program address can be derived from the given seeds.
    InvalidSeeds,
    /// The mint is not the one derived from the token seed.
    WrongTokenSeed,
    /// Token metadata is needed to create the mint but was not given.
    NoTokenMeta,
    /// The bridge does not hold enough funds for the withdrawal.
    WrongBalance,
    /// No public key can be recovered from the signature.
    InvalidSignature,
    /// The recovered public key is not the authority key.
    WrongSignature,
    /// The merkle path is empty.
    MalformedProof,
    /// No operation precedes the deposit in its unit.
    NoCommission,
    /// The preceding operation does not call the commission program.
    WrongCommissionProgram,
    /// The preceding operation does not target the commission admin account.
    WrongCommissionAccount,
    /// The preceding operation does not charge the deposit's commission.
    WrongCommissionArguments,
    /// A request argument is longer than allowed.
    WrongArgsSize,
    /// Stored record bytes do not hold a record.
    InvalidRecord,
}

impl BridgeError {
    pub open spec fn spec_kind(self) -> ErrorKind {
        match self {
            BridgeError::AlreadyInUse | BridgeError::NotInitialized => ErrorKind::State,
            BridgeError::WrongSeeds | BridgeError::InvalidSeeds | BridgeError::WrongNonce
            | BridgeError::WrongTokenAccount | BridgeError::WrongMetadataAccount
            | BridgeError::WrongTokenSeed | BridgeError::WrongAdmin => ErrorKind::Config,
            BridgeError::InvalidSignature | BridgeError::WrongSignature
            | BridgeError::NoCommission | BridgeError::UnsignedAdmin | BridgeError::WrongCommissionProgram
            | BridgeError::WrongCommissionAccount
            | BridgeError::WrongCommissionArguments => ErrorKind::Auth,
            BridgeError::MalformedProof | BridgeError::NoTokenMeta
            | BridgeError::WrongArgsSize | BridgeError::InvalidRecord | BridgeError::WrongDataLen => ErrorKind::Data,
            BridgeError::WrongBalance | BridgeError::NotRentExempt => ErrorKind::Resource,
        }
    }

    /// The class this error belongs to.
    pub fn kind(&self) -> (r: ErrorKind)
        ensures
            r == self.spec_kind(),
    {
        match self {
            BridgeError::AlreadyInUse | BridgeError::NotInitialized => ErrorKind::State,
            BridgeError::WrongSeeds | BridgeError::InvalidSeeds | BridgeError::WrongNonce
            | BridgeError::WrongTokenAccount | BridgeError::WrongMetadataAccount
            | BridgeError::WrongTokenSeed | BridgeError::WrongAdmin => ErrorKind::Config,
            BridgeError::InvalidSignature | BridgeError::WrongSignature
            | BridgeError::NoCommission | BridgeError::UnsignedAdmin | BridgeError::WrongCommissionProgram
            | BridgeError::WrongCommissionAccount
            | BridgeError::WrongCommissionArguments => ErrorKind::Auth,
            BridgeError::MalformedProof | BridgeError::NoTokenMeta
            | BridgeError::WrongArgsSize | BridgeError::InvalidRecord | BridgeError::WrongDataLen => ErrorKind::Data,
            BridgeError::WrongBalance | BridgeError::NotRentExempt => ErrorKind::Resource,
        }
    }
}

} // verus!
