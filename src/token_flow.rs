//! Deposits and withdrawals of fungible and non-fungible tokens, and the
//! checks before the bridge mints a token.
use vstd::prelude::*;
use vstd::utf8::encode_utf8;
use crate::address::{
    address_view, associated_token_account, associated_token_address, found_program_address,
    metadata_account, metadata_address, single_seed, try_find_program_address,
};
use crate::bytes::{be_bytes, bytes_eq};
use crate::commission::{commission_check, verify_commission_charged, PrecedingOperation};
use crate::error::BridgeError;
use crate::merkle::path_view;
use crate::merkle_node::{zeros32, ContentNode, Operation, TransferOperation, SOLANA_NETWORK};
use crate::metadata::{strip_trailing_nul, trim_nul, CollectionMetadata, SignedMetadata, TokenMetadata};
use crate::processor::{chain, leaf_hash, proof_check, Bridge};
use crate::state::{TokenType, WithdrawAccount, WithdrawRecord};

verus! {

/// What a token deposit does with the deposited tokens.
#[derive(Clone, Copy, Debug, PartialEq, Eq, Structural)]
pub enum DepositAction {
    /// Burn them: the bridge minted this token from a token seed.
    Burn,
    /// Move them into the bridge's token account.
    Transfer,
}

/// A token account must be the expected associated account.
pub open spec fn account_check(given: Seq<u8>, expected: Option<Seq<u8>>) -> Result<(), BridgeError> {
    if expected == Some(given) {
        Ok(())
    } else {
        Err(BridgeError::WrongTokenAccount)
    }
}

/// A metadata account must be the one derived from the mint.
pub open spec fn metadata_check(given: Seq<u8>, mint: Seq<u8>) -> Result<(), BridgeError> {
    if metadata_address(mint) == Some(given) {
        Ok(())
    } else {
        Err(BridgeError::WrongMetadataAccount)
    }
}

/// A token in a collection needs the collection's metadata account.
pub open spec fn collection_check(metadata: TokenMetadata, collection: Option<CollectionMetadata>) -> Result<(), BridgeError> {
    match metadata.collection {
        None => Ok(()),
        Some(key) => match collection {
            Some(c) => if metadata_address(key@) == Some(c.address@) {
                Ok(())
            } else {
                Err(BridgeError::WrongMetadataAccount)
            },
            None => Err(BridgeError::WrongMetadataAccount),
        },
    }
}

pub open spec fn clean_text(s: Seq<char>) -> Seq<u8> {
    encode_utf8(strip_trailing_nul(s))
}

/// Leaf payload of a fungible withdrawal, from the stored metadata.
pub open spec fn ft_payload_bytes(mint: Seq<u8>, amount: u64, metadata: TokenMetadata) -> Seq<u8> {
    mint + be_bytes(amount as nat, 32) + clean_text(metadata.name@) + clean_text(metadata.symbol@)
        + clean_text(metadata.uri@)
}

/// Leaf payload of a non-fungible withdrawal: a token in a collection
/// takes its name and symbol from the collection's metadata.
pub open spec fn nft_payload_bytes(mint: Seq<u8>, metadata: TokenMetadata, collection: Option<CollectionMetadata>) -> Seq<u8> {
    let in_collection = metadata.collection is Some && collection is Some;
    let name = if in_collection {
        collection->0.name@
    } else {
        metadata.name@
    };
    let symbol = if in_collection {
        collection->0.symbol@
    } else {
        metadata.symbol@
    };
    mint + match metadata.collection {
        Some(c) => c@,
        None => zeros32(),
    } + be_bytes(1, 32) + clean_text(name) + clean_text(symbol) + clean_text(metadata.uri@)
}

pub open spec fn mint_to_bridge(bridge_balance: u64, amount: u64) -> u64 {
    if bridge_balance < amount {
        (amount - bridge_balance) as u64
    } else {
        0
    }
}

impl Bridge {
    /// The mint must be the program address found from `token_seed`.
    pub open spec fn mint_seed_check(&self, token_seed: Seq<u8>, mint: Seq<u8>) -> Result<(), BridgeError> {
        match found_program_address(seq![token_seed], self.program_id@) {
            Some((a, _)) => if a == mint {
                Ok(())
            } else {
                Err(BridgeError::WrongTokenSeed)
            },
            None => Err(BridgeError::WrongTokenSeed),
        }
    }

    pub open spec fn deposit_token_check(
        &self,
        seeds: Seq<u8>,
        admin_address: Seq<u8>,
        preceding: Option<PrecedingOperation>,
        token: TokenType,
        amount: u64,
        mint: Seq<u8>,
        bridge_token_account: Seq<u8>,
        token_seed: Option<Seq<u8>>,
    ) -> Result<(), BridgeError> {
        chain(
            self.ready_check(seeds, admin_address),
            chain(
                commission_check(self.admin, admin_address, preceding, token, amount),
                chain(
                    account_check(bridge_token_account, associated_token_address(admin_address, mint)),
                    match token_seed {
                        Some(s) => self.mint_seed_check(s, mint),
                        None => Ok(()),
                    },
                ),
            ),
        )
    }

    pub open spec fn withdraw_ft_check(
        &self,
        seeds: Seq<u8>,
        admin_address: Seq<u8>,
        receiver: Seq<u8>,
        withdraw_address: Seq<u8>,
        origin: Seq<u8>,
        amount: u64,
        path: Seq<Seq<u8>>,
        signature: Seq<u8>,
        recovery_id: u8,
        mint: Seq<u8>,
        metadata_account: Seq<u8>,
        metadata: TokenMetadata,
        bridge_token_account: Seq<u8>,
        receiver_token_account: Seq<u8>,
    ) -> Result<(), BridgeError> {
        chain(
            self.ready_check(seeds, admin_address),
            chain(
                self.replay_check(origin),
                chain(
                    metadata_check(metadata_account, mint),
                    chain(
                        proof_check(
                            leaf_hash(origin, receiver, self.program_id@, ft_payload_bytes(mint, amount, metadata)),
                            path,
                            signature,
                            recovery_id,
                            self.admin.public_key@,
                        ),
                        chain(
                            account_check(bridge_token_account, associated_token_address(admin_address, mint)),
                            chain(
                                account_check(receiver_token_account, associated_token_address(receiver, mint)),
                                self.nonce_check(origin, withdraw_address),
                            ),
                        ),
                    ),
                ),
            ),
        )
    }

    pub open spec fn withdraw_nft_check(
        &self,
        seeds: Seq<u8>,
        admin_address: Seq<u8>,
        receiver: Seq<u8>,
        withdraw_address: Seq<u8>,
        origin: Seq<u8>,
        path: Seq<Seq<u8>>,
        signature: Seq<u8>,
        recovery_id: u8,
        mint: Seq<u8>,
        metadata_account: Seq<u8>,
        metadata: TokenMetadata,
        collection: Option<CollectionMetadata>,
        bridge_token_account: Seq<u8>,
        receiver_token_account: Seq<u8>,
    ) -> Result<(), BridgeError> {
        chain(
            self.ready_check(seeds, admin_address),
            chain(
                self.replay_check(origin),
                chain(
                    metadata_check(metadata_account, mint),
                    chain(
                        collection_check(metadata, collection),
                        chain(
                            proof_check(
                                leaf_hash(origin, receiver, self.program_id@, nft_payload_bytes(mint, metadata, collection)),
                                path,
                                signature,
                                recovery_id,
                                self.admin.public_key@,
                            ),
                            chain(
                                account_check(bridge_token_account, associated_token_address(admin_address, mint)),
                                chain(
                                    account_check(receiver_token_account, associated_token_address(receiver, mint)),
                                    self.nonce_check(origin, withdraw_address),
                                ),
                            ),
                        ),
                    ),
                ),
            ),
        )
    }

    fn check_mint_seed(&self, token_seed: &[u8; 32], mint: &[u8; 32]) -> (r: Result<(), BridgeError>)
        ensures
            r == self.mint_seed_check(token_seed@, mint@),
    {
        match try_find_program_address(&single_seed(token_seed), &self.program_id) {
            Some((a, _)) => if bytes_eq(&a, mint) {
                Ok(())
            } else {
                Err(BridgeError::WrongTokenSeed)
            },
            None => Err(BridgeError::WrongTokenSeed),
        }
    }

    fn check_associated_account(given: &[u8; 32], wallet: &[u8; 32], mint: &[u8; 32]) -> (r: Result<(), BridgeError>)
        ensures
            r == account_check(given@, associated_token_address(wallet@, mint@)),
    {
        match associated_token_account(wallet, mint) {
            Some(a) => if bytes_eq(given, &a) {
                Ok(())
            } else {
                Err(BridgeError::WrongTokenAccount)
            },
            None => Err(BridgeError::WrongTokenAccount),
        }
    }

    fn check_metadata_account(given: &[u8; 32], mint: &[u8; 32]) -> (r: Result<(), BridgeError>)
        ensures
            r == metadata_check(given@, mint@),
    {
        match metadata_account(mint) {
            Some(a) => if bytes_eq(given, &a) {
                Ok(())
            } else {
                Err(BridgeError::WrongMetadataAccount)
            },
            None => Err(BridgeError::WrongMetadataAccount),
        }
    }

    fn deposit_token(
        &self,
        seeds: &[u8; 32],
        admin_address: &[u8; 32],
        preceding: &Option<PrecedingOperation>,
        token: TokenType,
        amount: u64,
        mint: &[u8; 32],
        bridge_token_account: &[u8; 32],
        token_seed: &Option<[u8; 32]>,
    ) -> (r: Result<DepositAction, BridgeError>)
        ensures
            match self.deposit_token_check(
                seeds@,
                admin_address@,
                *preceding,
                token,
                amount,
                mint@,
                bridge_token_account@,
                address_view(*token_seed),
            ) {
                Err(e) => r == Err::<DepositAction, BridgeError>(e),
                Ok(_) => r == Ok::<DepositAction, BridgeError>(
                    if token_seed is Some {
                        DepositAction::Burn
                    } else {
                        DepositAction::Transfer
                    },
                ),
            },
    {
        self.check_ready(seeds, admin_address)?;
        verify_commission_charged(admin_address, preceding, &self.admin, token, amount)?;
        Self::check_associated_account(bridge_token_account, admin_address, mint)?;
        match token_seed {
            Some(s) => {
                self.check_mint_seed(s, mint)?;
                Ok(DepositAction::Burn)
            },
            None => Ok(DepositAction::Transfer),
        }
    }

    /// Admits a deposit of `amount` of a fungible token once its commission
    /// is charged; a token that the bridge minted is burnt, another one is
    /// moved into the bridge's associated token account.
    pub fn process_deposit_ft(
        &self,
        seeds: &[u8; 32],
        admin_address: &[u8; 32],
        preceding: &Option<PrecedingOperation>,
        amount: u64,
        mint: &[u8; 32],
        bridge_token_account: &[u8; 32],
        token_seed: &Option<[u8; 32]>,
    ) -> (r: Result<DepositAction, BridgeError>)
        ensures
            match self.deposit_token_check(
                seeds@,
                admin_address@,
                *preceding,
                TokenType::FT,
                amount,
                mint@,
                bridge_token_account@,
                address_view(*token_seed),
            ) {
                Err(e) => r == Err::<DepositAction, BridgeError>(e),
                Ok(_) => r == Ok::<DepositAction, BridgeError>(
                    if token_seed is Some {
                        DepositAction::Burn
                    } else {
                        DepositAction::Transfer
                    },
                ),
            },
    {
        self.deposit_token(seeds, admin_address, preceding, TokenType::FT, amount, mint, bridge_token_account, token_seed)
    }

    /// Admits a deposit of one non-fungible token once its commission is
    /// charged; see `process_deposit_ft`.
    pub fn process_deposit_nft(
        &self,
        seeds: &[u8; 32],
        admin_address: &[u8; 32],
        preceding: &Option<PrecedingOperation>,
        mint: &[u8; 32],
        bridge_token_account: &[u8; 32],
        token_seed: &Option<[u8; 32]>,
    ) -> (r: Result<DepositAction, BridgeError>)
        ensures
            match self.deposit_token_check(
                seeds@,
                admin_address@,
                *preceding,
                TokenType::NFT,
                1,
                mint@,
                bridge_token_account@,
                address_view(*token_seed),
            ) {
                Err(e) => r == Err::<DepositAction, BridgeError>(e),
                Ok(_) => r == Ok::<DepositAction, BridgeError>(
                    if token_seed is Some {
                        DepositAction::Burn
                    } else {
                        DepositAction::Transfer
                    },
                ),
            },
    {
        self.deposit_token(seeds, admin_address, preceding, TokenType::NFT, 1, mint, bridge_token_account, token_seed)
    }

    /// Before a withdrawal of a token that the bridge mints: the mint must
    /// be derived from `token_seed` and metadata must be given. Returns
    /// whether the mint (and its metadata) must still be created.
    pub fn try_mint_token_with_meta(
        &self,
        token_seed: &[u8; 32],
        mint: &[u8; 32],
        signed_meta: &Option<SignedMetadata>,
        mint_exists: bool,
    ) -> (r: Result<bool, BridgeError>)
        ensures
            match chain(
                self.mint_seed_check(token_seed@, mint@),
                if signed_meta is Some {
                    Ok(())
                } else {
                    Err(BridgeError::NoTokenMeta)
                },
            ) {
                Err(e) => r == Err::<bool, BridgeError>(e),
                Ok(_) => r == Ok::<bool, BridgeError>(!mint_exists),
            },
    {
        self.check_mint_seed(token_seed, mint)?;
        if signed_meta.is_none() {
            return Err(BridgeError::NoTokenMeta);
        }
        Ok(!mint_exists)
    }

    /// Checks a request to mint a collection token held by the bridge: the
    /// bridge token account must be its associated account for the mint,
    /// and the mint must be derived from `token_seed`.
    pub fn process_create_collection(
        &self,
        seeds: &[u8; 32],
        admin_address: &[u8; 32],
        mint: &[u8; 32],
        bridge_token_account: &[u8; 32],
        token_seed: &[u8; 32],
    ) -> (r: Result<(), BridgeError>)
        ensures
            r == chain(
                self.ready_check(seeds@, admin_address@),
                chain(
                    account_check(bridge_token_account@, associated_token_address(admin_address@, mint@)),
                    self.mint_seed_check(token_seed@, mint@),
                ),
            ),
    {
        self.check_ready(seeds, admin_address)?;
        Self::check_associated_account(bridge_token_account, admin_address, mint)?;
        self.check_mint_seed(token_seed, mint)
    }
    /// The leaf of a fungible withdrawal.
    fn ft_leaf(&self, origin: &[u8; 32], receiver: &[u8; 32], mint: &[u8; 32], amount: u64, metadata: &TokenMetadata, decimals: u8) -> (r: [u8; 32])
        ensures
            r@ == leaf_hash(origin@, receiver@, self.program_id@, ft_payload_bytes(mint@, amount, *metadata)),
    {
        let name = trim_nul(&metadata.name);
        let symbol = trim_nul(&metadata.symbol);
        let uri = trim_nul(&metadata.uri);
        let operation = TransferOperation::new_ft_transfer(*mint, amount, name, symbol, uri, decimals);
        let node = ContentNode::new(*origin, *receiver, self.program_id, operation.get_operation());
        proof {
            assert(node.leaf_bytes() =~= origin@ + encode_utf8(SOLANA_NETWORK@) + receiver@
                + self.program_id@ + ft_payload_bytes(mint@, amount, *metadata));
        }
        node.hash()
    }

    /// The leaf of a non-fungible withdrawal.
    fn nft_leaf(
        &self,
        origin: &[u8; 32],
        receiver: &[u8; 32],
        mint: &[u8; 32],
        metadata: &TokenMetadata,
        collection: &Option<CollectionMetadata>,
    ) -> (r: [u8; 32])
        ensures
            r@ == leaf_hash(origin@, receiver@, self.program_id@, nft_payload_bytes(mint@, *metadata, *collection)),
    {
        let mut name = trim_nul(&metadata.name);
        let mut symbol = trim_nul(&metadata.symbol);
        if metadata.collection.is_some() {
            match collection {
                Some(c) => {
                    name = trim_nul(&c.name);
                    symbol = trim_nul(&c.symbol);
                },
                None => {},
            }
        }
        let uri = trim_nul(&metadata.uri);
        let operation = TransferOperation::new_nft_transfer(*mint, metadata.collection, name, symbol, uri);
        let node = ContentNode::new(*origin, *receiver, self.program_id, operation.get_operation());
        proof {
            assert(node.leaf_bytes() =~= origin@ + encode_utf8(SOLANA_NETWORK@) + receiver@
                + self.program_id@ + nft_payload_bytes(mint@, *metadata, *collection));
        }
        node.hash()
    }

    /// Redeems the fungible withdrawal for `origin` (see
    /// `process_withdraw_native`); the leaf carries the metadata's name,
    /// symbol and uri without NUL padding. Returns how many tokens must be
    /// minted to the bridge's token account, which holds `bridge_balance`,
    /// before `amount` is moved to the receiver's token account.
    pub fn process_withdraw_ft(
        &mut self,
        seeds: &[u8; 32],
        admin_address: &[u8; 32],
        receiver: &[u8; 32],
        withdraw_address: &[u8; 32],
        origin: &[u8; 32],
        amount: u64,
        path: &Vec<[u8; 32]>,
        signature: &[u8; 64],
        recovery_id: u8,
        mint: &[u8; 32],
        metadata_account: &[u8; 32],
        metadata: &TokenMetadata,
        decimals: u8,
        bridge_token_account: &[u8; 32],
        receiver_token_account: &[u8; 32],
        bridge_balance: u64,
    ) -> (r: Result<u64, BridgeError>)
        ensures
            old(self).wf() ==> final(self).wf(),
            match old(self).withdraw_ft_check(
                seeds@,
                admin_address@,
                receiver@,
                withdraw_address@,
                origin@,
                amount,
                path_view(path@),
                signature@,
                recovery_id,
                mint@,
                metadata_account@,
                *metadata,
                bridge_token_account@,
                receiver_token_account@,
            ) {
                Err(e) => r == Err::<u64, BridgeError>(e),
                Ok(_) => r == Ok::<u64, BridgeError>(mint_to_bridge(bridge_balance, amount)),
            },
            final(self).program_id == old(self).program_id,
            final(self).admin == old(self).admin,
            r is Ok ==> final(self).withdrawals@ == old(self).withdrawals@.push(
                WithdrawAccount {
                    address: *withdraw_address,
                    record: WithdrawRecord {
                        is_initialized: true,
                        token_type: TokenType::FT,
                        origin: *origin,
                        mint: Some(*mint),
                        amount,
                        receiver_address: *receiver,
                    },
                },
            ),
            r is Err ==> final(self).withdrawals@ == old(self).withdrawals@,
    {
        self.check_ready(seeds, admin_address)?;
        self.check_replay(origin)?;
        Self::check_metadata_account(metadata_account, mint)?;
        let leaf = self.ft_leaf(origin, receiver, mint, amount, metadata, decimals);
        self.check_proof(&leaf, path, signature, recovery_id)?;
        Self::check_associated_account(bridge_token_account, admin_address, mint)?;
        Self::check_associated_account(receiver_token_account, receiver, mint)?;
        self.check_nonce(origin, withdraw_address)?;
        let record = WithdrawRecord {
            is_initialized: true,
            token_type: TokenType::FT,
            origin: *origin,
            mint: Some(*mint),
            amount,
            receiver_address: *receiver,
        };
        self.insert_withdrawal(WithdrawAccount { address: *withdraw_address, record });
        if bridge_balance < amount {
            Ok(amount - bridge_balance)
        } else {
            Ok(0)
        }
    }

    /// Redeems the non-fungible withdrawal for `origin` (see
    /// `process_withdraw_native`). A token in a collection needs the
    /// collection's metadata account, whose name and symbol the leaf
    /// carries. Returns whether one token must be minted to the bridge's
    /// token account, which holds `bridge_balance`, before it is moved to
    /// the receiver's token account.
    pub fn process_withdraw_nft(
        &mut self,
        seeds: &[u8; 32],
        admin_address: &[u8; 32],
        receiver: &[u8; 32],
        withdraw_address: &[u8; 32],
        origin: &[u8; 32],
        path: &Vec<[u8; 32]>,
        signature: &[u8; 64],
        recovery_id: u8,
        mint: &[u8; 32],
        metadata_account: &[u8; 32],
        metadata: &TokenMetadata,
        collection: &Option<CollectionMetadata>,
        bridge_token_account: &[u8; 32],
        receiver_token_account: &[u8; 32],
        bridge_balance: u64,
    ) -> (r: Result<bool, BridgeError>)
        ensures
            old(self).wf() ==> final(self).wf(),
            match old(self).withdraw_nft_check(
                seeds@,
                admin_address@,
                receiver@,
                withdraw_address@,
                origin@,
                path_view(path@),
                signature@,
                recovery_id,
                mint@,
                metadata_account@,
                *metadata,
                *collection,
                bridge_token_account@,
                receiver_token_account@,
            ) {
                Err(e) => r == Err::<bool, BridgeError>(e),
                Ok(_) => r == Ok::<bool, BridgeError>(bridge_balance == 0),
            },
            final(self).program_id == old(self).program_id,
            final(self).admin == old(self).admin,
            r is Ok ==> final(self).withdrawals@ == old(self).withdrawals@.push(
                WithdrawAccount {
                    address: *withdraw_address,
                    record: WithdrawRecord {
                        is_initialized: true,
                        token_type: TokenType::NFT,
                        origin: *origin,
                        mint: Some(*mint),
                        amount: 1,
                        receiver_address: *receiver,
                    },
                },
            ),
            r is Err ==> final(self).withdrawals@ == old(self).withdrawals@,
    {
        self.check_ready(seeds, admin_address)?;
        self.check_replay(origin)?;
        Self::check_metadata_account(metadata_account, mint)?;
        match metadata.collection {
            Some(key) => match collection {
                Some(c) => {
                    Self::check_metadata_account(&c.address, &key)?;
                },
                None => {
                    return Err(BridgeError::WrongMetadataAccount);
                },
            },
            None => {},
        }
        let leaf = self.nft_leaf(origin, receiver, mint, metadata, collection);
        self.check_proof(&leaf, path, signature, recovery_id)?;
        Self::check_associated_account(bridge_token_account, admin_address, mint)?;
        Self::check_associated_account(receiver_token_account, receiver, mint)?;
        self.check_nonce(origin, withdraw_address)?;
        let record = WithdrawRecord {
            is_initialized: true,
            token_type: TokenType::NFT,
            origin: *origin,
            mint: Some(*mint),
            amount: 1,
            receiver_address: *receiver,
        };
        self.insert_withdrawal(WithdrawAccount { address: *withdraw_address, record });
        Ok(bridge_balance == 0)
    }
}

/// Replay, for every kind of withdrawal: once a record occupies the address
/// derived from `origin`, any withdrawal of the native coin, a fungible or
/// a non-fungible token that names this origin fails with `AlreadyInUse`,
/// whatever its other parameters, the record address included.
pub proof fn lemma_redeemed_origin_blocks_withdrawals(
    b: Bridge,
    seeds: Seq<u8>,
    admin_address: Seq<u8>,
    origin: Seq<u8>,
    redeemed_address: Seq<u8>,
    withdraw_address: Seq<u8>,
    receiver: Seq<u8>,
    amount: u64,
    path: Seq<Seq<u8>>,
    signature: Seq<u8>,
    recovery_id: u8,
    available: u64,
    mint: Seq<u8>,
    metadata_account: Seq<u8>,
    metadata: TokenMetadata,
    collection: Option<CollectionMetadata>,
    bridge_token_account: Seq<u8>,
    receiver_token_account: Seq<u8>,
)
    requires
        b.ready_check(seeds, admin_address) is Ok,
        b.withdraw_address_of(origin) == Some(redeemed_address),
        b.occupied(redeemed_address),
    ensures
        b.withdraw_native_result(
            seeds,
            admin_address,
            receiver,
            withdraw_address,
            origin,
            amount,
            path,
            signature,
            recovery_id,
            available,
        ) == Err::<(), BridgeError>(BridgeError::AlreadyInUse),
        b.withdraw_ft_check(
            seeds,
            admin_address,
            receiver,
            withdraw_address,
            origin,
            amount,
            path,
            signature,
            recovery_id,
            mint,
            metadata_account,
            metadata,
            bridge_token_account,
            receiver_token_account,
        ) == Err::<(), BridgeError>(BridgeError::AlreadyInUse),
        b.withdraw_nft_check(
            seeds,
            admin_address,
            receiver,
            withdraw_address,
            origin,
            path,
            signature,
            recovery_id,
            mint,
            metadata_account,
            metadata,
            collection,
            bridge_token_account,
            receiver_token_account,
        ) == Err::<(), BridgeError>(BridgeError::AlreadyInUse),
{
}

} // verus!
