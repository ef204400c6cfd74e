//! The bridge's request handlers: admin initialization, key rotation,
//! deposits and withdrawals, each a decision over the persisted records.
use vstd::prelude::*;
use vstd::utf8::encode_utf8;
use crate::address::{
    create_program_address, found_program_address, program_address, single_seed,
    try_find_program_address,
};
use crate::bytes::bytes_eq;
use crate::commission::{
    charge_commission_args, commission_check, commission_seed, verify_commission_charged,
    PrecedingOperation,
};
use crate::crypto::{keccak, keccak_of, secp256k1_recovered};
use crate::ecdsa::{signature_check, verify_ecdsa_signature};
use crate::error::{BridgeError, ErrorKind};
use crate::merkle::{get_merkle_root, merkle_root, path_view};
use crate::merkle_node::{
    payload_bytes, ContentNode, Operation, TransferOperation, TransferPayload, SOLANA_NETWORK,
};
use crate::state::{AdminRecord, TokenType, WithdrawAccount, WithdrawRecord};

verus! {

/// `first` if it failed, else `next`.
pub open spec fn chain(first: Result<(), BridgeError>, next: Result<(), BridgeError>) -> Result<(), BridgeError> {
    if first is Err {
        first
    } else {
        next
    }
}

/// The leaf hash of a transfer of `payload` to `receiver` through `program_id`.
pub open spec fn leaf_hash(origin: Seq<u8>, receiver: Seq<u8>, program_id: Seq<u8>, payload: Seq<u8>) -> Seq<u8> {
    keccak_of(origin + encode_utf8(SOLANA_NETWORK@) + receiver + program_id + payload)
}

/// The outcome of authorizing `leaf`: its path must be non-empty and the
/// root it folds to must be signed by `key`.
pub open spec fn proof_check(leaf: Seq<u8>, path: Seq<Seq<u8>>, signature: Seq<u8>, recovery_id: u8, key: Seq<u8>) -> Result<(), BridgeError> {
    if path.len() == 0 {
        Err(BridgeError::MalformedProof)
    } else {
        signature_check(merkle_root(leaf, path), signature, recovery_id, key)
    }
}

/// The records of one bridge deployment: its admin record and the withdraw
/// records, each at the address derived from its origin.
pub struct Bridge {
    pub program_id: [u8; 32],
    pub admin: AdminRecord,
    pub withdrawals: Vec<WithdrawAccount>,
}

impl Bridge {
    /// The address of the withdraw record for `origin`, if one can be derived.
    pub open spec fn withdraw_address_of(&self, origin: Seq<u8>) -> Option<Seq<u8>> {
        match found_program_address(seq![origin], self.program_id@) {
            Some((a, _)) => Some(a),
            None => None,
        }
    }

    /// Withdraw records sit at distinct addresses, each derived from the
    /// record's origin.
    pub open spec fn wf(&self) -> bool {
        &&& forall|i: int, j: int|
            0 <= i < j < self.withdrawals@.len() ==> self.withdrawals@[i].address@
                != self.withdrawals@[j].address@
        &&& forall|i: int|
            0 <= i < self.withdrawals@.len() ==> self.withdraw_address_of(
                self.withdrawals@[i].record.origin@,
            ) == Some(self.withdrawals@[i].address@)
    }

    pub open spec fn occupied(&self, address: Seq<u8>) -> bool {
        exists|i: int| 0 <= i < self.withdrawals@.len() && self.withdrawals@[i].address@ == address
    }

    /// The admin account must be the one derived from `seeds`.
    pub open spec fn admin_check(&self, seeds: Seq<u8>, admin_address: Seq<u8>) -> Result<(), BridgeError> {
        match program_address(seq![seeds], self.program_id@) {
            None => Err(BridgeError::InvalidSeeds),
            Some(a) => if a == admin_address {
                Ok(())
            } else {
                Err(BridgeError::WrongSeeds)
            },
        }
    }

    /// The admin account must be the derived one and initialized.
    pub open spec fn ready_check(&self, seeds: Seq<u8>, admin_address: Seq<u8>) -> Result<(), BridgeError> {
        chain(
            self.admin_check(seeds, admin_address),
            if self.admin.is_initialized {
                Ok(())
            } else {
                Err(BridgeError::NotInitialized)
            },
        )
    }

    /// The origin must not be redeemed yet: the address derived from it
    /// must be free.
    pub open spec fn replay_check(&self, origin: Seq<u8>) -> Result<(), BridgeError> {
        match self.withdraw_address_of(origin) {
            Some(a) => if self.occupied(a) {
                Err(BridgeError::AlreadyInUse)
            } else {
                Ok(())
            },
            None => Ok(()),
        }
    }

    /// The withdraw account must be the one derived from `origin`.
    pub open spec fn nonce_check(&self, origin: Seq<u8>, withdraw_address: Seq<u8>) -> Result<(), BridgeError> {
        if self.withdraw_address_of(origin) == Some(withdraw_address) {
            Ok(())
        } else {
            Err(BridgeError::WrongNonce)
        }
    }

    pub open spec fn init_admin_result(&self, seeds: Seq<u8>, admin_address: Seq<u8>) -> Result<(), BridgeError> {
        chain(
            self.admin_check(seeds, admin_address),
            if self.admin.is_initialized {
                Err(BridgeError::AlreadyInUse)
            } else {
                Ok(())
            },
        )
    }

    pub open spec fn transfer_ownership_result(
        &self,
        seeds: Seq<u8>,
        admin_address: Seq<u8>,
        new_public_key: Seq<u8>,
        signature: Seq<u8>,
        recovery_id: u8,
    ) -> Result<(), BridgeError> {
        chain(
            self.ready_check(seeds, admin_address),
            signature_check(keccak_of(new_public_key), signature, recovery_id, self.admin.public_key@),
        )
    }

    pub open spec fn deposit_native_result(
        &self,
        seeds: Seq<u8>,
        admin_address: Seq<u8>,
        preceding: Option<PrecedingOperation>,
        amount: u64,
    ) -> Result<(), BridgeError> {
        chain(
            self.ready_check(seeds, admin_address),
            commission_check(self.admin, admin_address, preceding, TokenType::Native, amount),
        )
    }

    pub open spec fn withdraw_native_result(
        &self,
        seeds: Seq<u8>,
        admin_address: Seq<u8>,
        receiver: Seq<u8>,
        withdraw_address: Seq<u8>,
        origin: Seq<u8>,
        amount: u64,
        path: Seq<Seq<u8>>,
        signature: Seq<u8>,
        recovery_id: u8,
        available: u64,
    ) -> Result<(), BridgeError> {
        chain(
            self.ready_check(seeds, admin_address),
            chain(
                self.replay_check(origin),
                chain(
                    proof_check(
                        leaf_hash(origin, receiver, self.program_id@, payload_bytes(TransferPayload::Native { amount })),
                        path,
                        signature,
                        recovery_id,
                        self.admin.public_key@,
                    ),
                    chain(
                        if available < amount {
                            Err(BridgeError::WrongBalance)
                        } else {
                            Ok(())
                        },
                        self.nonce_check(origin, withdraw_address),
                    ),
                ),
            ),
        )
    }

    /// A bridge with no admin and no withdraw records.
    pub fn new(program_id: [u8; 32]) -> (r: Self)
        ensures
            r.program_id == program_id,
            !r.admin.is_initialized,
            r.withdrawals@.len() == 0,
            r.wf(),
    {
        Bridge { program_id, admin: AdminRecord::uninitialized(), withdrawals: Vec::new() }
    }

    fn check_admin_address(&self, seeds: &[u8; 32], admin_address: &[u8; 32]) -> (r: Result<(), BridgeError>)
        ensures
            r == self.admin_check(seeds@, admin_address@),
    {
        let derived = create_program_address(&single_seed(seeds), &self.program_id);
        match derived {
            None => Err(BridgeError::InvalidSeeds),
            Some(a) => if bytes_eq(&a, admin_address) {
                Ok(())
            } else {
                Err(BridgeError::WrongSeeds)
            },
        }
    }

    pub(crate) fn check_ready(&self, seeds: &[u8; 32], admin_address: &[u8; 32]) -> (r: Result<(), BridgeError>)
        ensures
            r == self.ready_check(seeds@, admin_address@),
    {
        self.check_admin_address(seeds, admin_address)?;
        if self.admin.is_initialized {
            Ok(())
        } else {
            Err(BridgeError::NotInitialized)
        }
    }

    fn is_occupied(&self, address: &[u8; 32]) -> (r: bool)
        ensures
            r == self.occupied(address@),
    {
        let mut i: usize = 0;
        while i < self.withdrawals.len()
            invariant
                0 <= i <= self.withdrawals@.len(),
                forall|j: int| 0 <= j < i ==> self.withdrawals@[j].address@ != address@,
            decreases self.withdrawals@.len() - i,
        {
            if bytes_eq(&self.withdrawals[i].address, address) {
                return true;
            }
            i = i + 1;
        }
        false
    }

    pub(crate) fn check_replay(&self, origin: &[u8; 32]) -> (r: Result<(), BridgeError>)
        ensures
            r == self.replay_check(origin@),
    {
        match try_find_program_address(&single_seed(origin), &self.program_id) {
            Some((a, _)) => if self.is_occupied(&a) {
                Err(BridgeError::AlreadyInUse)
            } else {
                Ok(())
            },
            None => Ok(()),
        }
    }

    pub(crate) fn check_nonce(&self, origin: &[u8; 32], withdraw_address: &[u8; 32]) -> (r: Result<(), BridgeError>)
        ensures
            r == self.nonce_check(origin@, withdraw_address@),
    {
        match try_find_program_address(&single_seed(origin), &self.program_id) {
            Some((a, _)) => if bytes_eq(&a, withdraw_address) {
                Ok(())
            } else {
                Err(BridgeError::WrongNonce)
            },
            None => Err(BridgeError::WrongNonce),
        }
    }

    /// Stores `account`, whose address the checks have just found free and
    /// derived from the record's origin.
    pub(crate) fn insert_withdrawal(&mut self, account: WithdrawAccount)
        requires
            old(self).replay_check(account.record.origin@) is Ok,
            old(self).nonce_check(account.record.origin@, account.address@) is Ok,
        ensures
            old(self).wf() ==> final(self).wf(),
            final(self).program_id == old(self).program_id,
            final(self).admin == old(self).admin,
            final(self).withdrawals@ == old(self).withdrawals@.push(account),
    {
        self.withdrawals.push(account);
        assert(forall|i: int|
            0 <= i < old(self).withdrawals@.len() ==> self.withdrawals@[i] == old(self).withdrawals@[i]);
    }

    /// Initializes the admin record with the authority key and the
    /// commission program; fails if it is already initialized.
    pub fn process_init_admin(
        &mut self,
        seeds: &[u8; 32],
        admin_address: &[u8; 32],
        public_key: [u8; 64],
        commission_program: [u8; 32],
    ) -> (r: Result<(), BridgeError>)
        ensures
            old(self).wf() ==> final(self).wf(),
            r == old(self).init_admin_result(seeds@, admin_address@),
            r is Ok ==> final(self).admin == (AdminRecord {
                is_initialized: true,
                public_key,
                commission_program,
            }),
            r is Err ==> final(self).admin == old(self).admin,
            final(self).program_id == old(self).program_id,
            final(self).withdrawals@ == old(self).withdrawals@,
    {
        self.check_admin_address(seeds, admin_address)?;
        if self.admin.is_initialized {
            return Err(BridgeError::AlreadyInUse);
        }
        self.admin = AdminRecord { is_initialized: true, public_key, commission_program };
        Ok(())
    }

    /// Replaces the authority key with `new_public_key`, given a signature
    /// over the keccak-256 hash of the new key by the current key.
    pub fn process_transfer_ownership(
        &mut self,
        seeds: &[u8; 32],
        admin_address: &[u8; 32],
        new_public_key: [u8; 64],
        signature: &[u8; 64],
        recovery_id: u8,
    ) -> (r: Result<(), BridgeError>)
        ensures
            old(self).wf() ==> final(self).wf(),
            r == old(self).transfer_ownership_result(
                seeds@,
                admin_address@,
                new_public_key@,
                signature@,
                recovery_id,
            ),
            r is Ok ==> final(self).admin == (AdminRecord {
                public_key: new_public_key,
                ..old(self).admin
            }),
            r is Err ==> final(self).admin == old(self).admin,
            final(self).program_id == old(self).program_id,
            final(self).withdrawals@ == old(self).withdrawals@,
    {
        self.check_ready(seeds, admin_address)?;
        let message = keccak(new_public_key.as_slice());
        verify_ecdsa_signature(&message, signature, recovery_id, &self.admin.public_key)?;
        self.admin.public_key = new_public_key;
        Ok(())
    }

    /// Admits a native deposit of `amount` once its commission is charged.
    pub fn process_deposit_native(
        &self,
        seeds: &[u8; 32],
        admin_address: &[u8; 32],
        preceding: &Option<PrecedingOperation>,
        amount: u64,
    ) -> (r: Result<(), BridgeError>)
        ensures
            r == self.deposit_native_result(seeds@, admin_address@, *preceding, amount),
    {
        self.check_ready(seeds, admin_address)?;
        verify_commission_charged(admin_address, preceding, &self.admin, TokenType::Native, amount)
    }

    /// Checks that `leaf` is in a batch whose root the authority signed.
    pub(crate) fn check_proof(&self, leaf: &[u8; 32], path: &Vec<[u8; 32]>, signature: &[u8; 64], recovery_id: u8) -> (r: Result<(), BridgeError>)
        ensures
            r == proof_check(leaf@, path_view(path@), signature@, recovery_id, self.admin.public_key@),
    {
        let root = get_merkle_root(leaf, path)?;
        verify_ecdsa_signature(&root, signature, recovery_id, &self.admin.public_key)
    }

    /// Redeems the native withdrawal for `origin`: the leaf must be signed
    /// through the merkle path, the origin not yet redeemed and the bridge
    /// must hold `available >= amount`. On success the withdraw record is
    /// stored at `withdraw_address`.
    pub fn process_withdraw_native(
        &mut self,
        seeds: &[u8; 32],
        admin_address: &[u8; 32],
        receiver: &[u8; 32],
        withdraw_address: &[u8; 32],
        origin: &[u8; 32],
        amount: u64,
        path: &Vec<[u8; 32]>,
        signature: &[u8; 64],
        recovery_id: u8,
        available: u64,
    ) -> (r: Result<(), BridgeError>)
        ensures
            old(self).wf() ==> final(self).wf(),
            r == old(self).withdraw_native_result(
                seeds@,
                admin_address@,
                receiver@,
                withdraw_address@,
                origin@,
                amount,
                path_view(path@),
                signature@,
                recovery_id,
                available,
            ),
            final(self).program_id == old(self).program_id,
            final(self).admin == old(self).admin,
            r is Ok ==> final(self).withdrawals@ == old(self).withdrawals@.push(
                WithdrawAccount {
                    address: *withdraw_address,
                    record: WithdrawRecord {
                        is_initialized: true,
                        token_type: TokenType::Native,
                        origin: *origin,
                        mint: None,
                        amount,
                        receiver_address: *receiver,
                    },
                },
            ),
            r is Err ==> final(self).withdrawals@ == old(self).withdrawals@,
    {
        self.check_ready(seeds, admin_address)?;
        self.check_replay(origin)?;
        let operation = TransferOperation::new_native_transfer(amount);
        let node = ContentNode::new(*origin, *receiver, self.program_id, operation.get_operation());
        let leaf = node.hash();
        proof {
            assert(node.leaf_bytes() =~= origin@ + encode_utf8(SOLANA_NETWORK@) + receiver@
                + self.program_id@ + payload_bytes(TransferPayload::Native { amount }));
        }
        self.check_proof(&leaf, path, signature, recovery_id)?;
        if available < amount {
            return Err(BridgeError::WrongBalance);
        }
        self.check_nonce(origin, withdraw_address)?;
        let record = WithdrawRecord {
            is_initialized: true,
            token_type: TokenType::Native,
            origin: *origin,
            mint: None,
            amount,
            receiver_address: *receiver,
        };
        self.insert_withdrawal(WithdrawAccount { address: *withdraw_address, record });
        Ok(())
    }
}

/// The native withdraw record that a redeemed withdrawal stores.
pub open spec fn native_withdraw_account(
    withdraw_address: [u8; 32],
    origin: [u8; 32],
    amount: u64,
    receiver: [u8; 32],
) -> WithdrawAccount {
    WithdrawAccount {
        address: withdraw_address,
        record: WithdrawRecord {
            is_initialized: true,
            token_type: TokenType::Native,
            origin,
            mint: None,
            amount,
            receiver_address: receiver,
        },
    }
}

/// No two withdraw records share an origin.
pub proof fn lemma_origins_unique(b: Bridge)
    requires
        b.wf(),
    ensures
        forall|i: int, j: int|
            0 <= i < j < b.withdrawals@.len() ==> b.withdrawals@[i].record.origin@
                != b.withdrawals@[j].record.origin@,
{
}

/// Replay: once the withdrawal for `origin` has been redeemed, every later
/// withdrawal that names the same origin fails with `AlreadyInUse`, whatever
/// its receiver, record address, amount, proof and funds.
pub proof fn lemma_withdraw_replay_rejected(
    before: Bridge,
    after: Bridge,
    seeds: Seq<u8>,
    admin_address: Seq<u8>,
    withdraw_address: [u8; 32],
    origin: [u8; 32],
    receiver: [u8; 32],
    amount: u64,
    path: Seq<Seq<u8>>,
    signature: Seq<u8>,
    recovery_id: u8,
    available: u64,
    receiver2: Seq<u8>,
    withdraw_address2: Seq<u8>,
    amount2: u64,
    path2: Seq<Seq<u8>>,
    signature2: Seq<u8>,
    recovery_id2: u8,
    available2: u64,
)
    requires
        before.wf(),
        before.withdraw_native_result(
            seeds,
            admin_address,
            receiver@,
            withdraw_address@,
            origin@,
            amount,
            path,
            signature,
            recovery_id,
            available,
        ) is Ok,
        after.program_id == before.program_id,
        after.admin == before.admin,
        after.withdrawals@ == before.withdrawals@.push(
            native_withdraw_account(withdraw_address, origin, amount, receiver),
        ),
    ensures
        after.withdraw_native_result(
            seeds,
            admin_address,
            receiver2,
            withdraw_address2,
            origin@,
            amount2,
            path2,
            signature2,
            recovery_id2,
            available2,
        ) == Err::<(), BridgeError>(BridgeError::AlreadyInUse),
{
    let n = before.withdrawals@.len() as int;
    assert(after.withdrawals@[n].address@ == withdraw_address@);
    assert(after.occupied(withdraw_address@));
}

/// Commission: on a ready bridge a native deposit succeeds exactly when the
/// preceding operation exists, calls the configured commission program on
/// the commission account derived from the admin address, and charges
/// exactly `(Native, amount)`; otherwise it fails closed.
pub proof fn lemma_deposit_needs_matching_charge(
    b: Bridge,
    seeds: Seq<u8>,
    admin_address: Seq<u8>,
    preceding: Option<PrecedingOperation>,
    amount: u64,
)
    requires
        b.ready_check(seeds, admin_address) is Ok,
    ensures
        b.deposit_native_result(seeds, admin_address, preceding, amount) is Ok <==> {
            &&& preceding is Some
            &&& preceding->0.program_id@ == b.admin.commission_program@
            &&& preceding->0.accounts@.len() > 0
            &&& program_address(seq![commission_seed(), admin_address], b.admin.commission_program@)
                == Some(preceding->0.accounts@[0]@)
            &&& charge_commission_args(preceding->0.data@) == Some((TokenType::Native, amount))
        },
        b.deposit_native_result(seeds, admin_address, preceding, amount) is Err ==> b.deposit_native_result(
            seeds,
            admin_address,
            preceding,
            amount,
        )->Err_0.spec_kind() == ErrorKind::Auth,
{
}

/// Key rotation: rotating to `new_key` succeeds only when the signature
/// over the hash of `new_key` recovers to the current key, and on a ready
/// bridge exactly then; a signature that recovers to the new key itself is
/// always rejected, with `WrongSignature` on a ready bridge.
pub proof fn lemma_rotation_needs_current_key(
    b: Bridge,
    seeds: Seq<u8>,
    admin_address: Seq<u8>,
    new_key: Seq<u8>,
    signature: Seq<u8>,
    recovery_id: u8,
)
    ensures
        b.transfer_ownership_result(seeds, admin_address, new_key, signature, recovery_id) is Ok
            ==> secp256k1_recovered(keccak_of(new_key), recovery_id, signature) == Some(
            b.admin.public_key@,
        ),
        b.ready_check(seeds, admin_address) is Ok ==> (b.transfer_ownership_result(
            seeds,
            admin_address,
            new_key,
            signature,
            recovery_id,
        ) is Ok <==> secp256k1_recovered(keccak_of(new_key), recovery_id, signature) == Some(
            b.admin.public_key@,
        )),
        secp256k1_recovered(keccak_of(new_key), recovery_id, signature) == Some(new_key)
            && new_key != b.admin.public_key@ ==> b.transfer_ownership_result(
            seeds,
            admin_address,
            new_key,
            signature,
            recovery_id,
        ) is Err,
        b.ready_check(seeds, admin_address) is Ok && secp256k1_recovered(
            keccak_of(new_key),
            recovery_id,
            signature,
        ) == Some(new_key) && new_key != b.admin.public_key@ ==> b.transfer_ownership_result(
            seeds,
            admin_address,
            new_key,
            signature,
            recovery_id,
        ) == Err::<(), BridgeError>(BridgeError::WrongSignature),
{
}

/// End to end: a fresh bridge is initialized with key `k1` and commission
/// program `c`; a native deposit of 100 with no preceding charge fails with
/// an authorization error and one with a matching charge succeeds; a native
/// withdrawal of 100 for `origin`, whose root `k1` signed, succeeds and
/// stores its record; the identical withdrawal then fails with
/// `AlreadyInUse`.
pub proof fn lemma_end_to_end(
    fresh: Bridge,
    initialized: Bridge,
    redeemed: Bridge,
    seeds: Seq<u8>,
    admin_address: Seq<u8>,
    k1: [u8; 64],
    c: [u8; 32],
    charge: PrecedingOperation,
    withdraw_address: [u8; 32],
    origin: [u8; 32],
    receiver: [u8; 32],
    path: Seq<Seq<u8>>,
    signature: Seq<u8>,
    recovery_id: u8,
    available: u64,
)
    requires
        fresh.wf(),
        !fresh.admin.is_initialized,
        program_address(seq![seeds], fresh.program_id@) == Some(admin_address),
        initialized.program_id == fresh.program_id,
        initialized.withdrawals@ == fresh.withdrawals@,
        initialized.admin == (AdminRecord { is_initialized: true, public_key: k1, commission_program: c }),
        charge.program_id == c,
        charge.accounts@.len() > 0,
        program_address(seq![commission_seed(), admin_address], c@) == Some(charge.accounts@[0]@),
        charge_commission_args(charge.data@) == Some((TokenType::Native, 100u64)),
        fresh.withdraw_address_of(origin@) == Some(withdraw_address@),
        !fresh.occupied(withdraw_address@),
        path.len() > 0,
        secp256k1_recovered(
            merkle_root(
                leaf_hash(origin@, receiver@, fresh.program_id@, payload_bytes(TransferPayload::Native { amount: 100 })),
                path,
            ),
            recovery_id,
            signature,
        ) == Some(k1@),
        available >= 100,
        redeemed.program_id == initialized.program_id,
        redeemed.admin == initialized.admin,
        redeemed.withdrawals@ == initialized.withdrawals@.push(
            native_withdraw_account(withdraw_address, origin, 100, receiver),
        ),
    ensures
        fresh.init_admin_result(seeds, admin_address) is Ok,
        initialized.deposit_native_result(seeds, admin_address, None, 100) is Err,
        initialized.deposit_native_result(seeds, admin_address, None, 100)->Err_0.spec_kind()
            == ErrorKind::Auth,
        initialized.deposit_native_result(seeds, admin_address, Some(charge), 100) is Ok,
        initialized.withdraw_native_result(
            seeds,
            admin_address,
            receiver@,
            withdraw_address@,
            origin@,
            100,
            path,
            signature,
            recovery_id,
            available,
        ) is Ok,
        redeemed.withdraw_native_result(
            seeds,
            admin_address,
            receiver@,
            withdraw_address@,
            origin@,
            100,
            path,
            signature,
            recovery_id,
            available,
        ) == Err::<(), BridgeError>(BridgeError::AlreadyInUse),
{
    assert(initialized.withdraw_address_of(origin@) == fresh.withdraw_address_of(origin@));
    assert(initialized.occupied(withdraw_address@) == fresh.occupied(withdraw_address@));
    assert(initialized.wf());
    lemma_withdraw_replay_rejected(
        initialized,
        redeemed,
        seeds,
        admin_address,
        withdraw_address,
        origin,
        receiver,
        100,
        path,
        signature,
        recovery_id,
        available,
        receiver@,
        withdraw_address@,
        100,
        path,
        signature,
        recovery_id,
        available,
    );
}

} // verus!
