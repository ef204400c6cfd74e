//! The persisted records of the bridge.
use vstd::prelude::*;
use crate::bytes::{
    append_bytes, append_u64_le, le_bytes, le_value, lemma_le_bytes_of_value, read_array32,
    read_array64, read_u64_le,
};
use crate::error::BridgeError;

verus! {

/// The kind of asset a deposit or withdrawal moves.
#[derive(Clone, Copy, Debug, PartialEq, Eq, Structural)]
pub enum TokenType {
    Native,
    FT,
    NFT,
}

/// The bridge's singleton admin record: the authority key and the
/// commission program.
#[derive(Clone, Copy, Debug)]
pub struct AdminRecord {
    pub is_initialized: bool,
    /// Uncompressed secp256k1 public key of the trusted authority.
    pub public_key: [u8; 64],
    /// The program that charges deposit commissions.
    pub commission_program: [u8; 32],
}

/// The record of one redeemed cross-chain event.
#[derive(Clone, Copy, Debug)]
pub struct WithdrawRecord {
    pub is_initialized: bool,
    pub token_type: TokenType,
    pub origin: [u8; 32],
    /// The asset withdrawn; absent for the native coin.
    pub mint: Option<[u8; 32]>,
    pub amount: u64,
    pub receiver_address: [u8; 32],
}

/// A withdraw record and the address it is stored at.
#[derive(Clone, Copy, Debug)]
pub struct WithdrawAccount {
    pub address: [u8; 32],
    pub record: WithdrawRecord,
}

/// Bytes an admin record occupies.
pub const ADMIN_RECORD_SIZE: usize = 97;

/// Bytes reserved for a withdraw record (one with a mint fills them all).
pub const WITHDRAW_RECORD_SIZE: usize = 107;

pub open spec fn flag_byte(b: bool) -> u8 {
    if b {
        1
    } else {
        0
    }
}

pub open spec fn token_byte(t: TokenType) -> u8 {
    match t {
        TokenType::Native => 0,
        TokenType::FT => 1,
        TokenType::NFT => 2,
    }
}

/// Stored layout of an admin record: the flag (0 or 1), the public key and
/// the commission program.
pub open spec fn admin_record_bytes(a: AdminRecord) -> Seq<u8> {
    seq![flag_byte(a.is_initialized)] + a.public_key@ + a.commission_program@
}

pub open spec fn mint_bytes(m: Option<[u8; 32]>) -> Seq<u8> {
    match m {
        None => seq![0u8],
        Some(k) => seq![1u8] + k@,
    }
}

/// Stored layout of a withdraw record: the flag, the token kind (0 native,
/// 1 fungible, 2 non-fungible), the origin, the mint (a presence byte, then
/// the mint if present), the amount as a little-endian `u64` and the
/// receiver.
pub open spec fn withdraw_record_bytes(w: WithdrawRecord) -> Seq<u8> {
    seq![flag_byte(w.is_initialized), token_byte(w.token_type)] + w.origin@ + mint_bytes(w.mint)
        + le_bytes(w.amount as nat, 8) + w.receiver_address@
}

/// Whether stored bytes begin with a well-formed admin record.
pub open spec fn admin_record_readable(data: Seq<u8>) -> bool {
    data.len() >= ADMIN_RECORD_SIZE && data[0] <= 1
}

/// Whether stored bytes begin with a well-formed withdraw record.
pub open spec fn withdraw_record_readable(data: Seq<u8>) -> bool {
    &&& data.len() >= 35
    &&& data[0] <= 1
    &&& data[1] <= 2
    &&& data[34] <= 1
    &&& data.len() >= if data[34] == 0 {
        75int
    } else {
        107int
    }
}

/// A record is determined by its stored bytes: reading back what `pack`
/// wrote gives the same admin record.
pub proof fn lemma_admin_record_bytes_determine_record(a: AdminRecord, b: AdminRecord)
    requires
        admin_record_bytes(a) == admin_record_bytes(b),
    ensures
        a == b,
{
    let x = admin_record_bytes(a);
    assert(a.public_key@ =~= x.subrange(1, 65));
    assert(b.public_key@ =~= x.subrange(1, 65));
    assert(a.commission_program@ =~= x.subrange(65, 97));
    assert(b.commission_program@ =~= x.subrange(65, 97));
    assert(a.public_key =~= b.public_key);
    assert(a.commission_program =~= b.commission_program);
    assert(x[0] == flag_byte(a.is_initialized));
}

/// A record is determined by its stored bytes: reading back what `pack`
/// wrote gives the same withdraw record.
pub proof fn lemma_withdraw_record_bytes_determine_record(a: WithdrawRecord, b: WithdrawRecord)
    requires
        withdraw_record_bytes(a) == withdraw_record_bytes(b),
    ensures
        a == b,
{
    let x = withdraw_record_bytes(a);
    assert(x[0] == flag_byte(a.is_initialized) && x[0] == flag_byte(b.is_initialized));
    assert(x[1] == token_byte(a.token_type) && x[1] == token_byte(b.token_type));
    assert(a.origin@ =~= x.subrange(2, 34));
    assert(b.origin@ =~= x.subrange(2, 34));
    assert(a.origin =~= b.origin);
    assert(x[34] == mint_bytes(a.mint)[0] && x[34] == mint_bytes(b.mint)[0]);
    let k: int = if a.mint is Some {
        67
    } else {
        35
    };
    lemma_le_bytes_len(a.amount as nat, 8);
    lemma_le_bytes_len(b.amount as nat, 8);
    assert(b.mint is Some <==> a.mint is Some);
    assert(le_bytes(a.amount as nat, 8) =~= x.subrange(k, k + 8));
    assert(le_bytes(b.amount as nat, 8) =~= x.subrange(k, k + 8));
    assert(a.receiver_address@ =~= x.subrange(k + 8, k + 40));
    assert(b.receiver_address@ =~= x.subrange(k + 8, k + 40));
    assert(a.receiver_address =~= b.receiver_address);
    lemma_le_bytes_value(a.amount as nat);
    lemma_le_bytes_value(b.amount as nat);
    if let Some(m) = a.mint {
        let n = b.mint->0;
        assert(m@ =~= x.subrange(35, 67));
        assert(n@ =~= x.subrange(35, 67));
        assert(m =~= n);
    }
}

proof fn lemma_le_bytes_len(n: nat, w: nat)
    ensures
        le_bytes(n, w).len() == w,
    decreases w,
{
    if w > 0 {
        lemma_le_bytes_len(n / 256, (w - 1) as nat);
    }
}

proof fn lemma_le_bytes_value(n: nat)
    requires
        n <= u64::MAX,
    ensures
        le_value(le_bytes(n, 8)) == n,
{
    lemma_le_value_of_bytes(n, 8);
    assert(crate::bytes::pow256(8) == 0x1_0000_0000_0000_0000) by {
        reveal_with_fuel(crate::bytes::pow256, 9);
    }
}

proof fn lemma_le_value_of_bytes(n: nat, w: nat)
    ensures
        le_value(le_bytes(n, w)) == n % crate::bytes::pow256(w),
    decreases w,
{
    if w > 0 {
        let s = le_bytes(n, w);
        lemma_le_value_of_bytes(n / 256, (w - 1) as nat);
        assert(s.subrange(1, s.len() as int) =~= le_bytes(n / 256, (w - 1) as nat));
        let p = crate::bytes::pow256((w - 1) as nat);
        assert(p > 0) by {
            lemma_pow256_positive((w - 1) as nat);
        }
        assert(n % 256 + 256 * ((n / 256) % p) == n % (256 * p)) by {
            vstd::arithmetic::div_mod::lemma_mod_breakdown(n as int, 256, p as int);
        }
    }
}

proof fn lemma_pow256_positive(n: nat)
    ensures
        crate::bytes::pow256(n) > 0,
    decreases n,
{
    if n > 0 {
        lemma_pow256_positive((n - 1) as nat);
    }
}

fn token_type_from_byte(b: u8) -> (r: TokenType)
    requires
        b <= 2,
    ensures
        token_byte(r) == b,
{
    if b == 0 {
        TokenType::Native
    } else if b == 1 {
        TokenType::FT
    } else {
        TokenType::NFT
    }
}

impl WithdrawRecord {
    /// The stored bytes of the record.
    pub fn pack(&self) -> (r: Vec<u8>)
        ensures
            r@ == withdraw_record_bytes(*self),
    {
        let mut v: Vec<u8> = Vec::new();
        v.push(if self.is_initialized {
            1
        } else {
            0
        });
        v.push(
            match self.token_type {
                TokenType::Native => 0,
                TokenType::FT => 1,
                TokenType::NFT => 2,
            },
        );
        append_bytes(&mut v, self.origin.as_slice());
        match &self.mint {
            None => v.push(0),
            Some(m) => {
                v.push(1);
                append_bytes(&mut v, m.as_slice());
            },
        }
        append_u64_le(&mut v, self.amount);
        append_bytes(&mut v, self.receiver_address.as_slice());
        assert(v@ =~= withdraw_record_bytes(*self));
        v
    }

    /// Reads the record that `data` begins with.
    pub fn unpack(data: &[u8]) -> (r: Result<WithdrawRecord, BridgeError>)
        ensures
            r is Ok <==> withdraw_record_readable(data@),
            r is Ok ==> withdraw_record_bytes(r->Ok_0) == data@.subrange(
                0,
                withdraw_record_bytes(r->Ok_0).len() as int,
            ),
            r is Err ==> r == Err::<WithdrawRecord, BridgeError>(BridgeError::InvalidRecord),
    {
        if data.len() < 35 || data[0] > 1 || data[1] > 2 || data[34] > 1 {
            return Err(BridgeError::InvalidRecord);
        }
        let has_mint = data[34] == 1;
        let end: usize = if has_mint {
            107
        } else {
            75
        };
        if data.len() < end {
            return Err(BridgeError::InvalidRecord);
        }
        let origin = read_array32(data, 2);
        let mint = if has_mint {
            Some(read_array32(data, 35))
        } else {
            None
        };
        let k: usize = if has_mint {
            67
        } else {
            35
        };
        let amount = read_u64_le(data, k);
        let receiver_address = read_array32(data, k + 8);
        let record = WithdrawRecord {
            is_initialized: data[0] == 1,
            token_type: token_type_from_byte(data[1]),
            origin,
            mint,
            amount,
            receiver_address,
        };
        proof {
            lemma_le_bytes_of_value(data@.subrange(k as int, k + 8));
            assert(withdraw_record_bytes(record) =~= data@.subrange(0, end as int));
        }
        Ok(record)
    }
}

impl AdminRecord {
    /// The stored bytes of the record.
    pub fn pack(&self) -> (r: Vec<u8>)
        ensures
            r@ == admin_record_bytes(*self),
    {
        let mut v: Vec<u8> = Vec::new();
        v.push(if self.is_initialized {
            1
        } else {
            0
        });
        append_bytes(&mut v, self.public_key.as_slice());
        append_bytes(&mut v, self.commission_program.as_slice());
        assert(v@ =~= admin_record_bytes(*self));
        v
    }

    /// Reads the record that `data` begins with.
    pub fn unpack(data: &[u8]) -> (r: Result<AdminRecord, BridgeError>)
        ensures
            r is Ok <==> admin_record_readable(data@),
            r is Ok ==> admin_record_bytes(r->Ok_0) == data@.subrange(0, ADMIN_RECORD_SIZE as int),
            r is Err ==> r == Err::<AdminRecord, BridgeError>(BridgeError::InvalidRecord),
    {
        if data.len() < ADMIN_RECORD_SIZE || data[0] > 1 {
            return Err(BridgeError::InvalidRecord);
        }
        let record = AdminRecord {
            is_initialized: data[0] == 1,
            public_key: read_array64(data, 1),
            commission_program: read_array32(data, 65),
        };
        assert(admin_record_bytes(record) =~= data@.subrange(0, ADMIN_RECORD_SIZE as int));
        Ok(record)
    }

    /// A record that has not been initialized.
    pub fn uninitialized() -> (r: Self)
        ensures
            !r.is_initialized,
    {
        AdminRecord { is_initialized: false, public_key: [0; 64], commission_program: [0; 32] }
    }
}

} // verus!
