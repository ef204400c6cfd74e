//! The canonical leaf of a transfer intent.
use vstd::prelude::*;
use vstd::utf8::encode_utf8;
use crate::bytes::{amount_bytes, append_bytes, be_bytes};
use crate::crypto::{keccak, keccak_of};

verus! {

/// The tag of the destination chain, hashed into every leaf.
pub const SOLANA_NETWORK: &'static str = "Solana";

/// What a transfer moves.
pub enum TransferPayload {
    /// The chain's native coin.
    Native { amount: u64 },
    /// A fungible token; `decimals` is not part of the leaf.
    Fungible { mint: [u8; 32], amount: u64, name: String, symbol: String, uri: String, decimals: u8 },
    /// A non-fungible token, of amount one.
    NonFungible { mint: [u8; 32], collection: Option<[u8; 32]>, name: String, symbol: String, uri: String },
}

/// A transfer intent that can be encoded into a leaf.
pub struct TransferOperation {
    pub payload: TransferPayload,
}

/// Something that encodes to the payload bytes of a leaf.
pub trait Operation {
    spec fn operation_bytes(&self) -> Seq<u8>;

    fn get_operation(&self) -> (r: Vec<u8>)
        ensures
            r@ == self.operation_bytes(),
    ;
}

pub open spec fn zeros32() -> Seq<u8> {
    Seq::new(32, |i: int| 0u8)
}

pub open spec fn text_bytes(name: String, symbol: String, uri: String) -> Seq<u8> {
    encode_utf8(name@) + encode_utf8(symbol@) + encode_utf8(uri@)
}

/// Payload bytes: asset id (32 zero bytes for the native coin), for a
/// non-fungible token the collection (or 32 zero bytes), the amount as a
/// 32-byte big-endian integer, then name, symbol and uri as raw UTF-8.
pub open spec fn payload_bytes(p: TransferPayload) -> Seq<u8> {
    match p {
        TransferPayload::Native { amount } => zeros32() + be_bytes(amount as nat, 32),
        TransferPayload::Fungible { mint, amount, name, symbol, uri, .. } => mint@ + be_bytes(amount as nat, 32)
            + text_bytes(name, symbol, uri),
        TransferPayload::NonFungible { mint, collection, name, symbol, uri } => mint@ + match collection {
            Some(c) => c@,
            None => zeros32(),
        } + be_bytes(1, 32) + text_bytes(name, symbol, uri),
    }
}

fn append_text(v: &mut Vec<u8>, s: &String)
    ensures
        final(v)@ == old(v)@ + encode_utf8(s@),
{
    append_bytes(v, s.as_str().as_bytes());
}

fn append_zeros32(v: &mut Vec<u8>)
    ensures
        final(v)@ == old(v)@ + zeros32(),
{
    let z: [u8; 32] = [0; 32];
    assert(z@ =~= zeros32());
    append_bytes(v, z.as_slice());
}

impl TransferOperation {
    pub fn new_native_transfer(amount: u64) -> (r: Self)
        ensures
            r.payload == (TransferPayload::Native { amount }),
    {
        TransferOperation { payload: TransferPayload::Native { amount } }
    }

    pub fn new_ft_transfer(mint: [u8; 32], amount: u64, name: String, symbol: String, uri: String, decimals: u8) -> (r: Self)
        ensures
            r.payload == (TransferPayload::Fungible { mint, amount, name, symbol, uri, decimals }),
    {
        TransferOperation { payload: TransferPayload::Fungible { mint, amount, name, symbol, uri, decimals } }
    }

    pub fn new_nft_transfer(mint: [u8; 32], collection: Option<[u8; 32]>, name: String, symbol: String, uri: String) -> (r: Self)
        ensures
            r.payload == (TransferPayload::NonFungible { mint, collection, name, symbol, uri }),
    {
        TransferOperation { payload: TransferPayload::NonFungible { mint, collection, name, symbol, uri } }
    }
}

impl Operation for TransferOperation {
    open spec fn operation_bytes(&self) -> Seq<u8> {
        payload_bytes(self.payload)
    }

    fn get_operation(&self) -> (r: Vec<u8>) {
        let mut data: Vec<u8> = Vec::new();
        match &self.payload {
            TransferPayload::Native { amount } => {
                append_zeros32(&mut data);
                append_bytes(&mut data, amount_bytes(*amount).as_slice());
            },
            TransferPayload::Fungible { mint, amount, name, symbol, uri, .. } => {
                append_bytes(&mut data, mint.as_slice());
                append_bytes(&mut data, amount_bytes(*amount).as_slice());
                append_text(&mut data, name);
                append_text(&mut data, symbol);
                append_text(&mut data, uri);
            },
            TransferPayload::NonFungible { mint, collection, name, symbol, uri } => {
                append_bytes(&mut data, mint.as_slice());
                match collection {
                    Some(c) => append_bytes(&mut data, c.as_slice()),
                    None => append_zeros32(&mut data),
                }
                append_bytes(&mut data, amount_bytes(1).as_slice());
                append_text(&mut data, name);
                append_text(&mut data, symbol);
                append_text(&mut data, uri);
            },
        }
        assert(data@ =~= payload_bytes(self.payload));
        data
    }
}

/// A leaf of the batch tree: the origin event, the destination chain, the
/// receiver, the destination program and the payload bytes.
pub struct ContentNode {
    pub origin: [u8; 32],
    pub network_to: String,
    pub receiver: [u8; 32],
    pub program_id: [u8; 32],
    pub data: Vec<u8>,
}

impl ContentNode {
    /// The bytes that are hashed into the leaf, in order.
    pub open spec fn leaf_bytes(&self) -> Seq<u8> {
        self.origin@ + encode_utf8(self.network_to@) + self.receiver@ + self.program_id@ + self.data@
    }

    pub fn new(origin: [u8; 32], receiver: [u8; 32], program_id: [u8; 32], data: Vec<u8>) -> (r: Self)
        ensures
            r.origin == origin,
            r.network_to@ == SOLANA_NETWORK@,
            r.receiver == receiver,
            r.program_id == program_id,
            r.data@ == data@,
    {
        ContentNode { origin, network_to: SOLANA_NETWORK.to_owned(), receiver, program_id, data }
    }

    /// The keccak-256 leaf hash.
    pub fn hash(&self) -> (r: [u8; 32])
        ensures
            r@ == keccak_of(self.leaf_bytes()),
    {
        let mut bytes: Vec<u8> = Vec::new();
        append_bytes(&mut bytes, self.origin.as_slice());
        append_text(&mut bytes, &self.network_to);
        append_bytes(&mut bytes, self.receiver.as_slice());
        append_bytes(&mut bytes, self.program_id.as_slice());
        append_bytes(&mut bytes, self.data.as_slice());
        keccak(bytes.as_slice())
    }
}

} // verus!
