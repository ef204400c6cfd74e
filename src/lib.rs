//! Authorization core of a cross-chain asset bridge: canonical leaf
//! encoding, merkle-proof folding, secp256k1 key-recovery checks, the admin
//! key store, the per-origin replay guard and the deposit commission check.

pub mod address;
pub mod bytes;
pub mod commission;
pub mod crypto;
pub mod ecdsa;
pub mod error;
pub mod instruction;
pub mod merkle;
pub mod merkle_node;
pub mod metadata;
pub mod processor;
pub mod state;
pub mod token_flow;
