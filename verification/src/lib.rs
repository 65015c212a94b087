//! A verified canonical binary codec and transaction signing pipeline for a
//! Graphene-style blockchain. Values are projected deterministically into an
//! append-only little-endian byte stream, and an unsigned transaction is
//! hashed and signed together with a network identifier to produce a
//! broadcast-ready signature.

pub mod crypto;
pub mod enc;
pub mod hexstr;
pub mod laws;
pub mod operation;
pub mod text;
pub mod time;
pub mod transaction;
pub mod types;

pub use enc::encode_to_vec;
pub use enc::EncodeError;
pub use enc::HiveEncode;
pub use enc::HiveEncoderImpl;
pub use enc::LEB128;
pub use transaction::Transaction;
pub use transaction::UnsignedTransaction;
