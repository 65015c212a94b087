//! Transaction construction and signing. A builder derives the
//! reference-block binding from externally supplied chain data; the signer
//! encodes the unsigned transaction, hashes it together with a network id,
//! and attaches the resulting 65-byte signature in hex.

use vstd::prelude::*;

use crate::crypto::secp256k1_half_group_order;
use crate::crypto::sha256;
use crate::crypto::sha256_of;
use crate::crypto::spec_be_value;
use crate::crypto::spec_sign_of;
use crate::crypto::PrivateKey;
use crate::enc::HiveEncode;
use crate::enc::HiveEncoderImpl;
use crate::enc::VecWriter;
use crate::hexstr::encode_hex;
use crate::hexstr::hex_val;
use crate::hexstr::spec_hex_decode;
use crate::hexstr::spec_hex_of_bytes;
use crate::hexstr::spec_hex_val;
use crate::operation::Operation;
use crate::time::Timestamp;

use vstd::string::StrSliceExecFns;

verus! {

/// Which block marker a chain reference should be derived from: the current
/// head block (usable sooner, weaker replay protection) or the last block
/// the network guarantees cannot be displaced by reorganization.
#[derive(Debug, Clone, PartialEq, Eq, Structural)]
pub enum BlockchainMode {
    Reversible,
    Irreversible,
}

/// Failure to decode hex text: an odd number of digits, or a character that
/// is not a hex digit.
#[derive(Debug, Clone, Copy, PartialEq, Eq, Structural)]
pub enum DecodeHexError {
    OddLength,
    ParseInt,
}

/// A fatal transaction-construction failure: the reference-block id is
/// malformed, so the build aborts before any operation is touched and the
/// caller must re-fetch reference data.
#[derive(Debug, Clone, Copy, PartialEq, Eq, Structural)]
pub enum TransactionCreateError {
    /// The reference-block id is not valid hex.
    PrefixDecodeError(DecodeHexError),
    /// The reference-block id decodes to fewer than the 8 bytes the prefix
    /// window needs.
    PrefixTooShort,
}

/// Fresh per-transaction chain-reference data, as resolved by the caller's
/// query layer: the chain time and the block marker chosen by the mode.
pub struct TxSignProperties {
    pub time: Timestamp,
    pub ref_block_num: u32,
    pub ref_block_prefix: String,
}

/// True when the text is wholly made of hex digit pairs.
pub open spec fn spec_hex_ok(s: Seq<char>) -> bool {
    s.len() % 2 == 0 && forall|i: int| 0 <= i < s.len() ==> #[trigger] spec_hex_val(s[i]) is Some
}

/// Decodes hex text into bytes, two digits per byte; rejects odd-length
/// text and any character that is not a hex digit.
pub fn decode_hex(s: &str) -> (r: Result<Vec<u8>, DecodeHexError>)
    ensures
        r is Ok <==> spec_hex_ok(s@),
        r is Ok ==> r->Ok_0@ == spec_hex_decode(s@),
        s@.len() % 2 != 0 ==> r == Result::<Vec<u8>, DecodeHexError>::Err(
            DecodeHexError::OddLength,
        ),
        s@.len() % 2 == 0 && !spec_hex_ok(s@) ==> r == Result::<Vec<u8>, DecodeHexError>::Err(
            DecodeHexError::ParseInt,
        ),
{
    let n = s.unicode_len();
    if n % 2 != 0 {
        return Err(DecodeHexError::OddLength);
    }
    let mut out: Vec<u8> = Vec::new();
    let mut k: usize = 0;
    while k < n / 2
        invariant
            n == s@.len(),
            n % 2 == 0,
            k <= n / 2,
            out@.len() == k,
            forall|j: int| 0 <= j < 2 * k ==> #[trigger] spec_hex_val(s@[j]) is Some,
            forall|m: int|
                0 <= m < k ==> out@[m] == crate::hexstr::spec_hex_pair(s@, m),
        decreases n / 2 - k,
    {
        let c_hi = s.get_char(2 * k);
        let c_lo = s.get_char(2 * k + 1);
        let hi = match hex_val(c_hi) {
            Some(v) => v,
            None => {
                return Err(DecodeHexError::ParseInt);
            },
        };
        let lo = match hex_val(c_lo) {
            Some(v) => v,
            None => {
                return Err(DecodeHexError::ParseInt);
            },
        };
        out.push(16 * hi + lo);
        k = k + 1;
    }
    proof {
        assert(out@ =~= spec_hex_decode(s@));
    }
    Ok(out)
}

/// The 32-bit little-endian value of the fixed 4-byte window (bytes 4 to 7)
/// of a decoded block id.
pub open spec fn spec_prefix_u32(bytes: Seq<u8>) -> u32
    recommends
        bytes.len() >= 8,
{
    (bytes[4] + 0x100 * bytes[5] + 0x1_0000 * bytes[6] + 0x100_0000 * bytes[7]) as u32
}

/// An unsigned transaction: immutable once built, consumed exactly once by
/// signing. Extensions are always empty in this design.
#[derive(Debug)]
pub struct UnsignedTransaction {
    pub ref_block_num: u16,
    pub ref_block_prefix: u32,
    pub expiration: Timestamp,
    pub operations: Vec<Operation>,
    pub extensions: Vec<()>,
}

impl HiveEncode for UnsignedTransaction {
    open spec fn enc_ok(&self) -> bool {
        self.expiration.enc_ok() && self.operations.enc_ok() && self.extensions.enc_ok()
    }

    /// The canonical signing image: truncated reference block number, the
    /// 4-byte prefix, the expiration, the operation list, the (empty)
    /// extension list — fields in declared order, no names.
    open spec fn enc(&self) -> Seq<u8> {
        self.ref_block_num.enc() + self.ref_block_prefix.enc() + self.expiration.enc()
            + self.operations.enc() + self.extensions.enc()
    }

    fn encode(&self, encoder: &mut HiveEncoderImpl) -> (r: Result<
        (),
        crate::enc::EncodeError,
    >) {
        self.ref_block_num.encode(encoder)?;
        self.ref_block_prefix.encode(encoder)?;
        self.expiration.encode(encoder)?;
        self.operations.encode(encoder)?;
        self.extensions.encode(encoder)?;
        proof {
            if self.enc_ok() {
                assert(old(encoder)@ + self.ref_block_num.enc() + self.ref_block_prefix.enc()
                    + self.expiration.enc() + self.operations.enc() + self.extensions.enc() =~= old(
                    encoder,
                )@ + self.enc());
            }
        }
        Ok(())
    }
}

/// A finished transaction: the unsigned fields plus the ordered list of
/// hex-encoded 65-byte signatures. Terminal value, handed to the broadcast
/// collaborator.
#[derive(Debug)]
pub struct Transaction {
    pub ref_block_num: u16,
    pub ref_block_prefix: u32,
    pub expiration: Timestamp,
    pub operations: Vec<Operation>,
    pub signatures: Vec<String>,
    pub extensions: Vec<()>,
}

/// The number of seconds a freshly built transaction stays valid: a fixed
/// ten-minute window past the reference time.
pub const EXPIRATION_WINDOW_SECS: i64 = 600;

/// The 32-byte id of the production network (the published default); the
/// test network and others override it at the signer's call site.
pub open spec fn spec_default_chain_id() -> Seq<u8> {
    seq![
        0xbeu8, 0xea, 0xb0, 0xde, 0, 0, 0, 0, 0, 0, 0, 0, 0, 0, 0, 0, 0, 0, 0, 0, 0, 0, 0, 0, 0,
        0, 0, 0, 0, 0, 0, 0,
    ]
}

/// The 32-byte id of the production network.
pub fn default_chain_id() -> (r: Vec<u8>)
    ensures
        r@ == spec_default_chain_id(),
{
    let r: Vec<u8> = vec![
        0xbe, 0xea, 0xb0, 0xde, 0, 0, 0, 0, 0, 0, 0, 0, 0, 0, 0, 0, 0, 0, 0, 0, 0, 0, 0, 0, 0, 0,
        0, 0, 0, 0, 0, 0,
    ];
    proof {
        assert(r@ =~= spec_default_chain_id());
    }
    r
}

/// The network id bytes the signer prepends to the encoding: the caller's
/// override when given, else the production id.
pub open spec fn spec_chain_id_bytes(chain_id: Option<[u8; 32]>) -> Seq<u8> {
    match chain_id {
        Option::Some(id) => id@,
        Option::None => spec_default_chain_id(),
    }
}

/// The hex signature entry that signing `message` with a key produces: the
/// named deterministic signature over the SHA-256 digest of the message,
/// assembled as `[recovery_id + 31] || r || s` and spelled in lowercase hex.
pub open spec fn spec_signature_entry(message: Seq<u8>, key_bytes: Seq<u8>) -> Seq<char> {
    let sig = spec_sign_of(sha256_of(message), key_bytes);
    spec_hex_of_bytes(seq![(sig.0 + 31) as u8] + sig.1)
}

/// Resolves fresh chain state into the reference data the builder consumes:
/// the mode picks which block marker to trust. Reversible mode uses the head
/// block; irreversible mode uses the last irreversible block and needs its
/// id, which only the caller's query layer can fetch — `None` there is the
/// one failure.
pub fn resolve_tx_sign_properties(
    mode: &BlockchainMode,
    time: Timestamp,
    head_block_number: u32,
    head_block_id: String,
    last_irreversible_block_num: u32,
    irreversible_block_id: Option<String>,
) -> (r: Option<TxSignProperties>)
    ensures
        mode is Reversible ==> r is Some && r->Some_0.time == time
            && r->Some_0.ref_block_num == head_block_number
            && r->Some_0.ref_block_prefix@ == head_block_id@,
        mode is Irreversible ==> ((r is Some <==> irreversible_block_id is Some) && (r is Some
            ==> r->Some_0.time == time && r->Some_0.ref_block_num == last_irreversible_block_num
            && r->Some_0.ref_block_prefix@ == irreversible_block_id->0@)),
{
    match mode {
        BlockchainMode::Reversible => Some(
            TxSignProperties {
                time,
                ref_block_num: head_block_number,
                ref_block_prefix: head_block_id,
            },
        ),
        BlockchainMode::Irreversible => {
            match irreversible_block_id {
                Some(block_id) => Some(
                    TxSignProperties {
                        time,
                        ref_block_num: last_irreversible_block_num,
                        ref_block_prefix: block_id,
                    },
                ),
                None => None,
            }
        },
    }
}

impl UnsignedTransaction {
    /// True at runtime exactly when encoding (and so signing) this
    /// transaction will succeed: the expiration is in range and every
    /// operation is representable. Callers outside the proof world test this
    /// before `sign`.
    pub fn is_encodable(&self) -> (r: bool)
        ensures
            r == self.enc_ok(),
    {
        if !self.expiration.is_encodable() {
            return false;
        }
        let mut i: usize = 0;
        while i < self.operations.len()
            invariant
                i <= self.operations@.len(),
                forall|j: int| 0 <= j < i ==> #[trigger] self.operations@[j].enc_ok(),
            decreases self.operations@.len() - i,
        {
            if !self.operations[i].is_encodable() {
                return false;
            }
            i = i + 1;
        }
        true
    }

    /// Assembles an unsigned transaction from fresh chain-reference data and
    /// an operation list. The reference block number is truncated to 16
    /// bits; the prefix is the little-endian 32-bit value of bytes 4 to 7 of
    /// the hex-decoded block id; the expiration is the reference time plus
    /// the fixed ten-minute window. Malformed or too-short block-id hex
    /// aborts before any operation is touched.
    pub fn new(properties: &TxSignProperties, operations: Vec<Operation>) -> (r: Result<
        UnsignedTransaction,
        TransactionCreateError,
    >)
        requires
            properties.time.secs <= i64::MAX - EXPIRATION_WINDOW_SECS,
        ensures
            r is Ok <==> (spec_hex_ok(properties.ref_block_prefix@) && spec_hex_decode(
                properties.ref_block_prefix@,
            ).len() >= 8),
            r is Ok ==> ({
                let t = r->Ok_0;
                &&& t.ref_block_num == (properties.ref_block_num % 0x10000) as u16
                &&& t.ref_block_prefix == spec_prefix_u32(
                    spec_hex_decode(properties.ref_block_prefix@),
                )
                &&& t.expiration.secs == properties.time.secs + EXPIRATION_WINDOW_SECS
                &&& t.operations == operations
                &&& t.extensions@ =~= Seq::<()>::empty()
            }),
            properties.ref_block_prefix@.len() % 2 != 0 ==> r
                == Result::<UnsignedTransaction, TransactionCreateError>::Err(
                TransactionCreateError::PrefixDecodeError(DecodeHexError::OddLength),
            ),
            properties.ref_block_prefix@.len() % 2 == 0 && !spec_hex_ok(
                properties.ref_block_prefix@,
            ) ==> r == Result::<UnsignedTransaction, TransactionCreateError>::Err(
                TransactionCreateError::PrefixDecodeError(DecodeHexError::ParseInt),
            ),
            spec_hex_ok(properties.ref_block_prefix@) && spec_hex_decode(
                properties.ref_block_prefix@,
            ).len() < 8 ==> r == Result::<UnsignedTransaction, TransactionCreateError>::Err(
                TransactionCreateError::PrefixTooShort,
            ),
    {
        let prefix_bytes = match decode_hex(properties.ref_block_prefix.as_str()) {
            Ok(bytes) => bytes,
            Err(e) => {
                return Err(TransactionCreateError::PrefixDecodeError(e));
            },
        };
        if prefix_bytes.len() < 8 {
            return Err(TransactionCreateError::PrefixTooShort);
        }
        let b4 = prefix_bytes[4];
        let b5 = prefix_bytes[5];
        let b6 = prefix_bytes[6];
        let b7 = prefix_bytes[7];
        let ref_block_prefix: u32 = b4 as u32 + 0x100 * (b5 as u32) + 0x1_0000 * (b6 as u32)
            + 0x100_0000 * (b7 as u32);
        let ref_block_num: u16 = (properties.ref_block_num % 0x10000) as u16;
        Ok(
            UnsignedTransaction {
                operations,
                ref_block_num,
                ref_block_prefix,
                expiration: Timestamp {
                    secs: properties.time.secs + EXPIRATION_WINDOW_SECS,
                },
                extensions: Vec::new(),
            },
        )
    }

    /// Encodes this transaction, hashes the network id followed by the
    /// encoding, signs the digest, and attaches the single resulting
    /// signature: the 65-byte layout `[recovery_id + 31] || r || s`, spelled
    /// in hex. The unsigned transaction is consumed and cannot be re-signed.
    pub fn sign(self, key: &PrivateKey, chain_id: Option<[u8; 32]>) -> (r: Transaction)
        requires
            self.enc_ok(),
        ensures
            r.ref_block_num == self.ref_block_num,
            r.ref_block_prefix == self.ref_block_prefix,
            r.expiration == self.expiration,
            r.operations == self.operations,
            r.extensions == self.extensions,
            r.signatures@.len() == 1,
            r.signatures@[0]@ == spec_signature_entry(
                spec_chain_id_bytes(chain_id) + self.enc(),
                key@,
            ),
            ({
                let sig = spec_sign_of(
                    sha256_of(spec_chain_id_bytes(chain_id) + self.enc()),
                    key@,
                );
                sig.0 <= 3 && sig.1.len() == 64 && 1 <= spec_be_value(sig.1.skip(32))
                    <= secp256k1_half_group_order()
            }),
    {
        let mut encoder = HiveEncoderImpl::new(VecWriter::new());
        match self.encode(&mut encoder) {
            Ok(()) => {},
            Err(_) => {
                proof {
                    assert(false);
                }
            },
        }
        let mut encoded = encoder.into_writer().collect();
        proof {
            assert(encoded@ =~= self.enc());
        }
        let mut message: Vec<u8> = match chain_id {
            Some(id) => {
                let mut v: Vec<u8> = Vec::new();
                v.extend_from_slice(id.as_slice());
                proof {
                    assert(v@ =~= spec_chain_id_bytes(chain_id));
                }
                v
            },
            None => default_chain_id(),
        };
        message.append(&mut encoded);
        proof {
            assert(message@ == spec_chain_id_bytes(chain_id) + self.enc());
        }
        let digest = sha256(&message);
        let (recid, sig) = key.sign_digest(&digest);
        let ghost gsig: Seq<u8> = sig@;
        let mut buffer: Vec<u8> = Vec::new();
        buffer.push(recid + 31);
        let mut sig_tail = sig;
        buffer.append(&mut sig_tail);
        proof {
            assert(buffer@ =~= seq![(recid + 31) as u8] + gsig);
        }
        let hex_sig = encode_hex(&buffer);
        let mut signatures: Vec<String> = Vec::new();
        signatures.push(hex_sig);
        let out = Transaction {
            ref_block_num: self.ref_block_num,
            ref_block_prefix: self.ref_block_prefix,
            signatures,
            operations: self.operations,
            expiration: self.expiration,
            extensions: self.extensions,
        };
        proof {
            assert(out.signatures@[0]@ == spec_signature_entry(
                spec_chain_id_bytes(chain_id) + self.enc(),
                key@,
            ));
        }
        out
    }
}

} // verus!
