//! Key material and the cryptographic primitives behind signing. Private and
//! public keys carry their raw bytes; the canonical text form of a key is
//! versioned, checksummed base58. The hash and curve operations themselves
//! are performed by outside libraries behind trusted declarations; everything
//! around them — checksum layout, version byte, text framing — is verified.

use vstd::prelude::*;
use vstd::slice::slice_subrange;
use vstd::slice::slice_to_vec;
use vstd::string::StrSliceExecFns;

use sha2::Digest;

verus! {

/// The SHA-256 digest of a byte string, named but not defined here: it is a
/// pure function of the input, computed by an outside library.
pub uninterp spec fn sha256_of(bytes: Seq<u8>) -> Seq<u8>;

/// The RIPEMD-160 digest of a byte string, named but not defined here: it is
/// a pure function of the input, computed by an outside library.
pub uninterp spec fn ripemd160_of(bytes: Seq<u8>) -> Seq<u8>;

/// The base58 (Bitcoin alphabet) decoding of a text, `None` when the text is
/// not valid base58; a pure function of the input.
pub uninterp spec fn b58_decode_of(s: Seq<char>) -> Option<Seq<u8>>;

/// The base58 (Bitcoin alphabet) encoding of a byte string; a pure function
/// of the input.
pub uninterp spec fn b58_encode_of(bytes: Seq<u8>) -> Seq<char>;

/// Relies on sha2's `Sha256::digest`: the SHA-256 digest, 32 bytes, a
/// function of the input bytes alone.
#[verifier::external_body]
pub fn sha256(bytes: &Vec<u8>) -> (r: Vec<u8>)
    ensures
        r@ == sha256_of(bytes@),
        r@.len() == 32,
{
    sha2::Sha256::digest(bytes.as_slice()).to_vec()
}

/// Relies on ripemd's `Ripemd160::digest`: the RIPEMD-160 digest, 20 bytes,
/// a function of the input bytes alone.
#[verifier::external_body]
fn ripemd160(bytes: &Vec<u8>) -> (r: Vec<u8>)
    ensures
        r@ == ripemd160_of(bytes@),
        r@.len() == 20,
{
    ripemd::Ripemd160::digest(bytes.as_slice()).to_vec()
}

/// Relies on bs58's `decode(..).into_vec()` with its default (Bitcoin)
/// alphabet: succeeds exactly on valid base58 text, and the bytes are a
/// function of the text alone.
#[verifier::external_body]
fn b58_decode(s: &str) -> (r: Option<Vec<u8>>)
    ensures
        r is Some <==> b58_decode_of(s@) is Some,
        r is Some ==> r->Some_0@ == b58_decode_of(s@)->Some_0,
{
    bs58::decode(s).into_vec().ok()
}

/// Relies on bs58's `encode(..).into_string()` with its default (Bitcoin)
/// alphabet: the text is a function of the input bytes alone.
#[verifier::external_body]
fn b58_encode(bytes: &Vec<u8>) -> (r: String)
    ensures
        r@ == b58_encode_of(bytes@),
{
    bs58::encode(bytes.as_slice()).into_string()
}

#[verifier::external_type_specification]
#[verifier::external_body]
pub struct ExSecretKey(secp256k1::SecretKey);

/// Whether 32 bytes form a valid curve scalar (not all zero and below the
/// curve order), named but not defined here: decided by the curve library,
/// as a pure function of the bytes.
pub uninterp spec fn valid_scalar(bytes: Seq<u8>) -> bool;

/// The deterministic RFC 6979 recoverable ECDSA signature over a 32-byte
/// digest by a 32-byte key: the recovery id and the 64-byte compact form.
/// Named but not defined here: a pure function of digest and key bytes,
/// computed by the curve library.
pub uninterp spec fn spec_sign_of(digest: Seq<u8>, key_bytes: Seq<u8>) -> (u8, Seq<u8>);

/// The numeric value spelled by a big-endian byte string (the order the
/// curve library documents for each half of a compact signature).
pub open spec fn spec_be_value(bytes: Seq<u8>) -> nat
    decreases bytes.len(),
{
    if bytes.len() == 0 {
        0nat
    } else {
        (spec_be_value(bytes.drop_last()) * 256 + bytes.last()) as nat
    }
}

/// The largest `S` value of a lower-S-form signature, as the curve library
/// documents it: `(group order - 1) / 2`.
pub open spec fn secp256k1_half_group_order() -> nat {
    0x7fffffffffffffffffffffffffffffff5d576e7357a4501ddfe92f46681b20a0nat
}

/// Relies on secp256k1's `SecretKey::from_secret_bytes`: succeeds exactly
/// when the 32 bytes form a valid scalar, a condition decided by the curve
/// library and named `valid_scalar` here.
#[verifier::external_body]
fn secret_key_from_bytes(bytes: &Vec<u8>) -> (r: Option<secp256k1::SecretKey>)
    requires
        bytes@.len() == 32,
    ensures
        r is Some <==> valid_scalar(bytes@),
{
    let mut arr = [0u8; 32];
    arr.copy_from_slice(bytes.as_slice());
    secp256k1::SecretKey::from_secret_bytes(arr).ok()
}

/// Failure modes of parsing key material at the API boundary.
#[derive(Debug, Clone, Copy, PartialEq, Eq, Structural)]
pub enum KeyFormatError {
    /// The text is not valid base58.
    InvalidEncoding,
    /// The decoded payload has the wrong length.
    BadLength,
    /// The version byte or prefix does not mark a private key.
    BadVersion,
    /// The embedded checksum does not match the payload.
    BadChecksum,
    /// The bytes do not form a valid key for the curve.
    InvalidKey,
}

/// The key bytes carried by a well-formed private-key text: base58, then 37
/// bytes laid out as a `0x80` version byte, 32 key bytes, and the first 4
/// bytes of the double-SHA-256 checksum of the first 33.
pub open spec fn spec_private_wif_payload(s: Seq<char>) -> Option<Seq<u8>> {
    match b58_decode_of(s) {
        Option::None => None,
        Option::Some(raw) => {
            if raw.len() == 37 && raw[0] == 0x80u8 && raw.subrange(33, 37) == sha256_of(
                sha256_of(raw.take(33)),
            ).take(4) {
                Some(raw.subrange(1, 33))
            } else {
                None
            }
        },
    }
}

/// The checksummed, versioned base58 text of 32 private key bytes.
pub open spec fn spec_private_wif_text(bytes: Seq<u8>) -> Seq<char> {
    b58_encode_of(
        seq![0x80u8] + bytes + sha256_of(sha256_of(seq![0x80u8] + bytes)).take(4),
    )
}

/// A private key: a valid curve scalar together with its 32 raw bytes. The
/// view is the raw byte string.
pub struct PrivateKey {
    secret: secp256k1::SecretKey,
    bytes: Vec<u8>,
}

impl View for PrivateKey {
    type V = Seq<u8>;

    closed spec fn view(&self) -> Seq<u8> {
        self.bytes@
    }
}

impl PrivateKey {
    pub closed spec fn wf(&self) -> bool {
        self.bytes@.len() == 32
    }

    /// Builds a private key from its 32 raw bytes. Fails with `BadLength` on
    /// any other length and with `InvalidKey` when the curve library rejects
    /// the bytes as a scalar.
    pub fn from_bytes(bytes: Vec<u8>) -> (r: Result<PrivateKey, KeyFormatError>)
        ensures
            r is Ok <==> bytes@.len() == 32 && valid_scalar(bytes@),
            r is Ok ==> r->Ok_0@ == bytes@ && r->Ok_0.wf(),
            bytes@.len() != 32 ==> r == Result::<PrivateKey, KeyFormatError>::Err(
                KeyFormatError::BadLength,
            ),
            bytes@.len() == 32 && !valid_scalar(bytes@) ==> r == Result::<
                PrivateKey,
                KeyFormatError,
            >::Err(KeyFormatError::InvalidKey),
    {
        if bytes.len() != 32 {
            return Err(KeyFormatError::BadLength);
        }
        match secret_key_from_bytes(&bytes) {
            Some(secret) => Ok(PrivateKey { secret, bytes }),
            None => Err(KeyFormatError::InvalidKey),
        }
    }

    /// Parses the canonical checksummed text form: succeeds exactly when
    /// the text carries a well-formed payload whose 32 key bytes the curve
    /// library accepts as a scalar, and each failure names its cause.
    pub fn from_wif(wif: &str) -> (r: Result<PrivateKey, KeyFormatError>)
        ensures
            r is Ok <==> spec_private_wif_payload(wif@) is Some && valid_scalar(
                spec_private_wif_payload(wif@)->Some_0,
            ),
            r is Ok ==> r->Ok_0@ == spec_private_wif_payload(wif@)->Some_0 && r->Ok_0.wf(),
            b58_decode_of(wif@) is None ==> r == Result::<PrivateKey, KeyFormatError>::Err(
                KeyFormatError::InvalidEncoding,
            ),
            ({
                let raw = b58_decode_of(wif@);
                raw is Some && raw->Some_0.len() != 37
            }) ==> r == Result::<PrivateKey, KeyFormatError>::Err(KeyFormatError::BadLength),
            ({
                let raw = b58_decode_of(wif@);
                raw is Some && raw->Some_0.len() == 37 && raw->Some_0[0] != 0x80u8
            }) ==> r == Result::<PrivateKey, KeyFormatError>::Err(KeyFormatError::BadVersion),
            ({
                let raw = b58_decode_of(wif@);
                raw is Some && raw->Some_0.len() == 37 && raw->Some_0[0] == 0x80u8
                    && raw->Some_0.subrange(33, 37) != sha256_of(
                    sha256_of(raw->Some_0.take(33)),
                ).take(4)
            }) ==> r == Result::<PrivateKey, KeyFormatError>::Err(KeyFormatError::BadChecksum),
            spec_private_wif_payload(wif@) is Some && !valid_scalar(
                spec_private_wif_payload(wif@)->Some_0,
            ) ==> r == Result::<PrivateKey, KeyFormatError>::Err(KeyFormatError::InvalidKey),
    {
        let raw = match b58_decode(wif) {
            Some(raw) => raw,
            None => {
                return Err(KeyFormatError::InvalidEncoding);
            },
        };
        if raw.len() != 37 {
            return Err(KeyFormatError::BadLength);
        }
        if raw[0] != 0x80 {
            return Err(KeyFormatError::BadVersion);
        }
        let body: Vec<u8> = slice_to_vec(slice_subrange(raw.as_slice(), 0, 33));
        let check = sha256(&sha256(&body));
        let expect: Vec<u8> = slice_to_vec(slice_subrange(check.as_slice(), 0, 4));
        let got: Vec<u8> = slice_to_vec(slice_subrange(raw.as_slice(), 33, 37));
        proof {
            assert(body@ =~= raw@.take(33));
            assert(expect@ =~= sha256_of(sha256_of(raw@.take(33))).take(4));
            assert(got@ =~= raw@.subrange(33, 37));
        }
        if !(got == expect) {
            proof {
                assert(raw@.subrange(33, 37) != sha256_of(sha256_of(raw@.take(33))).take(4)) by {
                    if got@ =~= expect@ {
                        assert(got == expect);
                    }
                }
            }
            return Err(KeyFormatError::BadChecksum);
        }
        proof {
            assert(got@ =~= expect@);
        }
        let key_bytes: Vec<u8> = slice_to_vec(slice_subrange(raw.as_slice(), 1, 33));
        proof {
            assert(key_bytes@ =~= raw@.subrange(1, 33));
        }
        match secret_key_from_bytes(&key_bytes) {
            Some(secret) => Ok(PrivateKey { secret, bytes: key_bytes }),
            None => Err(KeyFormatError::InvalidKey),
        }
    }

    /// Spells the key in its canonical checksummed text form.
    pub fn to_wif(&self) -> (r: String)
        requires
            self.wf(),
        ensures
            r@ == spec_private_wif_text(self@),
    {
        let mut framed: Vec<u8> = Vec::new();
        framed.push(0x80);
        let mut body = self.bytes.clone();
        framed.append(&mut body);
        proof {
            assert(framed@ =~= seq![0x80u8] + self@);
        }
        let check = sha256(&sha256(&framed));
        let mut tail: Vec<u8> = slice_to_vec(slice_subrange(check.as_slice(), 0, 4));
        proof {
            assert(tail@ =~= sha256_of(sha256_of(seq![0x80u8] + self@)).take(4));
        }
        framed.append(&mut tail);
        b58_encode(&framed)
    }

    /// Relies on secp256k1's `RecoverableSignature::sign_ecdsa_recoverable`
    /// and `serialize_compact`: a deterministic RFC 6979 signature over the
    /// digest, named `spec_sign_of` as a function of the digest and the key
    /// bytes (both constructors build `secret` from exactly `bytes`). The
    /// curve library documents a recovery id of 0 to 3; a 64-byte compact
    /// form of big-endian `r` then big-endian `s`; and `s` always in lower-S
    /// form, between 1 and `(group order - 1) / 2`.
    #[verifier::external_body]
    pub fn sign_digest(&self, digest: &Vec<u8>) -> (r: (u8, Vec<u8>))
        requires
            digest@.len() == 32,
        ensures
            r.0 == spec_sign_of(digest@, self@).0,
            r.1@ == spec_sign_of(digest@, self@).1,
            r.0 <= 3,
            r.1@.len() == 64,
            1 <= spec_be_value(r.1@.skip(32)) <= secp256k1_half_group_order(),
    {
        let mut arr = [0u8; 32];
        arr.copy_from_slice(digest.as_slice());
        let msg = secp256k1::Message::from_digest(arr);
        let sig =
            secp256k1::ecdsa::RecoverableSignature::sign_ecdsa_recoverable(msg, &self.secret);
        let (recid, data) = sig.serialize_compact();
        (recid.to_u8(), data.to_vec())
    }
}

/// The key bytes carried by a well-formed public-key text: an `STM` prefix,
/// then base58 over 37 bytes laid out as 33 key bytes and the first 4 bytes
/// of their RIPEMD-160 digest.
pub open spec fn spec_public_wif_payload(s: Seq<char>) -> Option<Seq<u8>> {
    if s.len() < 3 || s.take(3) != "STM"@ {
        None
    } else {
        match b58_decode_of(s.skip(3)) {
            Option::None => None,
            Option::Some(raw) => {
                if raw.len() == 37 && raw.subrange(33, 37) == ripemd160_of(raw.take(33)).take(4) {
                    Some(raw.take(33))
                } else {
                    None
                }
            },
        }
    }
}

/// The checksummed, prefixed base58 text of 33 public key bytes.
pub open spec fn spec_public_wif_text(bytes: Seq<u8>) -> Seq<char> {
    "STM"@ + b58_encode_of(bytes + ripemd160_of(bytes).take(4))
}

/// A public key held as its 33-byte compressed point encoding; the binary
/// codec writes these bytes raw, with no length prefix. The view is the raw
/// byte string.
#[derive(Debug, Clone)]
pub struct PublicKey {
    bytes: Vec<u8>,
}

impl View for PublicKey {
    type V = Seq<u8>;

    closed spec fn view(&self) -> Seq<u8> {
        self.bytes@
    }
}

impl PublicKey {
    pub open spec fn wf(&self) -> bool {
        self@.len() == 33
    }

    /// The runtime form of `wf`, for callers outside the proof world.
    pub fn is_well_formed(&self) -> (r: bool)
        ensures
            r == self.wf(),
    {
        self.bytes.len() == 33
    }

    /// Builds a public key from its 33 raw bytes; any other length fails
    /// with `BadLength`.
    pub fn from_bytes(bytes: Vec<u8>) -> (r: Result<PublicKey, KeyFormatError>)
        ensures
            r is Ok <==> bytes@.len() == 33,
            r is Ok ==> r->Ok_0@ == bytes@,
            bytes@.len() != 33 ==> r == Result::<PublicKey, KeyFormatError>::Err(
                KeyFormatError::BadLength,
            ),
    {
        if bytes.len() != 33 {
            return Err(KeyFormatError::BadLength);
        }
        Ok(PublicKey { bytes })
    }

    /// Parses the canonical prefixed, checksummed text form: the key bytes
    /// are exactly the payload that `spec_public_wif_payload` names, if and
    /// only if the text carries one.
    pub fn from_wif(wif: &str) -> (r: Result<PublicKey, KeyFormatError>)
        ensures
            r is Ok <==> spec_public_wif_payload(wif@) is Some,
            r is Ok ==> r->Ok_0@ == spec_public_wif_payload(wif@)->Some_0 && r->Ok_0.wf(),
    {
        let n = wif.unicode_len();
        if n < 3 {
            return Err(KeyFormatError::BadVersion);
        }
        let prefix = wif.substring_char(0, 3);
        if !(prefix.get_char(0) == 'S' && prefix.get_char(1) == 'T' && prefix.get_char(2) == 'M') {
            proof {
                reveal_strlit("STM");
                assert(wif@.take(3) != "STM"@);
            }
            return Err(KeyFormatError::BadVersion);
        }
        proof {
            reveal_strlit("STM");
            assert(wif@.take(3) =~= "STM"@);
        }
        let rest = wif.substring_char(3, n);
        let raw = match b58_decode(rest) {
            Some(raw) => raw,
            None => {
                return Err(KeyFormatError::InvalidEncoding);
            },
        };
        if raw.len() != 37 {
            return Err(KeyFormatError::BadLength);
        }
        let body: Vec<u8> = slice_to_vec(slice_subrange(raw.as_slice(), 0, 33));
        let check = ripemd160(&body);
        let expect: Vec<u8> = slice_to_vec(slice_subrange(check.as_slice(), 0, 4));
        let got: Vec<u8> = slice_to_vec(slice_subrange(raw.as_slice(), 33, 37));
        proof {
            assert(body@ =~= raw@.take(33));
            assert(expect@ =~= ripemd160_of(raw@.take(33)).take(4));
            assert(got@ =~= raw@.subrange(33, 37));
        }
        if !(got == expect) {
            proof {
                assert(raw@.subrange(33, 37) != ripemd160_of(raw@.take(33)).take(4)) by {
                    if got@ =~= expect@ {
                        assert(got == expect);
                    }
                }
            }
            return Err(KeyFormatError::BadChecksum);
        }
        proof {
            assert(got@ =~= expect@);
            assert(wif@.skip(3) =~= rest@);
        }
        Ok(PublicKey { bytes: body })
    }

    /// Spells the key in its canonical prefixed, checksummed text form.
    pub fn to_wif(&self) -> (r: String)
        requires
            self.wf(),
        ensures
            r@ == spec_public_wif_text(self@),
    {
        let mut framed = self.bytes.clone();
        let mut tail: Vec<u8> = {
            let check = ripemd160(&framed);
            slice_to_vec(slice_subrange(check.as_slice(), 0, 4))
        };
        framed.append(&mut tail);
        proof {
            assert(framed@ =~= self@ + ripemd160_of(self@).take(4));
        }
        let encoded = b58_encode(&framed);
        let mut out = String::new();
        vstd::string::StringExecFns::append(&mut out, "STM");
        vstd::string::StringExecFns::append(&mut out, encoded.as_str());
        proof {
            reveal_strlit("STM");
            assert(out@ =~= spec_public_wif_text(self@));
        }
        out
    }
}

impl crate::enc::HiveEncode for PublicKey {
    open spec fn enc_ok(&self) -> bool {
        self.wf()
    }

    open spec fn enc(&self) -> Seq<u8> {
        self@
    }

    fn encode(&self, encoder: &mut crate::enc::HiveEncoderImpl) -> (r: Result<
        (),
        crate::enc::EncodeError,
    >) {
        if self.bytes.len() != 33 {
            return Err(crate::enc::EncodeError::Error);
        }
        encoder.write(self.bytes.as_slice())
    }
}

} // verus!
