//! The library-wide laws: facts that relate the codec's pieces to one
//! another, stated over the same spec functions the contracts use and proved
//! once for every input.

use vstd::prelude::*;

use crate::enc::enc_elems;
use crate::enc::spec_le_bytes;
use crate::enc::spec_leb128;
use crate::enc::HiveEncode;
use crate::operation::spec_numeric_id;
use crate::operation::Operation;
use crate::time::Timestamp;

verus! {

/// Law: for every list, of any element type and length, the encoding begins
/// with the unsigned-varint encoding of the element count, followed by the
/// elements' encodings in order.
pub proof fn lemma_list_encoding_begins_with_count<T: HiveEncode>(v: Vec<T>)
    ensures
        v.enc() == spec_leb128(v@.len()) + enc_elems(v@),
        v.enc().take(spec_leb128(v@.len()).len() as int) == spec_leb128(v@.len()),
{
    assert(v.enc().take(spec_leb128(v@.len()).len() as int) =~= spec_leb128(v@.len()));
}

/// The numeric value spelled by a little-endian byte string.
pub open spec fn spec_le_value(bytes: Seq<u8>) -> nat
    decreases bytes.len(),
{
    if bytes.len() == 0 {
        0
    } else {
        (bytes[0] + 256 * spec_le_value(bytes.drop_first())) as nat
    }
}

/// Law: an `n`-byte little-endian image spells back the encoded value,
/// modulo `256^n` — encoding loses nothing but the high bits that do not
/// fit.
pub proof fn lemma_le_bytes_value(v: nat, n: nat)
    ensures
        spec_le_value(spec_le_bytes(v, n)) == v as int % vstd::arithmetic::power::pow(256, n) as int,
    decreases n,
{
    vstd::arithmetic::power::lemma_pow_positive(256, n);
    if n == 0 {
        assert(vstd::arithmetic::power::pow(256, 0) == 1) by {
            vstd::arithmetic::power::lemma_pow0(256);
        }
    } else {
        let rest = spec_le_bytes(v / 256, (n - 1) as nat);
        assert(spec_le_bytes(v, n).drop_first() =~= rest);
        lemma_le_bytes_value(v / 256, (n - 1) as nat);
        vstd::arithmetic::power::lemma_pow_positive(256, (n - 1) as nat);
        assert(vstd::arithmetic::power::pow(256, n) == 256 * vstd::arithmetic::power::pow(
            256,
            (n - 1) as nat,
        )) by {
            vstd::arithmetic::power::lemma_pow1(256);
            vstd::arithmetic::power::lemma_pow_adds(256, 1, (n - 1) as nat);
        }
        vstd::arithmetic::div_mod::lemma_mod_breakdown(
            v as int,
            256,
            vstd::arithmetic::power::pow(256, (n - 1) as nat) as int,
        );
    }
}

/// Law: an encodable instant encodes to exactly 4 bytes whose little-endian
/// value is its Unix-seconds count; instants outside `[0, u32::MAX]` are not
/// encodable at all.
pub proof fn lemma_timestamp_encoding_value(t: Timestamp)
    ensures
        t.enc_ok() <==> 0 <= t.secs <= u32::MAX,
        t.enc_ok() ==> t.enc().len() == 4 && spec_le_value(t.enc()) == t.secs,
{
    if t.enc_ok() {
        crate::enc::lemma_le_bytes_len(t.secs as nat, 4);
        lemma_le_bytes_value(t.secs as nat, 4);
        assert(vstd::arithmetic::power::pow(256, 4) == 0x1_0000_0000) by {
            reveal_with_fuel(vstd::arithmetic::power::pow, 5);
        }
        vstd::arithmetic::div_mod::lemma_small_mod(t.secs as nat, 0x1_0000_0000);
    }
}

/// Law: the network-registered operation discriminants are fixed per
/// variant — `Custom` to 15, `CustomJson` to 18, `AccountCreate` to 9,
/// `AccountCreateWithDelegation` to 41 — and every operation's encoding
/// begins with the varint of its discriminant.
pub proof fn lemma_operation_discriminants(op: Operation)
    ensures
        op is Custom ==> spec_numeric_id(&op) == 15,
        op is CustomJson ==> spec_numeric_id(&op) == 18,
        op is AccountCreate ==> spec_numeric_id(&op) == 9,
        op is AccountCreateWithDelegation ==> spec_numeric_id(&op) == 41,
        op.enc().take(spec_leb128(spec_numeric_id(&op) as nat).len() as int) == spec_leb128(
            spec_numeric_id(&op) as nat,
        ),
{
    assert(op.enc().take(spec_leb128(spec_numeric_id(&op) as nat).len() as int) =~= spec_leb128(
        spec_numeric_id(&op) as nat,
    ));
}

} // verus!
