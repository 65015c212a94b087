//! Hexadecimal text: lowercase encoding of byte strings (used for the
//! signature entries of a finished transaction) and digit-level decoding
//! (used to derive the reference-block prefix from a block id).

use vstd::prelude::*;
use vstd::string::StrSliceExecFns;
use vstd::string::StringExecFns;

verus! {

/// The lowercase hex digit with value `n`.
pub open spec fn spec_hex_digit_char(n: u8) -> char
    recommends
        n < 16,
{
    "0123456789abcdef"@[n as int]
}

/// The value of one hex digit character, accepting both cases; `None` for
/// any character that is not a hex digit.
pub open spec fn spec_hex_val(c: char) -> Option<u8> {
    let u = c as u32;
    if 48 <= u <= 57 {
        Some((u - 48) as u8)
    } else if 97 <= u <= 102 {
        Some((u - 87) as u8)
    } else if 65 <= u <= 70 {
        Some((u - 55) as u8)
    } else {
        None
    }
}

/// The lowercase hex spelling of a byte string: two digits per byte, high
/// digit first.
pub open spec fn spec_hex_of_bytes(bytes: Seq<u8>) -> Seq<char> {
    Seq::new(
        2 * bytes.len(),
        |i: int|
            if i % 2 == 0 {
                spec_hex_digit_char((bytes[i / 2] / 16) as u8)
            } else {
                spec_hex_digit_char((bytes[i / 2] % 16) as u8)
            },
    )
}

/// The value of the byte spelled by two hex digit characters.
pub open spec fn spec_hex_pair(s: Seq<char>, k: int) -> u8
    recommends
        0 <= k,
        2 * k + 1 < s.len(),
        spec_hex_val(s[2 * k]) is Some,
        spec_hex_val(s[2 * k + 1]) is Some,
{
    (16 * spec_hex_val(s[2 * k])->Some_0 + spec_hex_val(s[2 * k + 1])->Some_0) as u8
}

/// The byte string spelled by a sequence of hex digit characters.
pub open spec fn spec_hex_decode(s: Seq<char>) -> Seq<u8> {
    Seq::new(s.len() / 2, |k: int| spec_hex_pair(s, k))
}

/// The value of one hex digit character, or `None` when it is not one.
pub fn hex_val(c: char) -> (r: Option<u8>)
    ensures
        r == spec_hex_val(c),
{
    let u = c as u32;
    if 48 <= u && u <= 57 {
        Some((u - 48) as u8)
    } else if 97 <= u && u <= 102 {
        Some((u - 87) as u8)
    } else if 65 <= u && u <= 70 {
        Some((u - 55) as u8)
    } else {
        None
    }
}

/// Spells a byte string as lowercase hex text, two digits per byte.
pub fn encode_hex(bytes: &Vec<u8>) -> (r: String)
    ensures
        r@ == spec_hex_of_bytes(bytes@),
{
    let table = "0123456789abcdef";
    proof {
        reveal_strlit("0123456789abcdef");
    }
    let mut s = String::new();
    let mut i: usize = 0;
    while i < bytes.len()
        invariant
            i <= bytes@.len(),
            table@ == "0123456789abcdef"@,
            table.is_ascii(),
            table@.len() == 16,
            s@ == spec_hex_of_bytes(bytes@.take(i as int)),
        decreases bytes@.len() - i,
    {
        let b = bytes[i];
        let hi = (b / 16) as usize;
        let lo = (b % 16) as usize;
        let hi_str = table.substring_ascii(hi, hi + 1);
        s.append(hi_str);
        let lo_str = table.substring_ascii(lo, lo + 1);
        s.append(lo_str);
        proof {
            assert(hi_str@ =~= seq![spec_hex_digit_char((b / 16) as u8)]);
            assert(lo_str@ =~= seq![spec_hex_digit_char((b % 16) as u8)]);
            assert(s@ =~= spec_hex_of_bytes(bytes@.take(i as int + 1)));
        }
        i = i + 1;
    }
    proof {
        assert(bytes@.take(bytes@.len() as int) =~= bytes@);
    }
    s
}

} // verus!
