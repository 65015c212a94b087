//! Decimal spellings of integers, used by the outward text form of an asset.

use vstd::prelude::*;
use vstd::string::StrSliceExecFns;
use vstd::string::StringExecFns;

use crate::hexstr::spec_hex_digit_char;

verus! {

/// The decimal spelling of an unsigned value, most significant digit first,
/// with no leading zeroes (a lone `0` for zero).
pub open spec fn spec_dec_digits(n: nat) -> Seq<char>
    decreases n,
{
    if n < 10 {
        seq![spec_hex_digit_char(n as u8)]
    } else {
        spec_dec_digits(n / 10) + seq![spec_hex_digit_char((n % 10) as u8)]
    }
}

/// The decimal spelling of a signed value: a leading `-` for negatives.
pub open spec fn spec_dec_string_i64(v: int) -> Seq<char>
    recommends
        i64::MIN <= v <= i64::MAX,
{
    if v >= 0 {
        spec_dec_digits(v as nat)
    } else {
        seq!['-'] + spec_dec_digits((-v) as nat)
    }
}

/// Appends the decimal spelling of `n`.
pub fn push_dec_u64(s: &mut String, n: u64)
    ensures
        final(s)@ == old(s)@ + spec_dec_digits(n as nat),
    decreases n,
{
    let table = "0123456789abcdef";
    proof {
        reveal_strlit("0123456789abcdef");
    }
    if n >= 10 {
        push_dec_u64(s, n / 10);
    }
    let d = (n % 10) as usize;
    let ds = table.substring_ascii(d, d + 1);
    s.append(ds);
    proof {
        assert(ds@ =~= seq![spec_hex_digit_char((n % 10) as u8)]);
        if n < 10 {
            assert(old(s)@ + spec_dec_digits(n as nat) =~= s@);
        } else {
            assert((old(s)@ + spec_dec_digits((n / 10) as nat)) + seq![
                spec_hex_digit_char((n % 10) as u8),
            ] =~= old(s)@ + spec_dec_digits(n as nat));
        }
    }
}

/// Appends the decimal spelling of `v`, with a leading `-` when negative.
pub fn push_dec_i64(s: &mut String, v: i64)
    ensures
        final(s)@ == old(s)@ + spec_dec_string_i64(v as int),
{
    if v >= 0 {
        push_dec_u64(s, v as u64);
    } else {
        s.append("-");
        let mag: u64 = ((-(v + 1)) as u64) + 1;
        proof {
            reveal_strlit("-");
            assert(mag as nat == (-(v as int)) as nat);
        }
        push_dec_u64(s, mag);
        proof {
            assert((old(s)@ + "-"@) + spec_dec_digits(mag as nat) =~= old(s)@ + (seq!['-']
                + spec_dec_digits((-(v as int)) as nat)));
        }
    }
}

} // verus!
