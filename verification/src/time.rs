//! UTC instants at second resolution. The wire form of a timestamp is the
//! unsigned 32-bit little-endian count of seconds since the Unix epoch;
//! instants before the epoch or past the 32-bit ceiling are a fatal encoding
//! error, never wrapped or clamped.

use vstd::prelude::*;

use crate::enc::cast_i64_to_u32;
use crate::enc::spec_le_bytes;
use crate::enc::EncodeError;
use crate::enc::HiveEncode;
use crate::enc::HiveEncoderImpl;

verus! {

/// A UTC instant, held as signed seconds since the Unix epoch (so instants
/// before the epoch are representable but not encodable).
#[derive(Debug, Clone, Copy, PartialEq, Eq, Structural)]
pub struct Timestamp {
    pub secs: i64,
}

impl Timestamp {
    pub fn from_unix_seconds(secs: i64) -> (r: Timestamp)
        ensures
            r.secs == secs,
    {
        Timestamp { secs }
    }

    /// True when the instant fits the unsigned 32-bit seconds field.
    pub open spec fn encodable(&self) -> bool {
        0 <= self.secs <= u32::MAX
    }

    /// The runtime form of `encodable`, for callers outside the proof world.
    pub fn is_encodable(&self) -> (r: bool)
        ensures
            r == self.encodable(),
    {
        0 <= self.secs && self.secs <= u32::MAX as i64
    }
}

/// The outward `YYYY-MM-DDTHH:MM:SS` spelling (UTC, no offset marker) of an
/// epoch-seconds count, named but not defined here: the calendar arithmetic
/// is a pure function of the count, computed by an outside library.
pub uninterp spec fn iso_of_secs(secs: int) -> Seq<char>;

/// The epoch-seconds count spelled by an outward `YYYY-MM-DDTHH:MM:SS` text,
/// `None` when the text does not carry one; a pure function of the text.
pub uninterp spec fn secs_of_iso(s: Seq<char>) -> Option<int>;

/// Relies on chrono's `DateTime::<Utc>::from_timestamp` and `format`: the
/// text is a function of the seconds count alone (UTC has no zone or locale
/// dependence). The `from_timestamp` range easily covers every encodable
/// instant.
#[verifier::external_body]
pub fn format_hive_time(t: &Timestamp) -> (r: String)
    requires
        t.encodable(),
    ensures
        r@ == iso_of_secs(t.secs as int),
{
    let dt = chrono::DateTime::from_timestamp(t.secs, 0).expect("in the unsigned 32-bit range");
    dt.format("%Y-%m-%dT%H:%M:%S").to_string()
}

/// Relies on chrono's `NaiveDateTime::parse_from_str` with the fixed
/// `%Y-%m-%dT%H:%M:%S` format: acceptance and the seconds count are a
/// function of the text alone.
#[verifier::external_body]
pub fn parse_hive_time(s: &str) -> (r: Option<Timestamp>)
    ensures
        r is Some <==> secs_of_iso(s@) is Some,
        r is Some ==> r->Some_0.secs as int == secs_of_iso(s@)->Some_0,
{
    let naive = chrono::NaiveDateTime::parse_from_str(s, "%Y-%m-%dT%H:%M:%S").ok()?;
    Some(Timestamp { secs: naive.and_utc().timestamp() })
}

impl HiveEncode for Timestamp {
    open spec fn enc_ok(&self) -> bool {
        self.encodable()
    }

    open spec fn enc(&self) -> Seq<u8> {
        if self.secs >= 0 {
            spec_le_bytes(self.secs as nat, 4)
        } else {
            Seq::empty()
        }
    }

    fn encode(&self, encoder: &mut HiveEncoderImpl) -> (r: Result<(), EncodeError>)
        ensures
            r is Err ==> final(encoder)@ == old(encoder)@,
    {
        match cast_i64_to_u32(self.secs) {
            Ok(u) => crate::enc::encode_le_bytes(encoder, u as u64, 4),
            Err(_) => Err(EncodeError::Error),
        }
    }
}

} // verus!
