//! The canonical binary codec: fixed-width little-endian integers, a single
//! byte for booleans, unsigned base-128 varints for lengths and operation
//! tags, and length-prefixed byte sequences for text and lists. Struct fields
//! encode in declared order with no names or tags: the field order is the
//! wire contract.

use vstd::prelude::*;

verus! {

/// A fatal failure while encoding: the value cannot be represented in the
/// wire format (for example a timestamp outside the unsigned 32-bit range,
/// or a fixed-point rescaling that overflows).
#[derive(Debug)]
pub enum EncodeError {
    Error,
}

/// The unsigned base-128 little-endian varint encoding of `v`: seven payload
/// bits per byte, least significant group first, continuation flag in the
/// high bit.
pub open spec fn spec_leb128(v: nat) -> Seq<u8>
    decreases v,
{
    if v < 128 {
        seq![v as u8]
    } else {
        seq![(128 + (v % 128)) as u8] + spec_leb128(v / 128)
    }
}

/// The `n`-byte little-endian encoding of `v % 256^n`.
pub open spec fn spec_le_bytes(v: nat, n: nat) -> Seq<u8>
    decreases n,
{
    if n == 0 {
        Seq::empty()
    } else {
        seq![(v % 256) as u8] + spec_le_bytes(v / 256, (n - 1) as nat)
    }
}

/// The two's-complement value of a signed 64-bit integer.
pub open spec fn spec_two_complement64(v: i64) -> nat {
    if v >= 0 {
        v as nat
    } else {
        (v + 0x1_0000_0000_0000_0000) as nat
    }
}

/// A growable byte sink; writes always succeed and append to the stream.
pub struct VecWriter {
    inner: Vec<u8>,
}

impl View for VecWriter {
    type V = Seq<u8>;

    closed spec fn view(&self) -> Seq<u8> {
        self.inner@
    }
}

impl VecWriter {
    pub fn new() -> (r: VecWriter)
        ensures
            r@ == Seq::<u8>::empty(),
    {
        VecWriter { inner: Vec::new() }
    }

    pub fn write(&mut self, bytes: &[u8]) -> (r: Result<(), EncodeError>)
        ensures
            r is Ok,
            final(self)@ == old(self)@ + bytes@,
    {
        self.inner.extend_from_slice(bytes);
        Ok(())
    }

    pub fn write_u8(&mut self, byte: u8)
        ensures
            final(self)@ == old(self)@ + seq![byte],
    {
        self.inner.push(byte);
    }

    pub fn collect(self) -> (r: Vec<u8>)
        ensures
            r@ == self@,
    {
        self.inner
    }
}

/// The encoder driving the canonical byte stream: it owns the sink that
/// encoded bytes are appended to.
pub struct HiveEncoderImpl {
    writer: VecWriter,
}

impl View for HiveEncoderImpl {
    type V = Seq<u8>;

    closed spec fn view(&self) -> Seq<u8> {
        self.writer@
    }
}

impl HiveEncoderImpl {
    pub fn new(writer: VecWriter) -> (r: HiveEncoderImpl)
        ensures
            r@ == writer@,
    {
        HiveEncoderImpl { writer }
    }

    pub fn into_writer(self) -> (r: VecWriter)
        ensures
            r@ == self@,
    {
        self.writer
    }

    pub fn write(&mut self, bytes: &[u8]) -> (r: Result<(), EncodeError>)
        ensures
            r is Ok,
            final(self)@ == old(self)@ + bytes@,
    {
        self.writer.write(bytes)
    }

    pub fn write_u8(&mut self, byte: u8)
        ensures
            final(self)@ == old(self)@ + seq![byte],
    {
        self.writer.write_u8(byte);
    }
}

/// The capability of being canonically encoded. `enc` is the exact byte
/// image of the value; `enc_ok` says whether the value is representable at
/// all. `encode` appends exactly `enc` to the stream and fails exactly on
/// unrepresentable values.
pub trait HiveEncode {
    spec fn enc_ok(&self) -> bool;

    spec fn enc(&self) -> Seq<u8>;

    fn encode(&self, encoder: &mut HiveEncoderImpl) -> (r: Result<(), EncodeError>)
        ensures
            r is Ok <==> self.enc_ok(),
            self.enc_ok() ==> final(encoder)@ == old(encoder)@ + self.enc(),
    ;
}

/// Appends the unsigned base-128 varint encoding of `v`.
pub fn encode_leb128_unsigned(encoder: &mut HiveEncoderImpl, v: u64) -> (r: Result<
    (),
    EncodeError,
>)
    ensures
        r is Ok,
        final(encoder)@ == old(encoder)@ + spec_leb128(v as nat),
{
    let mut x: u64 = v;
    while x >= 128
        invariant
            old(encoder)@ + spec_leb128(v as nat) == encoder@ + spec_leb128(x as nat),
        decreases x,
    {
        let byte: u8 = (x % 128) as u8 + 128;
        proof {
            assert(spec_leb128(x as nat) == seq![byte] + spec_leb128((x / 128) as nat));
            assert(encoder@ + spec_leb128(x as nat) == (encoder@ + seq![byte]) + spec_leb128(
                (x / 128) as nat,
            ));
        }
        encoder.write_u8(byte);
        x = x / 128;
    }
    proof {
        assert(spec_leb128(x as nat) == seq![x as u8]);
    }
    encoder.write_u8(x as u8);
    Ok(())
}

/// Appends the varint length prefix that every sequence encoding begins with.
pub fn encode_slice_len(encoder: &mut HiveEncoderImpl, len: usize) -> (r: Result<
    (),
    EncodeError,
>)
    ensures
        r is Ok,
        final(encoder)@ == old(encoder)@ + spec_leb128(len as nat),
{
    encode_leb128_unsigned(encoder, len as u64)
}

/// Appends the `n`-byte little-endian image of `v`.
pub fn encode_le_bytes(encoder: &mut HiveEncoderImpl, v: u64, n: usize) -> (r: Result<
    (),
    EncodeError,
>)
    ensures
        r is Ok,
        final(encoder)@ == old(encoder)@ + spec_le_bytes(v as nat, n as nat),
{
    let mut x: u64 = v;
    let mut i: usize = 0;
    while i < n
        invariant
            i <= n,
            old(encoder)@ + spec_le_bytes(v as nat, n as nat) == encoder@ + spec_le_bytes(
                x as nat,
                (n - i) as nat,
            ),
        decreases n - i,
    {
        let byte: u8 = (x % 256) as u8;
        proof {
            assert(spec_le_bytes(x as nat, (n - i) as nat) == seq![byte] + spec_le_bytes(
                (x / 256) as nat,
                (n - i - 1) as nat,
            ));
            assert(encoder@ + spec_le_bytes(x as nat, (n - i) as nat) == (encoder@ + seq![byte])
                + spec_le_bytes((x / 256) as nat, (n - i - 1) as nat));
        }
        encoder.write_u8(byte);
        x = x / 256;
        i = i + 1;
    }
    proof {
        assert(spec_le_bytes(x as nat, 0) == Seq::<u8>::empty());
        assert(encoder@ + Seq::<u8>::empty() =~= encoder@);
    }
    Ok(())
}

/// Appends the `n`-byte little-endian image of a 128-bit value.
pub fn encode_le_bytes_wide(encoder: &mut HiveEncoderImpl, v: u128, n: usize) -> (r: Result<
    (),
    EncodeError,
>)
    ensures
        r is Ok,
        final(encoder)@ == old(encoder)@ + spec_le_bytes(v as nat, n as nat),
{
    let mut x: u128 = v;
    let mut i: usize = 0;
    while i < n
        invariant
            i <= n,
            old(encoder)@ + spec_le_bytes(v as nat, n as nat) == encoder@ + spec_le_bytes(
                x as nat,
                (n - i) as nat,
            ),
        decreases n - i,
    {
        let byte: u8 = (x % 256) as u8;
        proof {
            assert(spec_le_bytes(x as nat, (n - i) as nat) == seq![byte] + spec_le_bytes(
                (x / 256) as nat,
                (n - i - 1) as nat,
            ));
            assert(encoder@ + spec_le_bytes(x as nat, (n - i) as nat) == (encoder@ + seq![byte])
                + spec_le_bytes((x / 256) as nat, (n - i - 1) as nat));
        }
        encoder.write_u8(byte);
        x = x / 256;
        i = i + 1;
    }
    proof {
        assert(spec_le_bytes(x as nat, 0) == Seq::<u8>::empty());
        assert(encoder@ + Seq::<u8>::empty() =~= encoder@);
    }
    Ok(())
}

pub proof fn lemma_le_bytes_len(v: nat, n: nat)
    ensures
        spec_le_bytes(v, n).len() == n,
    decreases n,
{
    if n > 0 {
        lemma_le_bytes_len(v / 256, (n - 1) as nat);
    }
}

/// The concatenation of the encodings of the elements of `s`, in order.
pub open spec fn enc_elems<T: HiveEncode>(s: Seq<T>) -> Seq<u8>
    decreases s.len(),
{
    if s.len() == 0 {
        Seq::empty()
    } else {
        s[0].enc() + enc_elems(s.drop_first())
    }
}

pub proof fn lemma_enc_elems_push<T: HiveEncode>(s: Seq<T>, x: T)
    ensures
        enc_elems(s.push(x)) == enc_elems(s) + x.enc(),
    decreases s.len(),
{
    if s.len() == 0 {
        assert(s.push(x).drop_first() =~= Seq::<T>::empty());
        assert(enc_elems(s.push(x)) == x.enc() + enc_elems(Seq::<T>::empty()));
        assert(x.enc() + Seq::<u8>::empty() =~= x.enc());
        assert(enc_elems(s) + x.enc() =~= x.enc());
    } else {
        assert(s.push(x).drop_first() =~= s.drop_first().push(x));
        lemma_enc_elems_push(s.drop_first(), x);
        assert(s[0].enc() + (enc_elems(s.drop_first()) + x.enc()) =~= (s[0].enc() + enc_elems(
            s.drop_first(),
        )) + x.enc());
    }
}

impl HiveEncode for u8 {
    open spec fn enc_ok(&self) -> bool {
        true
    }

    open spec fn enc(&self) -> Seq<u8> {
        seq![*self]
    }

    fn encode(&self, encoder: &mut HiveEncoderImpl) -> (r: Result<(), EncodeError>) {
        encoder.write_u8(*self);
        Ok(())
    }
}

impl HiveEncode for u16 {
    open spec fn enc_ok(&self) -> bool {
        true
    }

    open spec fn enc(&self) -> Seq<u8> {
        spec_le_bytes(*self as nat, 2)
    }

    fn encode(&self, encoder: &mut HiveEncoderImpl) -> (r: Result<(), EncodeError>) {
        encode_le_bytes(encoder, *self as u64, 2)
    }
}

impl HiveEncode for u32 {
    open spec fn enc_ok(&self) -> bool {
        true
    }

    open spec fn enc(&self) -> Seq<u8> {
        spec_le_bytes(*self as nat, 4)
    }

    fn encode(&self, encoder: &mut HiveEncoderImpl) -> (r: Result<(), EncodeError>) {
        encode_le_bytes(encoder, *self as u64, 4)
    }
}

impl HiveEncode for u64 {
    open spec fn enc_ok(&self) -> bool {
        true
    }

    open spec fn enc(&self) -> Seq<u8> {
        spec_le_bytes(*self as nat, 8)
    }

    fn encode(&self, encoder: &mut HiveEncoderImpl) -> (r: Result<(), EncodeError>) {
        encode_le_bytes(encoder, *self, 8)
    }
}

/// The two's-complement value of a signed 16-bit integer.
pub open spec fn spec_two_complement16(v: i16) -> nat {
    if v >= 0 {
        v as nat
    } else {
        (v + 0x1_0000) as nat
    }
}

/// The two's-complement value of a signed 32-bit integer.
pub open spec fn spec_two_complement32(v: i32) -> nat {
    if v >= 0 {
        v as nat
    } else {
        (v + 0x1_0000_0000) as nat
    }
}

impl HiveEncode for i16 {
    open spec fn enc_ok(&self) -> bool {
        true
    }

    open spec fn enc(&self) -> Seq<u8> {
        spec_le_bytes(spec_two_complement16(*self), 2)
    }

    fn encode(&self, encoder: &mut HiveEncoderImpl) -> (r: Result<(), EncodeError>) {
        let u: u16 = if *self >= 0 {
            *self as u16
        } else {
            u16::MAX - ((-(*self + 1)) as u16)
        };
        assert(u as nat == spec_two_complement16(*self));
        encode_le_bytes(encoder, u as u64, 2)
    }
}

impl HiveEncode for i32 {
    open spec fn enc_ok(&self) -> bool {
        true
    }

    open spec fn enc(&self) -> Seq<u8> {
        spec_le_bytes(spec_two_complement32(*self), 4)
    }

    fn encode(&self, encoder: &mut HiveEncoderImpl) -> (r: Result<(), EncodeError>) {
        let u: u32 = if *self >= 0 {
            *self as u32
        } else {
            u32::MAX - ((-(*self + 1)) as u32)
        };
        assert(u as nat == spec_two_complement32(*self));
        encode_le_bytes(encoder, u as u64, 4)
    }
}

impl HiveEncode for i64 {
    open spec fn enc_ok(&self) -> bool {
        true
    }

    open spec fn enc(&self) -> Seq<u8> {
        spec_le_bytes(spec_two_complement64(*self), 8)
    }

    fn encode(&self, encoder: &mut HiveEncoderImpl) -> (r: Result<(), EncodeError>) {
        let u: u64 = if *self >= 0 {
            *self as u64
        } else {
            u64::MAX - ((-(*self + 1)) as u64)
        };
        assert(u as nat == spec_two_complement64(*self));
        encode_le_bytes(encoder, u, 8)
    }
}

impl HiveEncode for u128 {
    open spec fn enc_ok(&self) -> bool {
        true
    }

    open spec fn enc(&self) -> Seq<u8> {
        spec_le_bytes(*self as nat, 16)
    }

    fn encode(&self, encoder: &mut HiveEncoderImpl) -> (r: Result<(), EncodeError>) {
        encode_le_bytes_wide(encoder, *self, 16)
    }
}

/// The two's-complement value of a signed 128-bit integer.
pub open spec fn spec_two_complement128(v: i128) -> nat {
    if v >= 0 {
        v as nat
    } else {
        (v + 0x1_0000_0000_0000_0000_0000_0000_0000_0000) as nat
    }
}

impl HiveEncode for i128 {
    open spec fn enc_ok(&self) -> bool {
        true
    }

    open spec fn enc(&self) -> Seq<u8> {
        spec_le_bytes(spec_two_complement128(*self), 16)
    }

    fn encode(&self, encoder: &mut HiveEncoderImpl) -> (r: Result<(), EncodeError>) {
        let u: u128 = if *self >= 0 {
            *self as u128
        } else {
            u128::MAX - ((-(*self + 1)) as u128)
        };
        assert(u as nat == spec_two_complement128(*self));
        encode_le_bytes_wide(encoder, u, 16)
    }
}

impl HiveEncode for bool {
    open spec fn enc_ok(&self) -> bool {
        true
    }

    open spec fn enc(&self) -> Seq<u8> {
        if *self {
            seq![1u8]
        } else {
            seq![0u8]
        }
    }

    fn encode(&self, encoder: &mut HiveEncoderImpl) -> (r: Result<(), EncodeError>) {
        encoder.write_u8(if *self {
            1
        } else {
            0
        });
        Ok(())
    }
}

impl HiveEncode for () {
    open spec fn enc_ok(&self) -> bool {
        true
    }

    open spec fn enc(&self) -> Seq<u8> {
        Seq::empty()
    }

    fn encode(&self, encoder: &mut HiveEncoderImpl) -> (r: Result<(), EncodeError>) {
        proof {
            assert(old(encoder)@ + Seq::<u8>::empty() =~= old(encoder)@);
        }
        Ok(())
    }
}

impl HiveEncode for String {
    open spec fn enc_ok(&self) -> bool {
        true
    }

    /// Text encodes as a varint byte count (not code-point count) followed by
    /// the raw UTF-8 bytes.
    open spec fn enc(&self) -> Seq<u8> {
        spec_leb128(vstd::utf8::encode_utf8(self@).len()) + vstd::utf8::encode_utf8(self@)
    }

    fn encode(&self, encoder: &mut HiveEncoderImpl) -> (r: Result<(), EncodeError>) {
        let bytes: &[u8] = self.as_str().as_bytes();
        encode_slice_len(encoder, bytes.len())?;
        encoder.write(bytes)?;
        Ok(())
    }
}

/// A single character is written as its raw UTF-8 bytes with no length
/// prefix, unlike every other sequence rule of this codec; the deployed wire
/// format fixes this rule.
impl HiveEncode for char {
    open spec fn enc_ok(&self) -> bool {
        true
    }

    open spec fn enc(&self) -> Seq<u8> {
        vstd::utf8::encode_scalar(*self as u32)
    }

    fn encode(&self, encoder: &mut HiveEncoderImpl) -> (r: Result<(), EncodeError>) {
        proof {
            vstd::utf8::char_is_scalar(*self);
        }
        let scalar: u32 = *self as u32;
        if scalar <= 0x7F {
            encoder.write_u8((scalar & 0x7F) as u8);
        } else if scalar <= 0x7FF {
            encoder.write_u8(0xC0 | ((scalar >> 6) & 0x1F) as u8);
            encoder.write_u8(0x80 | (scalar & 0x3F) as u8);
            proof {
                assert(old(encoder)@ + seq![vstd::utf8::leading_byte_width_2(scalar)] + seq![
                    vstd::utf8::last_continuation_byte(scalar),
                ] =~= old(encoder)@ + self.enc());
            }
        } else if scalar <= 0xFFFF {
            encoder.write_u8(0xE0 | ((scalar >> 12) & 0x0F) as u8);
            encoder.write_u8(0x80 | ((scalar >> 6) & 0x3F) as u8);
            encoder.write_u8(0x80 | (scalar & 0x3F) as u8);
            proof {
                assert(old(encoder)@ + seq![vstd::utf8::leading_byte_width_3(scalar)] + seq![
                    vstd::utf8::second_last_continuation_byte(scalar),
                ] + seq![vstd::utf8::last_continuation_byte(scalar)] =~= old(encoder)@
                    + self.enc());
            }
        } else {
            encoder.write_u8(0xF0 | ((scalar >> 18) & 0x7) as u8);
            encoder.write_u8(0x80 | ((scalar >> 12) & 0x3F) as u8);
            encoder.write_u8(0x80 | ((scalar >> 6) & 0x3F) as u8);
            encoder.write_u8(0x80 | (scalar & 0x3F) as u8);
            proof {
                assert(old(encoder)@ + seq![vstd::utf8::leading_byte_width_4(scalar)] + seq![
                    vstd::utf8::third_last_continuation_byte(scalar),
                ] + seq![vstd::utf8::second_last_continuation_byte(scalar)] + seq![
                    vstd::utf8::last_continuation_byte(scalar),
                ] =~= old(encoder)@ + self.enc());
            }
        }
        Ok(())
    }
}

impl<T: HiveEncode> HiveEncode for Vec<T> {
    open spec fn enc_ok(&self) -> bool {
        forall|i: int| 0 <= i < self@.len() ==> #[trigger] self@[i].enc_ok()
    }

    /// A list encodes as the varint element count followed by each element's
    /// encoding, in order.
    open spec fn enc(&self) -> Seq<u8> {
        spec_leb128(self@.len()) + enc_elems(self@)
    }

    fn encode(&self, encoder: &mut HiveEncoderImpl) -> (r: Result<(), EncodeError>) {
        encode_slice_len(encoder, self.len())?;
        let mut i: usize = 0;
        while i < self.len()
            invariant
                i <= self@.len(),
                forall|j: int| 0 <= j < i ==> #[trigger] self@[j].enc_ok(),
                encoder@ == old(encoder)@ + spec_leb128(self@.len()) + enc_elems(
                    self@.take(i as int),
                ),
            decreases self@.len() - i,
        {
            let elem = &self[i];
            match elem.encode(encoder) {
                Ok(()) => {
                    proof {
                        lemma_enc_elems_push(self@.take(i as int), self@[i as int]);
                        assert(self@.take(i as int + 1) =~= self@.take(i as int).push(
                            self@[i as int],
                        ));
                        assert(old(encoder)@ + spec_leb128(self@.len()) + enc_elems(
                            self@.take(i as int),
                        ) + self@[i as int].enc() =~= old(encoder)@ + spec_leb128(self@.len())
                            + enc_elems(self@.take(i as int + 1)));
                    }
                },
                Err(e) => {
                    return Err(e);
                },
            }
            i = i + 1;
        }
        proof {
            assert(self@.take(self@.len() as int) =~= self@);
            assert(old(encoder)@ + spec_leb128(self@.len()) + enc_elems(self@) =~= old(encoder)@
                + (spec_leb128(self@.len()) + enc_elems(self@)));
        }
        Ok(())
    }
}

/// A fixed-size array is still a sequence on the wire: its compile-time
/// length is written as a varint prefix like any other container, then each
/// element in order.
impl<T: HiveEncode, const N: usize> HiveEncode for [T; N] {
    open spec fn enc_ok(&self) -> bool {
        forall|i: int| 0 <= i < self@.len() ==> #[trigger] self@[i].enc_ok()
    }

    open spec fn enc(&self) -> Seq<u8> {
        spec_leb128(N as nat) + enc_elems(self@)
    }

    fn encode(&self, encoder: &mut HiveEncoderImpl) -> (r: Result<(), EncodeError>) {
        let elems: &[T] = self.as_slice();
        encode_slice_len(encoder, N)?;
        let mut i: usize = 0;
        while i < N
            invariant
                i <= N,
                elems@ == self@,
                self@.len() == N,
                forall|j: int| 0 <= j < i ==> #[trigger] self@[j].enc_ok(),
                encoder@ == old(encoder)@ + spec_leb128(N as nat) + enc_elems(
                    self@.take(i as int),
                ),
            decreases N - i,
        {
            let elem = vstd::slice::slice_index_get(elems, i);
            match elem.encode(encoder) {
                Ok(()) => {
                    proof {
                        lemma_enc_elems_push(self@.take(i as int), self@[i as int]);
                        assert(self@.take(i as int + 1) =~= self@.take(i as int).push(
                            self@[i as int],
                        ));
                        assert(old(encoder)@ + spec_leb128(N as nat) + enc_elems(
                            self@.take(i as int),
                        ) + self@[i as int].enc() =~= old(encoder)@ + spec_leb128(N as nat)
                            + enc_elems(self@.take(i as int + 1)));
                    }
                },
                Err(e) => {
                    return Err(e);
                },
            }
            i = i + 1;
        }
        proof {
            assert(self@.take(N as int) =~= self@);
            assert(old(encoder)@ + spec_leb128(N as nat) + enc_elems(self@) =~= old(encoder)@ + (
            spec_leb128(N as nat) + enc_elems(self@)));
        }
        Ok(())
    }
}

/// An explicitly varint-encoded unsigned integer, for values whose wire form
/// is a base-128 varint rather than a fixed-width field (operation tags).
pub struct LEB128(pub u64);

impl HiveEncode for LEB128 {
    open spec fn enc_ok(&self) -> bool {
        true
    }

    open spec fn enc(&self) -> Seq<u8> {
        spec_leb128(self.0 as nat)
    }

    fn encode(&self, encoder: &mut HiveEncoderImpl) -> (r: Result<(), EncodeError>) {
        encode_leb128_unsigned(encoder, self.0)
    }
}

impl From<u8> for LEB128 {
    fn from(v: u8) -> (r: LEB128) {
        LEB128(v as u64)
    }
}

impl vstd::std_specs::convert::FromSpecImpl<u8> for LEB128 {
    open spec fn obeys_from_spec() -> bool {
        true
    }

    open spec fn from_spec(v: u8) -> LEB128 {
        LEB128(v as u64)
    }
}

impl From<u16> for LEB128 {
    fn from(v: u16) -> (r: LEB128) {
        LEB128(v as u64)
    }
}

impl vstd::std_specs::convert::FromSpecImpl<u16> for LEB128 {
    open spec fn obeys_from_spec() -> bool {
        true
    }

    open spec fn from_spec(v: u16) -> LEB128 {
        LEB128(v as u64)
    }
}

impl From<u32> for LEB128 {
    fn from(v: u32) -> (r: LEB128) {
        LEB128(v as u64)
    }
}

impl vstd::std_specs::convert::FromSpecImpl<u32> for LEB128 {
    open spec fn obeys_from_spec() -> bool {
        true
    }

    open spec fn from_spec(v: u32) -> LEB128 {
        LEB128(v as u64)
    }
}

impl From<u64> for LEB128 {
    fn from(v: u64) -> (r: LEB128) {
        LEB128(v)
    }
}

impl vstd::std_specs::convert::FromSpecImpl<u64> for LEB128 {
    open spec fn obeys_from_spec() -> bool {
        true
    }

    open spec fn from_spec(v: u64) -> LEB128 {
        LEB128(v)
    }
}

/// Encodes a single value into a fresh byte vector: the entry point of the
/// codec. On success the vector holds exactly the canonical image of `t`.
pub fn encode_to_vec<T: HiveEncode>(t: T) -> (r: Result<Vec<u8>, EncodeError>)
    ensures
        r is Ok <==> t.enc_ok(),
        t.enc_ok() ==> r->Ok_0@ == t.enc(),
{
    let mut encoder = HiveEncoderImpl::new(VecWriter::new());
    match t.encode(&mut encoder) {
        Ok(()) => {
            let out = encoder.into_writer().collect();
            proof {
                assert(Seq::<u8>::empty() + t.enc() =~= t.enc());
            }
            Ok(out)
        },
        Err(e) => Err(e),
    }
}

/// The failure modes of narrowing a signed 64-bit value to unsigned 32 bits.
#[derive(Debug, Clone, Copy, PartialEq, Eq, Structural)]
pub enum CastError {
    Overflow,
    Underflow,
}

/// Narrows a signed 64-bit value to unsigned 32 bits, rejecting values
/// outside `[0, u32::MAX]` instead of wrapping or clamping.
pub fn cast_i64_to_u32(src: i64) -> (r: Result<u32, CastError>)
    ensures
        0 <= src <= u32::MAX <==> r is Ok,
        r is Ok ==> r->Ok_0 == src,
        src < 0 ==> r == Result::<u32, CastError>::Err(CastError::Underflow),
        src > u32::MAX ==> r == Result::<u32, CastError>::Err(CastError::Overflow),
{
    if src < 0 {
        Err(CastError::Underflow)
    } else if src > u32::MAX as i64 {
        Err(CastError::Overflow)
    } else {
        Ok(src as u32)
    }
}

} // verus!
