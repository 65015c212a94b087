//! The domain value types and the operation model: assets with
//! symbol-derived fixed-point precision, weighted authority lists, and the
//! tagged union of transferable actions. Each operation variant carries a
//! fixed numeric id (for the binary signing channel) and a fixed string tag
//! (for the outward wire channel); the two are defined together, per variant,
//! so they cannot drift apart.

use vstd::prelude::*;
use vstd::string::StrSliceExecFns;
use vstd::string::StringExecFns;

use crate::crypto::PublicKey;
use crate::enc::spec_le_bytes;
use crate::enc::spec_leb128;
use crate::enc::spec_two_complement64;
use crate::enc::EncodeError;
use crate::enc::HiveEncode;
use crate::enc::HiveEncoderImpl;
use crate::enc::LEB128;
use crate::text::push_dec_i64;
use crate::text::spec_dec_string_i64;

verus! {

/// The tradable symbols this library knows. Two aliasing rules are part of
/// the wire format: the modern primary symbol encodes under its
/// predecessor's ASCII name, and the backing dollar encodes under the legacy
/// `SBD` abbreviation.
#[derive(Debug, Clone, Copy, PartialEq, Eq, Structural)]
pub enum AssetSymbol {
    HIVE,
    VESTS,
    HBD,
    TESTS,
    TBD,
    STEEM,
    SBD,
}

/// Failure to recognise a network asset id.
#[derive(Debug, Clone, Copy, PartialEq, Eq, Structural)]
pub struct NaiError;

/// The number of decimal places carried by amounts of this symbol: the
/// vesting symbol uses six, all others three.
pub open spec fn spec_precision(sym: AssetSymbol) -> u8 {
    match sym {
        AssetSymbol::VESTS => 6,
        _ => 3,
    }
}

/// The fixed-point scale factor of this symbol: `10^precision`.
pub open spec fn spec_scale(sym: AssetSymbol) -> int {
    match sym {
        AssetSymbol::VESTS => 1_000_000,
        _ => 1_000,
    }
}

/// The fixed 7-byte, null-padded, left-aligned ASCII field a symbol encodes
/// as, including both legacy aliasing rules (byte values spell `STEEM`,
/// `SBD`, `VESTS`, `TESTS`, `TBD`).
pub open spec fn spec_symbol_code(sym: AssetSymbol) -> Seq<u8> {
    match sym {
        AssetSymbol::HIVE => seq![83, 84, 69, 69, 77, 0, 0],
        AssetSymbol::STEEM => seq![83, 84, 69, 69, 77, 0, 0],
        AssetSymbol::HBD => seq![83, 66, 68, 0, 0, 0, 0],
        AssetSymbol::SBD => seq![83, 66, 68, 0, 0, 0, 0],
        AssetSymbol::VESTS => seq![86, 69, 83, 84, 83, 0, 0],
        AssetSymbol::TESTS => seq![84, 69, 83, 84, 83, 0, 0],
        AssetSymbol::TBD => seq![84, 66, 68, 0, 0, 0, 0],
    }
}

/// The display name of a symbol, used by the outward text form of an asset.
pub open spec fn spec_symbol_text(sym: AssetSymbol) -> Seq<char> {
    match sym {
        AssetSymbol::HIVE => "HIVE"@,
        AssetSymbol::VESTS => "VESTS"@,
        AssetSymbol::HBD => "HBD"@,
        AssetSymbol::TESTS => "TESTS"@,
        AssetSymbol::TBD => "TBD"@,
        AssetSymbol::STEEM => "STEEM"@,
        AssetSymbol::SBD => "SBD"@,
    }
}

impl AssetSymbol {
    /// Resolves a network asset id (`@@...`) to its symbol; ids not in the
    /// table are rejected.
    pub fn try_from_nai(nai: &str) -> (r: Result<AssetSymbol, NaiError>)
        ensures
            nai@ == "@@00000013"@ ==> r == Result::<AssetSymbol, NaiError>::Ok(AssetSymbol::HBD),
            nai@ == "@@00000021"@ ==> r == Result::<AssetSymbol, NaiError>::Ok(AssetSymbol::STEEM),
            nai@ == "@@00000037"@ ==> r == Result::<AssetSymbol, NaiError>::Ok(AssetSymbol::VESTS),
            nai@ != "@@00000013"@ && nai@ != "@@00000021"@ && nai@ != "@@00000037"@ ==> r
                == Result::<AssetSymbol, NaiError>::Err(NaiError),
    {
        proof {
            reveal_strlit("@@00000013");
            reveal_strlit("@@00000021");
            reveal_strlit("@@00000037");
            assert("@@00000013"@ != "@@00000021"@) by {
                assert("@@00000013"@[8] != "@@00000021"@[8]);
            }
            assert("@@00000013"@ != "@@00000037"@) by {
                assert("@@00000013"@[8] != "@@00000037"@[8]);
            }
            assert("@@00000021"@ != "@@00000037"@) by {
                assert("@@00000021"@[8] != "@@00000037"@[8]);
            }
        }
        if str_eq(nai, "@@00000013") {
            Ok(AssetSymbol::HBD)
        } else if str_eq(nai, "@@00000021") {
            Ok(AssetSymbol::STEEM)
        } else if str_eq(nai, "@@00000037") {
            Ok(AssetSymbol::VESTS)
        } else {
            Err(NaiError)
        }
    }

    /// The display name of the symbol.
    pub fn display_str(&self) -> (r: &'static str)
        ensures
            r@ == spec_symbol_text(*self),
    {
        match self {
            AssetSymbol::HIVE => "HIVE",
            AssetSymbol::VESTS => "VESTS",
            AssetSymbol::HBD => "HBD",
            AssetSymbol::TESTS => "TESTS",
            AssetSymbol::TBD => "TBD",
            AssetSymbol::STEEM => "STEEM",
            AssetSymbol::SBD => "SBD",
        }
    }
}

/// Character-by-character string equality.
fn str_eq(a: &str, b: &str) -> (r: bool)
    ensures
        r == (a@ == b@),
{
    let n = a.unicode_len();
    let m = b.unicode_len();
    if n != m {
        return false;
    }
    let mut i: usize = 0;
    while i < n
        invariant
            n == a@.len(),
            n == b@.len(),
            i <= n,
            forall|j: int| 0 <= j < i ==> a@[j] == b@[j],
        decreases n - i,
    {
        if a.get_char(i) != b.get_char(i) {
            return false;
        }
        i = i + 1;
    }
    proof {
        assert(a@ =~= b@);
    }
    true
}

impl HiveEncode for AssetSymbol {
    open spec fn enc_ok(&self) -> bool {
        true
    }

    open spec fn enc(&self) -> Seq<u8> {
        spec_symbol_code(*self)
    }

    fn encode(&self, encoder: &mut HiveEncoderImpl) -> (r: Result<(), EncodeError>) {
        match self {
            AssetSymbol::HIVE => write_code7(encoder, 83, 84, 69, 69, 77, 0, 0),
            AssetSymbol::STEEM => write_code7(encoder, 83, 84, 69, 69, 77, 0, 0),
            AssetSymbol::HBD => write_code7(encoder, 83, 66, 68, 0, 0, 0, 0),
            AssetSymbol::SBD => write_code7(encoder, 83, 66, 68, 0, 0, 0, 0),
            AssetSymbol::VESTS => write_code7(encoder, 86, 69, 83, 84, 83, 0, 0),
            AssetSymbol::TESTS => write_code7(encoder, 84, 69, 83, 84, 83, 0, 0),
            AssetSymbol::TBD => write_code7(encoder, 84, 66, 68, 0, 0, 0, 0),
        }
    }
}

/// Writes the fixed 7-byte symbol field, with no length prefix: a fixed-size
/// ASCII window, not a sequence.
fn write_code7(
    encoder: &mut HiveEncoderImpl,
    b0: u8,
    b1: u8,
    b2: u8,
    b3: u8,
    b4: u8,
    b5: u8,
    b6: u8,
) -> (r: Result<(), EncodeError>)
    ensures
        r is Ok,
        final(encoder)@ == old(encoder)@ + seq![b0, b1, b2, b3, b4, b5, b6],
{
    encoder.write_u8(b0);
    encoder.write_u8(b1);
    encoder.write_u8(b2);
    encoder.write_u8(b3);
    encoder.write_u8(b4);
    encoder.write_u8(b5);
    encoder.write_u8(b6);
    proof {
        assert(old(encoder)@ + seq![b0] + seq![b1] + seq![b2] + seq![b3] + seq![b4] + seq![b5]
            + seq![b6] =~= old(encoder)@ + seq![b0, b1, b2, b3, b4, b5, b6]);
    }
    Ok(())
}

/// A fixed-point amount of one symbol. `amount` is the display value; the
/// wire form rescales it by `10^precision`, so the integer wire amount is
/// `amount * scale`, the precision byte follows, then the 7-byte symbol
/// field.
#[derive(Debug, Clone, Copy, PartialEq, Eq, Structural)]
pub struct Asset {
    pub amount: i64,
    pub symbol: AssetSymbol,
}

impl Asset {
    pub fn new(amount: i64, symbol: AssetSymbol) -> (r: Asset)
        ensures
            r == (Asset { amount, symbol }),
    {
        Asset { amount, symbol }
    }

    /// The number of decimal places of this asset's symbol.
    pub fn precision(&self) -> (r: u8)
        ensures
            r == spec_precision(self.symbol),
    {
        match self.symbol {
            AssetSymbol::VESTS => 6,
            _ => 3,
        }
    }

    /// True at runtime exactly when the rescaled amount fits the signed
    /// 64-bit wire field, so that encoding this asset will succeed.
    pub fn is_encodable(&self) -> (r: bool)
        ensures
            r == self.enc_ok(),
    {
        if self.precision() == 6 {
            -9_223_372_036_854 <= self.amount && self.amount <= 9_223_372_036_854
        } else {
            -9_223_372_036_854_775 <= self.amount && self.amount <= 9_223_372_036_854_775
        }
    }

    /// The outward text form: the display amount spelled to exactly
    /// `precision` decimal places, a space, then the display symbol.
    pub fn to_text(&self) -> (r: String)
        ensures
            r@ == spec_asset_text(*self),
    {
        let mut s = String::new();
        push_dec_i64(&mut s, self.amount);
        s.append(".");
        if self.precision() == 6 {
            s.append("000000");
        } else {
            s.append("000");
        }
        s.append(" ");
        s.append(self.symbol.display_str());
        proof {
            assert(s@ =~= spec_asset_text(*self));
        }
        s
    }
}

/// The outward text form of an asset: since the display amount is integral,
/// the fraction digits are always zero.
pub open spec fn spec_asset_text(a: Asset) -> Seq<char> {
    spec_dec_string_i64(a.amount as int) + "."@ + (if spec_precision(a.symbol) == 6 {
        "000000"@
    } else {
        "000"@
    }) + " "@ + spec_symbol_text(a.symbol)
}

/// The rescaled integer wire amount of an asset.
pub open spec fn spec_asset_wire_amount(a: Asset) -> int {
    a.amount * spec_scale(a.symbol)
}

/// The two's-complement image of a 64-bit-range integer.
pub open spec fn spec_two_complement_int(v: int) -> nat
    recommends
        i64::MIN <= v <= i64::MAX,
{
    if v >= 0 {
        v as nat
    } else {
        (v + 0x1_0000_0000_0000_0000) as nat
    }
}

impl HiveEncode for Asset {
    /// An asset is representable when the rescaled amount still fits the
    /// signed 64-bit wire field.
    open spec fn enc_ok(&self) -> bool {
        i64::MIN <= spec_asset_wire_amount(*self) <= i64::MAX
    }

    open spec fn enc(&self) -> Seq<u8> {
        spec_le_bytes(spec_two_complement_int(spec_asset_wire_amount(*self)), 8) + seq![
            spec_precision(self.symbol),
        ] + spec_symbol_code(self.symbol)
    }

    fn encode(&self, encoder: &mut HiveEncoderImpl) -> (r: Result<(), EncodeError>) {
        let amount = self.amount;
        let scaled: i64 = if self.precision() == 6 {
            if amount < -9_223_372_036_854 || amount > 9_223_372_036_854 {
                return Err(EncodeError::Error);
            }
            amount * 1_000_000
        } else {
            if amount < -9_223_372_036_854_775 || amount > 9_223_372_036_854_775 {
                return Err(EncodeError::Error);
            }
            amount * 1_000
        };
        proof {
            assert(scaled as int == spec_asset_wire_amount(*self));
            assert(spec_two_complement64(scaled) == spec_two_complement_int(
                spec_asset_wire_amount(*self),
            ));
        }
        scaled.encode(encoder)?;
        let prec = self.precision();
        encoder.write_u8(prec);
        match self.symbol.encode(encoder) {
            Ok(()) => {},
            Err(e) => {
                return Err(e);
            },
        }
        proof {
            assert(old(encoder)@ + spec_le_bytes(
                spec_two_complement_int(spec_asset_wire_amount(*self)),
                8,
            ) + seq![spec_precision(self.symbol)] + spec_symbol_code(self.symbol) =~= old(encoder)@
                + self.enc());
        }
        Ok(())
    }
}

/// A weighted list of accounts and keys authorised to act; element order is
/// caller-significant and is never re-sorted.
#[derive(Debug)]
pub struct AuthorityType {
    pub weight_threshold: u32,
    pub account_auths: Vec<(PublicKey, u16)>,
    pub key_auths: Vec<(PublicKey, u16)>,
}

impl AuthorityType {
    /// True at runtime exactly when every listed key is well formed, so that
    /// encoding this authority will succeed.
    pub fn is_encodable(&self) -> (r: bool)
        ensures
            r == self.enc_ok(),
    {
        weighted_keys_encodable(&self.account_auths) && weighted_keys_encodable(&self.key_auths)
    }
}

/// True exactly when every key in a weighted list is well formed.
fn weighted_keys_encodable(list: &Vec<(PublicKey, u16)>) -> (r: bool)
    ensures
        r == list.enc_ok(),
{
    let mut i: usize = 0;
    while i < list.len()
        invariant
            i <= list@.len(),
            forall|j: int| 0 <= j < i ==> #[trigger] list@[j].enc_ok(),
        decreases list@.len() - i,
    {
        if !list[i].0.is_well_formed() {
            proof {
                assert(!list@[i as int].enc_ok());
            }
            return false;
        }
        i = i + 1;
    }
    true
}

impl HiveEncode for (PublicKey, u16) {
    open spec fn enc_ok(&self) -> bool {
        self.0.enc_ok()
    }

    open spec fn enc(&self) -> Seq<u8> {
        self.0.enc() + self.1.enc()
    }

    fn encode(&self, encoder: &mut HiveEncoderImpl) -> (r: Result<(), EncodeError>) {
        self.0.encode(encoder)?;
        self.1.encode(encoder)?;
        proof {
            if self.enc_ok() {
                assert(old(encoder)@ + self.0.enc() + self.1.enc() =~= old(encoder)@ + self.enc());
            }
        }
        Ok(())
    }
}

impl HiveEncode for AuthorityType {
    open spec fn enc_ok(&self) -> bool {
        self.account_auths.enc_ok() && self.key_auths.enc_ok()
    }

    open spec fn enc(&self) -> Seq<u8> {
        self.weight_threshold.enc() + self.account_auths.enc() + self.key_auths.enc()
    }

    fn encode(&self, encoder: &mut HiveEncoderImpl) -> (r: Result<(), EncodeError>) {
        self.weight_threshold.encode(encoder)?;
        self.account_auths.encode(encoder)?;
        self.key_auths.encode(encoder)?;
        proof {
            if self.enc_ok() {
                assert(old(encoder)@ + self.weight_threshold.enc() + self.account_auths.enc()
                    + self.key_auths.enc() =~= old(encoder)@ + self.enc());
            }
        }
        Ok(())
    }
}

/// A free-form action with arbitrary string data, authorised by named
/// accounts.
#[derive(Debug, Clone)]
pub struct Custom {
    pub required_auths: Vec<String>,
    pub id: u32,
    pub data: String,
}

impl HiveEncode for Custom {
    open spec fn enc_ok(&self) -> bool {
        true
    }

    open spec fn enc(&self) -> Seq<u8> {
        self.required_auths.enc() + self.id.enc() + self.data.enc()
    }

    fn encode(&self, encoder: &mut HiveEncoderImpl) -> (r: Result<(), EncodeError>) {
        self.required_auths.encode(encoder)?;
        self.id.encode(encoder)?;
        self.data.encode(encoder)?;
        proof {
            assert(old(encoder)@ + self.required_auths.enc() + self.id.enc() + self.data.enc()
                =~= old(encoder)@ + self.enc());
        }
        Ok(())
    }
}

/// A free-form JSON action, authorised by named accounts under their active
/// or posting authority.
#[derive(Debug, Clone)]
pub struct CustomJson {
    pub required_auths: Vec<String>,
    pub required_posting_auths: Vec<String>,
    pub id: String,
    pub json: String,
}

impl HiveEncode for CustomJson {
    open spec fn enc_ok(&self) -> bool {
        true
    }

    open spec fn enc(&self) -> Seq<u8> {
        self.required_auths.enc() + self.required_posting_auths.enc() + self.id.enc()
            + self.json.enc()
    }

    fn encode(&self, encoder: &mut HiveEncoderImpl) -> (r: Result<(), EncodeError>) {
        self.required_auths.encode(encoder)?;
        self.required_posting_auths.encode(encoder)?;
        self.id.encode(encoder)?;
        self.json.encode(encoder)?;
        proof {
            assert(old(encoder)@ + self.required_auths.enc() + self.required_posting_auths.enc()
                + self.id.enc() + self.json.enc() =~= old(encoder)@ + self.enc());
        }
        Ok(())
    }
}

/// A vote on a post, identified by author and permlink.
#[derive(Debug, Clone)]
pub struct Vote {
    pub voter: String,
    pub author: String,
    pub permlink: String,
    pub weight: i32,
}

impl HiveEncode for Vote {
    open spec fn enc_ok(&self) -> bool {
        true
    }

    open spec fn enc(&self) -> Seq<u8> {
        self.voter.enc() + self.author.enc() + self.permlink.enc() + self.weight.enc()
    }

    fn encode(&self, encoder: &mut HiveEncoderImpl) -> (r: Result<(), EncodeError>) {
        self.voter.encode(encoder)?;
        self.author.encode(encoder)?;
        self.permlink.encode(encoder)?;
        self.weight.encode(encoder)?;
        proof {
            assert(old(encoder)@ + self.voter.enc() + self.author.enc() + self.permlink.enc()
                + self.weight.enc() =~= old(encoder)@ + self.enc());
        }
        Ok(())
    }
}

/// A vote on a post; the same fields and wire image as `Vote`.
#[derive(Debug, Clone)]
pub struct VoteOperation {
    pub voter: String,
    pub author: String,
    pub permlink: String,
    pub weight: i32,
}

impl HiveEncode for VoteOperation {
    open spec fn enc_ok(&self) -> bool {
        true
    }

    open spec fn enc(&self) -> Seq<u8> {
        self.voter.enc() + self.author.enc() + self.permlink.enc() + self.weight.enc()
    }

    fn encode(&self, encoder: &mut HiveEncoderImpl) -> (r: Result<(), EncodeError>) {
        self.voter.encode(encoder)?;
        self.author.encode(encoder)?;
        self.permlink.encode(encoder)?;
        self.weight.encode(encoder)?;
        proof {
            assert(old(encoder)@ + self.voter.enc() + self.author.enc() + self.permlink.enc()
                + self.weight.enc() =~= old(encoder)@ + self.enc());
        }
        Ok(())
    }
}

/// Creation of a new account, funded by a fee and equipped with its three
/// authority lists and memo key.
#[derive(Debug)]
pub struct AccountCreate {
    pub fee: Asset,
    pub creator: String,
    pub new_account_name: String,
    pub owner: AuthorityType,
    pub active: AuthorityType,
    pub posting: AuthorityType,
    pub memo_key: PublicKey,
    pub json_metadata: String,
}

impl HiveEncode for AccountCreate {
    open spec fn enc_ok(&self) -> bool {
        self.fee.enc_ok() && self.owner.enc_ok() && self.active.enc_ok() && self.posting.enc_ok()
            && self.memo_key.enc_ok()
    }

    open spec fn enc(&self) -> Seq<u8> {
        self.fee.enc() + self.creator.enc() + self.new_account_name.enc() + self.owner.enc()
            + self.active.enc() + self.posting.enc() + self.memo_key.enc()
            + self.json_metadata.enc()
    }

    fn encode(&self, encoder: &mut HiveEncoderImpl) -> (r: Result<(), EncodeError>) {
        self.fee.encode(encoder)?;
        self.creator.encode(encoder)?;
        self.new_account_name.encode(encoder)?;
        self.owner.encode(encoder)?;
        self.active.encode(encoder)?;
        self.posting.encode(encoder)?;
        self.memo_key.encode(encoder)?;
        self.json_metadata.encode(encoder)?;
        proof {
            assert(old(encoder)@ + self.fee.enc() + self.creator.enc()
                + self.new_account_name.enc() + self.owner.enc() + self.active.enc()
                + self.posting.enc() + self.memo_key.enc() + self.json_metadata.enc() =~= old(
                encoder,
            )@ + self.enc());
        }
        Ok(())
    }
}

/// Creation of a new account that also delegates vesting shares to it.
#[derive(Debug)]
pub struct AccountCreateWithDelegation {
    pub fee: Asset,
    pub delegation: Asset,
    pub creator: String,
    pub new_account_name: String,
    pub owner: AuthorityType,
    pub active: AuthorityType,
    pub posting: AuthorityType,
    pub memo_key: PublicKey,
    pub json_metadata: String,
    pub extensions: Vec<()>,
}

impl HiveEncode for AccountCreateWithDelegation {
    open spec fn enc_ok(&self) -> bool {
        self.fee.enc_ok() && self.delegation.enc_ok() && self.owner.enc_ok()
            && self.active.enc_ok() && self.posting.enc_ok() && self.memo_key.enc_ok()
    }

    open spec fn enc(&self) -> Seq<u8> {
        self.fee.enc() + self.delegation.enc() + self.creator.enc() + self.new_account_name.enc()
            + self.owner.enc() + self.active.enc() + self.posting.enc() + self.memo_key.enc()
            + self.json_metadata.enc() + self.extensions.enc()
    }

    fn encode(&self, encoder: &mut HiveEncoderImpl) -> (r: Result<(), EncodeError>) {
        self.fee.encode(encoder)?;
        self.delegation.encode(encoder)?;
        self.creator.encode(encoder)?;
        self.new_account_name.encode(encoder)?;
        self.owner.encode(encoder)?;
        self.active.encode(encoder)?;
        self.posting.encode(encoder)?;
        self.memo_key.encode(encoder)?;
        self.json_metadata.encode(encoder)?;
        self.extensions.encode(encoder)?;
        proof {
            assert(old(encoder)@ + self.fee.enc() + self.delegation.enc() + self.creator.enc()
                + self.new_account_name.enc() + self.owner.enc() + self.active.enc()
                + self.posting.enc() + self.memo_key.enc() + self.json_metadata.enc()
                + self.extensions.enc() =~= old(encoder)@ + self.enc());
        }
        Ok(())
    }
}

/// The tagged union of transferable actions. The numeric id written on the
/// binary channel and the string tag written on the outward channel are
/// defined here side by side, one arm per variant, so the two projections
/// stay in lockstep.
#[derive(Debug)]
pub enum Operation {
    Custom(Custom),
    CustomJson(CustomJson),
    AccountCreate(AccountCreate),
    AccountCreateWithDelegation(AccountCreateWithDelegation),
}

/// The network-registered numeric id of each operation variant: fixed by the
/// network, independent of local declaration order, and never to drift.
pub open spec fn spec_numeric_id(op: &Operation) -> u64 {
    match op {
        Operation::Custom(_) => 15,
        Operation::CustomJson(_) => 18,
        Operation::AccountCreate(_) => 9,
        Operation::AccountCreateWithDelegation(_) => 41,
    }
}

/// The outward string tag of each operation variant.
pub open spec fn spec_string_tag(op: &Operation) -> Seq<char> {
    match op {
        Operation::Custom(_) => "custom"@,
        Operation::CustomJson(_) => "custom_json"@,
        Operation::AccountCreate(_) => "account_create"@,
        Operation::AccountCreateWithDelegation(_) => "account_create_with_delegation"@,
    }
}

impl Operation {
    /// The network-registered numeric id of this variant.
    pub fn numeric_id(&self) -> (r: u64)
        ensures
            r == spec_numeric_id(self),
    {
        match self {
            Operation::Custom(_) => 15,
            Operation::CustomJson(_) => 18,
            Operation::AccountCreate(_) => 9,
            Operation::AccountCreateWithDelegation(_) => 41,
        }
    }

    /// The outward string tag of this variant.
    pub fn string_tag(&self) -> (r: &'static str)
        ensures
            r@ == spec_string_tag(self),
    {
        match self {
            Operation::Custom(_) => "custom",
            Operation::CustomJson(_) => "custom_json",
            Operation::AccountCreate(_) => "account_create",
            Operation::AccountCreateWithDelegation(_) => "account_create_with_delegation",
        }
    }

    /// True at runtime exactly when encoding this operation will succeed.
    pub fn is_encodable(&self) -> (r: bool)
        ensures
            r == self.enc_ok(),
    {
        match self {
            Operation::Custom(_) => true,
            Operation::CustomJson(_) => true,
            Operation::AccountCreate(op) => op.fee.is_encodable() && op.owner.is_encodable()
                && op.active.is_encodable() && op.posting.is_encodable()
                && op.memo_key.is_well_formed(),
            Operation::AccountCreateWithDelegation(op) => op.fee.is_encodable()
                && op.delegation.is_encodable() && op.owner.is_encodable()
                && op.active.is_encodable() && op.posting.is_encodable()
                && op.memo_key.is_well_formed(),
        }
    }
}

impl HiveEncode for Operation {
    open spec fn enc_ok(&self) -> bool {
        match self {
            Operation::Custom(op) => op.enc_ok(),
            Operation::CustomJson(op) => op.enc_ok(),
            Operation::AccountCreate(op) => op.enc_ok(),
            Operation::AccountCreateWithDelegation(op) => op.enc_ok(),
        }
    }

    /// An operation encodes as the varint of its numeric id, then its
    /// payload's fields in declared order.
    open spec fn enc(&self) -> Seq<u8> {
        spec_leb128(spec_numeric_id(self) as nat) + match self {
            Operation::Custom(op) => op.enc(),
            Operation::CustomJson(op) => op.enc(),
            Operation::AccountCreate(op) => op.enc(),
            Operation::AccountCreateWithDelegation(op) => op.enc(),
        }
    }

    fn encode(&self, encoder: &mut HiveEncoderImpl) -> (r: Result<(), EncodeError>) {
        match self {
            Operation::Custom(op) => {
                LEB128::from(15u8).encode(encoder)?;
                op.encode(encoder)?;
            },
            Operation::CustomJson(op) => {
                LEB128::from(18u8).encode(encoder)?;
                op.encode(encoder)?;
            },
            Operation::AccountCreate(op) => {
                LEB128::from(9u8).encode(encoder)?;
                op.encode(encoder)?;
            },
            Operation::AccountCreateWithDelegation(op) => {
                LEB128::from(41u8).encode(encoder)?;
                op.encode(encoder)?;
            },
        }
        proof {
            if self.enc_ok() {
                assert(encoder@ =~= old(encoder)@ + self.enc());
            }
        }
        Ok(())
    }
}

} // verus!
