//! Conversion between the 256-bit external monetary unit and the native one,
//! and from a public-key hash to a native address.

use vstd::prelude::*;
use crate::error::DecodeError;

verus! {

/// Number of external units (18 fractional digits) in one native unit (8 fractional digits).
pub const UNIT_RATIO: u64 = 10_000_000_000;

/// Largest native amount: 21 million coins of 10^8 base units each.
pub const MAX_NATIVE_AMOUNT: u64 = 2_100_000_000_000_000;

/// The number that `bytes` spell in base 256, most significant byte first.
pub open spec fn be_value(bytes: Seq<u8>) -> nat
    decreases bytes.len(),
{
    if bytes.len() == 0 {
        0
    } else {
        be_value(bytes.drop_last()) * 256 + bytes.last() as nat
    }
}

/// The `len` bytes that spell `value` in base 256, most significant byte
/// first. What of `value` does not fit in `len` bytes is left out.
pub open spec fn be_bytes(value: nat, len: nat) -> Seq<u8>
    decreases len,
{
    if len == 0 {
        Seq::empty()
    } else {
        be_bytes(value / 256, (len - 1) as nat).push((value % 256) as u8)
    }
}

/// 256 to the power of `len`: the number of values that `len` bytes can spell.
pub open spec fn byte_range(len: nat) -> nat
    decreases len,
{
    if len == 0 {
        1
    } else {
        256 * byte_range((len - 1) as nat)
    }
}

/// The number that four 64-bit words spell, least significant word first.
pub open spec fn words_value(words: Seq<u64>) -> nat
    recommends
        words.len() == 4,
{
    words[0] as nat + words[1] as nat * 0x1_0000_0000_0000_0000
        + words[2] as nat * 0x1_0000_0000_0000_0000_0000_0000_0000_0000
        + words[3] as nat * 0x1_0000_0000_0000_0000_0000_0000_0000_0000_0000_0000_0000_0000
}

/// An external value counted in native units, rounded down.
pub open spec fn native_quotient(value: Seq<u8>) -> nat {
    be_value(value) / (UNIT_RATIO as nat)
}

/// A native amount of money: at most [`MAX_NATIVE_AMOUNT`] base units.
#[derive(Debug, Clone, Copy, PartialEq, Eq)]
pub struct NativeAmount {
    zatoshis: u64,
}

impl View for NativeAmount {
    type V = nat;

    closed spec fn view(&self) -> nat {
        self.zatoshis as nat
    }
}

impl NativeAmount {
    #[verifier::type_invariant]
    spec fn in_range(self) -> bool {
        self.zatoshis <= MAX_NATIVE_AMOUNT
    }

    /// The amount of `zatoshis` base units, if that many can exist.
    pub fn new(zatoshis: u64) -> (amount: Option<Self>)
        ensures
            amount.is_some() <==> zatoshis <= MAX_NATIVE_AMOUNT,
            amount matches Some(a) ==> a@ == zatoshis,
    {
        if zatoshis <= MAX_NATIVE_AMOUNT {
            Some(NativeAmount { zatoshis })
        } else {
            None
        }
    }

    /// Amounts of as many base units are the same amount.
    pub proof fn lemma_view_tells_apart(self, other: Self)
        requires
            self@ == other@,
        ensures
            self == other,
    {
    }

    /// The number of base units.
    pub fn zatoshis(&self) -> (z: u64)
        ensures
            z == self@,
            z <= MAX_NATIVE_AMOUNT,
    {
        proof {
            use_type_invariant(self);
        }
        self.zatoshis
    }
}

/// The network that an address belongs to.
#[derive(Debug, Clone, Copy, PartialEq, Eq, Structural)]
pub enum Network {
    Mainnet,
    Testnet,
    Regtest,
}

/// A native transparent address that pays to a public-key hash.
#[derive(Debug, Clone, Copy, PartialEq, Eq)]
pub struct NativeAddress {
    pub network: Network,
    pub pub_key_hash: [u8; 20],
}

/// What a native address holds.
pub struct NativeAddressView {
    pub network: Network,
    pub pub_key_hash: Seq<u8>,
}

impl View for NativeAddress {
    type V = NativeAddressView;

    open spec fn view(&self) -> NativeAddressView {
        NativeAddressView { network: self.network, pub_key_hash: self.pub_key_hash@ }
    }
}

impl NativeAddress {
    /// Addresses of one network and one hash are the same address.
    pub proof fn lemma_view_tells_apart(self, other: Self)
        requires
            self@ == other@,
        ensures
            self == other,
    {
        assert(self.pub_key_hash@ =~= other.pub_key_hash@);
        assert(self.pub_key_hash == other.pub_key_hash);
    }
}

/// Wraps a public-key hash as a native address of the main network.
pub fn to_native_address(hash: [u8; 20]) -> (address: NativeAddress)
    ensures
        address@ == (NativeAddressView { network: Network::Mainnet, pub_key_hash: hash@ }),
{
    NativeAddress { network: Network::Mainnet, pub_key_hash: hash }
}

/// Divides a 256-bit number by a 64-bit one, with `U256::from_big_endian`,
/// `U256::from` and `U256::checked_div` of `ethereum_types`.
///
/// The dividend is given most significant byte first; the quotient comes
/// back as the four words of the `U256`, least significant first. The
/// division rounds down, and only a zero divisor has no quotient.
#[verifier::external_body]
fn quotient_words(dividend: &[u8; 32], divisor: u64) -> (quotient: Option<[u64; 4]>)
    ensures
        quotient.is_none() <==> divisor == 0,
        quotient matches Some(words) ==> words_value(words@) == be_value(dividend@) / (divisor as nat),
{
    ethereum_types::U256::from_big_endian(dividend)
        .checked_div(ethereum_types::U256::from(divisor))
        .map(|q| q.0)
}

/// Converts an external value to the native unit: the value divided by
/// [`UNIT_RATIO`], rounded down. Fails if the quotient is more than
/// [`MAX_NATIVE_AMOUNT`].
pub fn to_native_amount(value: &[u8; 32]) -> (amount: Result<NativeAmount, DecodeError>)
    ensures
        amount.is_ok() <==> native_quotient(value@) <= MAX_NATIVE_AMOUNT,
        amount matches Ok(a) ==> a@ == native_quotient(value@),
        amount matches Err(e) ==> e == DecodeError::AmountOutOfRange,
{
    match quotient_words(value, UNIT_RATIO) {
        Some(words) => {
            if words[1] == 0 && words[2] == 0 && words[3] == 0 && words[0] <= MAX_NATIVE_AMOUNT {
                Ok(NativeAmount { zatoshis: words[0] })
            } else {
                Err(DecodeError::AmountOutOfRange)
            }
        },
        None => Err(DecodeError::AmountOutOfRange),
    }
}

/// A native amount in the external unit, as a 256-bit number, most
/// significant byte first.
pub fn to_external_value(amount: NativeAmount) -> (value: [u8; 32])
    ensures
        value@ == be_bytes(amount@ * (UNIT_RATIO as nat), 32),
{
    let total: u128 = amount.zatoshis() as u128 * UNIT_RATIO as u128;
    let mut rest: u128 = total;
    let mut value = [0u8; 32];
    let mut i: usize = 32;
    while i > 0
        invariant
            i <= 32,
            be_bytes(total as nat, 32) == be_bytes(rest as nat, i as nat) + value@.subrange(
                i as int,
                32,
            ),
        decreases i,
    {
        let ghost before = value@;
        i -= 1;
        value[i] = (rest % 256) as u8;
        assert(be_bytes(rest as nat, (i + 1) as nat) + before.subrange(i + 1, 32) =~= be_bytes(
            (rest / 256) as nat,
            i as nat,
        ) + value@.subrange(i as int, 32));
        rest = rest / 256;
    }
    assert(be_bytes(rest as nat, 0) + value@.subrange(0, 32) =~= value@);
    value
}

/// Bytes that spell a value that fits in them spell that value.
pub proof fn lemma_be_bytes_spell_value(value: nat, len: nat)
    requires
        value < byte_range(len),
    ensures
        be_bytes(value, len).len() == len,
        be_value(be_bytes(value, len)) == value,
    decreases len,
{
    if len > 0 {
        let upper = be_bytes(value / 256, (len - 1) as nat);
        lemma_be_bytes_spell_value(value / 256, (len - 1) as nat);
        assert(be_bytes(value, len).drop_last() =~= upper);
    } else {
        assert(be_bytes(value, len).len() == 0);
    }
}

/// What [`to_external_value`] gives, [`to_native_amount`] converts back to
/// the amount it came from.
pub proof fn lemma_external_value_converts_back(amount: NativeAmount)
    requires
        amount@ <= MAX_NATIVE_AMOUNT,
    ensures
        native_quotient(be_bytes(amount@ * (UNIT_RATIO as nat), 32)) == amount@,
{
    let total = amount@ * (UNIT_RATIO as nat);
    assert(byte_range(32) >= 0x1_0000_0000_0000_0000_0000_0000_0000_0000) by {
        reveal_with_fuel(byte_range, 33);
    }
    assert(total <= 2_100_000_000_000_000 * 10_000_000_000) by (nonlinear_arith)
        requires
            total == amount@ * 10_000_000_000,
            amount@ <= 2_100_000_000_000_000,
    ;
    lemma_be_bytes_spell_value(total, 32);
    assert(total / 10_000_000_000 == amount@) by (nonlinear_arith)
        requires
            total == amount@ * 10_000_000_000,
    ;
}

} // verus!
