//! A library-side model of `PrecDec`, the 27-digit fixed-point decimal of
//! `neutron_std`: a value is held as its 256-bit count of atomics (big-endian
//! bytes), and every arithmetic step is done by `PrecDec` itself.

use vstd::prelude::*;
use vstd::arithmetic::power::pow;
use crate::text::decimal;
use cosmwasm_std::{Uint128, Uint256};
use neutron_std::types::neutron::util::precdec::PrecDec;

verus! {

/// The number of atomics in 1.0: `10^27`.
pub open spec fn scale() -> nat {
    1_000_000_000_000_000_000_000_000_000nat
}

/// One past the largest atomics count: `2^256`.
pub open spec fn dec_limit() -> nat {
    0x1_0000_0000_0000_0000_0000_0000_0000_0000_0000_0000_0000_0000_0000_0000_0000_0000nat
}

/// The unsigned integer that big-endian bytes spell.
pub open spec fn be_value(s: Seq<u8>) -> nat
    decreases s.len(),
{
    if s.len() == 0 {
        0
    } else {
        be_value(s.drop_last()) * 256 + s.last() as nat
    }
}

/// A decimal with 27 fractional digits; its view is its atomics count, so a
/// decimal `d` stands for `d@ / 10^27`.
#[derive(Debug, Clone, Copy)]
pub struct Dec {
    pub atomics: [u8; 32],
}

impl View for Dec {
    type V = nat;

    open spec fn view(&self) -> nat {
        be_value(self.atomics@)
    }
}

/// Why a checked division failed.
#[derive(Debug, Clone, Copy, PartialEq, Eq)]
pub enum RatioError {
    DivideByZero,
    Overflow,
}

/// `PrecDec::zero()`.
#[verifier::external_body]
pub(crate) fn dec_zero() -> (r: Dec)
    ensures
        r@ == 0,
{
    Dec { atomics: PrecDec::zero().atomics().to_be_bytes() }
}

/// `PrecDec::one()`.
#[verifier::external_body]
pub(crate) fn dec_one() -> (r: Dec)
    ensures
        r@ == scale(),
{
    Dec { atomics: PrecDec::one().atomics().to_be_bytes() }
}

/// `PrecDec::percent(x)`: `x / 100`, i.e. `x * 10^25` atomics.
#[verifier::external_body]
pub(crate) fn dec_percent(x: u32) -> (r: Dec)
    ensures
        r@ == x * 10_000_000_000_000_000_000_000_000nat,
{
    Dec { atomics: PrecDec::percent(x).atomics().to_be_bytes() }
}

/// `PrecDec::from_atomics(x, places)` for a `u128` count: the value
/// `x / 10^places`, truncated to 27 digits. It never fails for `u128` input.
#[verifier::external_body]
pub(crate) fn dec_from_atomics(x: u128, places: u32) -> (r: Dec)
    ensures
        r@ == (x * scale()) / pow(10, places as nat),
{
    Dec { atomics: PrecDec::from_atomics(Uint128::new(x), places).unwrap().atomics().to_be_bytes() }
}

/// `PrecDec::from_ratio(numerator, denominator)` for `u128` operands, which
/// panics only for a zero denominator.
#[verifier::external_body]
pub(crate) fn dec_from_ratio(numerator: u128, denominator: u128) -> (r: Dec)
    requires
        denominator != 0,
    ensures
        r@ == (numerator * scale()) / (denominator as int),
{
    Dec { atomics: PrecDec::from_ratio(numerator, denominator).atomics().to_be_bytes() }
}

/// `PrecDec::checked_add`: fails exactly when the sum leaves 256 bits.
#[verifier::external_body]
pub(crate) fn dec_checked_add(a: Dec, b: Dec) -> (r: Option<Dec>)
    ensures
        r is Some <==> a@ + b@ < dec_limit(),
        r matches Some(c) ==> c@ == a@ + b@,
{
    let x = PrecDec::new(Uint256::from_be_bytes(a.atomics));
    match x.checked_add(PrecDec::new(Uint256::from_be_bytes(b.atomics))) {
        Ok(c) => Some(Dec { atomics: c.atomics().to_be_bytes() }),
        Err(_) => None,
    }
}

/// `PrecDec::checked_sub`: fails exactly when `b` exceeds `a`.
#[verifier::external_body]
pub(crate) fn dec_checked_sub(a: Dec, b: Dec) -> (r: Option<Dec>)
    ensures
        r is Some <==> b@ <= a@,
        r matches Some(c) ==> c@ == a@ - b@,
{
    let x = PrecDec::new(Uint256::from_be_bytes(a.atomics));
    match x.checked_sub(PrecDec::new(Uint256::from_be_bytes(b.atomics))) {
        Ok(c) => Some(Dec { atomics: c.atomics().to_be_bytes() }),
        Err(_) => None,
    }
}

/// `PrecDec::checked_mul`: the product truncated to 27 digits; fails exactly
/// when it leaves 256 bits.
#[verifier::external_body]
pub(crate) fn dec_checked_mul(a: Dec, b: Dec) -> (r: Option<Dec>)
    ensures
        r is Some <==> (a@ * b@) / scale() < dec_limit(),
        r matches Some(c) ==> c@ == (a@ * b@) / scale(),
{
    let x = PrecDec::new(Uint256::from_be_bytes(a.atomics));
    match x.checked_mul(PrecDec::new(Uint256::from_be_bytes(b.atomics))) {
        Ok(c) => Some(Dec { atomics: c.atomics().to_be_bytes() }),
        Err(_) => None,
    }
}

/// `PrecDec`'s `*`: the product truncated to 27 digits. It panics when the
/// product leaves 256 bits; `requires` leaves that out.
#[verifier::external_body]
pub(crate) fn dec_mul(a: Dec, b: Dec) -> (r: Dec)
    requires
        (a@ * b@) / scale() < dec_limit(),
    ensures
        r@ == (a@ * b@) / scale(),
{
    let c = PrecDec::new(Uint256::from_be_bytes(a.atomics)) * PrecDec::new(Uint256::from_be_bytes(b.atomics));
    Dec { atomics: c.atomics().to_be_bytes() }
}

/// `PrecDec`'s `-`. It panics when `b` exceeds `a`; `requires` leaves that out.
#[verifier::external_body]
pub(crate) fn dec_sub(a: Dec, b: Dec) -> (r: Dec)
    requires
        b@ <= a@,
    ensures
        r@ == a@ - b@,
{
    let c = PrecDec::new(Uint256::from_be_bytes(a.atomics)) - PrecDec::new(Uint256::from_be_bytes(b.atomics));
    Dec { atomics: c.atomics().to_be_bytes() }
}

/// `PrecDec::checked_div`: the quotient truncated to 27 digits; fails on a
/// zero divisor or when the quotient leaves 256 bits.
#[verifier::external_body]
pub(crate) fn dec_checked_div(a: Dec, b: Dec) -> (r: Result<Dec, RatioError>)
    ensures
        r is Ok <==> (b@ != 0 && (a@ * scale()) / b@ < dec_limit()),
        r matches Ok(c) ==> c@ == (a@ * scale()) / b@,
        r matches Err(e) ==> (e == RatioError::DivideByZero <==> b@ == 0),
{
    let x = PrecDec::new(Uint256::from_be_bytes(a.atomics));
    match x.checked_div(PrecDec::new(Uint256::from_be_bytes(b.atomics))) {
        Ok(c) => Ok(Dec { atomics: c.atomics().to_be_bytes() }),
        Err(cosmwasm_std::CheckedFromRatioError::DivideByZero) => Err(RatioError::DivideByZero),
        Err(cosmwasm_std::CheckedFromRatioError::Overflow) => Err(RatioError::Overflow),
    }
}

/// `PrecDec`'s `<`: compares the atomics.
#[verifier::external_body]
pub(crate) fn dec_lt(a: Dec, b: Dec) -> (r: bool)
    ensures
        r == (a@ < b@),
{
    PrecDec::new(Uint256::from_be_bytes(a.atomics)) < PrecDec::new(Uint256::from_be_bytes(b.atomics))
}

/// `PrecDec::is_zero`.
#[verifier::external_body]
pub(crate) fn dec_is_zero(a: Dec) -> (r: bool)
    ensures
        r == (a@ == 0),
{
    PrecDec::new(Uint256::from_be_bytes(a.atomics)).is_zero()
}

/// `Uint128::try_from(d.to_uint_floor())`: the integer part, when it fits in `u128`.
#[verifier::external_body]
pub(crate) fn dec_floor_u128(a: Dec) -> (r: Option<u128>)
    ensures
        r is Some <==> a@ / scale() <= u128::MAX,
        r matches Some(v) ==> v == a@ / scale(),
{
    match Uint128::try_from(PrecDec::new(Uint256::from_be_bytes(a.atomics)).to_uint_floor()) {
        Ok(v) => Some(v.u128()),
        Err(_) => None,
    }
}

/// `PrecDec::to_prec_dec_string`: the atomics count in decimal.
#[verifier::external_body]
pub(crate) fn dec_atomics_string(a: Dec) -> (r: String)
    ensures
        r@ == decimal(a@),
{
    PrecDec::new(Uint256::from_be_bytes(a.atomics)).to_prec_dec_string()
}

/// `digits` padded on the left with zeros to `width` chars.
pub open spec fn zero_padded(digits: Seq<char>, width: nat) -> Seq<char> {
    if digits.len() >= width {
        digits
    } else {
        Seq::new((width - digits.len()) as nat, |i: int| '0') + digits
    }
}

/// `s` without its trailing zeros.
pub open spec fn trim_trailing_zeros(s: Seq<char>) -> Seq<char>
    decreases s.len(),
{
    if s.len() > 0 && s.last() == '0' {
        trim_trailing_zeros(s.drop_last())
    } else {
        s
    }
}

/// `PrecDec`'s `Display` of the decimal with `v` atomics: the whole part,
/// then, when the fraction is not zero, a point and its 27 digits with the
/// trailing zeros dropped.
pub open spec fn dec_text(v: nat) -> Seq<char> {
    let whole = v / scale();
    let frac = v % scale();
    if frac == 0 {
        decimal(whole)
    } else {
        decimal(whole) + "."@ + trim_trailing_zeros(zero_padded(decimal(frac), 27))
    }
}

/// `PrecDec`'s `Debug`: the `Display` text inside `PrecDec(..)`.
pub open spec fn dec_debug_text(v: nat) -> Seq<char> {
    "PrecDec("@ + dec_text(v) + ")"@
}

/// `<PrecDec as ToString>::to_string`, which writes its `Display`.
#[verifier::external_body]
pub(crate) fn dec_to_string(a: Dec) -> (r: String)
    ensures
        r@ == dec_text(a@),
{
    PrecDec::new(Uint256::from_be_bytes(a.atomics)).to_string()
}

/// `format!("{:?}", d)` for a decimal.
pub fn dec_debug(a: Dec) -> (r: String)
    ensures
        r@ == dec_debug_text(a@),
{
    let text = dec_to_string(a);
    let s = String::from_str("PrecDec(");
    let s = s.concat(text.as_str());
    s.concat(")")
}

/// `PrecDec`'s `/`: the quotient truncated to 27 digits. It panics on a
/// zero divisor and when the quotient leaves 256 bits; `requires` leaves
/// both out.
#[verifier::external_body]
pub(crate) fn dec_div(a: Dec, b: Dec) -> (r: Dec)
    requires
        b@ != 0,
        (a@ * scale()) / b@ < dec_limit(),
    ensures
        r@ == (a@ * scale()) / b@,
{
    let c = PrecDec::new(Uint256::from_be_bytes(a.atomics)) / PrecDec::new(Uint256::from_be_bytes(b.atomics));
    Dec { atomics: c.atomics().to_be_bytes() }
}

/// `PrecDec::from_str` of a cosmwasm `Decimal`'s text, the decimal given by
/// its 18-digit atomics: the same value with 27 digits. (`Decimal` displays
/// its whole part and at most 18 fractional digits, and `from_str` reads
/// such a text without loss; the `Option` is `from_str`'s `Result`.)
#[verifier::external_body]
pub(crate) fn dec_from_decimal18(atomics: u128) -> (r: Option<Dec>)
    ensures
        r is Some,
        r matches Some(d) ==> d@ == atomics * 1_000_000_000nat,
{
    let text = cosmwasm_std::Decimal::new(Uint128::new(atomics)).to_string();
    match <PrecDec as core::str::FromStr>::from_str(&text) {
        Ok(d) => Some(Dec { atomics: d.atomics().to_be_bytes() }),
        Err(_) => None,
    }
}

/// Big-endian bytes spell less than `256^len`.
proof fn lemma_be_value_bound(s: Seq<u8>)
    ensures
        be_value(s) < pow(256, s.len()),
    decreases s.len(),
{
    if s.len() == 0 {
        vstd::arithmetic::power::lemma_pow0(256);
    } else {
        lemma_be_value_bound(s.drop_last());
        let p = pow(256, (s.len() - 1) as nat);
        let v = be_value(s.drop_last());
        vstd::arithmetic::power::lemma_pow_adds(256, (s.len() - 1) as nat, 1);
        vstd::arithmetic::power::lemma_pow1(256);
        assert(v * 256 + s.last() < p * 256) by (nonlinear_arith)
            requires v < p, s.last() < 256;
    }
}

/// Every decimal is below `2^256`.
pub proof fn lemma_dec_bounded(d: Dec)
    ensures
        d@ < dec_limit(),
{
    lemma_be_value_bound(d.atomics@);
    assert(pow(256, 32) == dec_limit()) by {
        reveal_with_fuel(pow, 33);
    }
}

} // verus!
