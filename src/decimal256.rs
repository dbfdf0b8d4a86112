//! The unsigned fixed-point decimal with 18 fractional digits, held as its
//! count of 10^-18 units ("atomics"). Its arithmetic, parsing and printing
//! are those of `cosmwasm_std::Decimal256`.
use vstd::prelude::*;

use crate::uint256::{cw_from_u128, uint256_bound, Uint256};

verus! {

/// Atomics in one whole unit: 10^18.
pub open spec fn decimal_fractional() -> nat {
    1_000_000_000_000_000_000
}

/// The atomics that `Decimal256`'s parser reads from a string, if it
/// accepts it.
pub uninterp spec fn decimal256_parse(s: Seq<char>) -> Option<nat>;

/// The text that `Decimal256` prints for a value of so many atomics.
pub uninterp spec fn decimal256_text(atomics: nat) -> Seq<char>;

/// A non-negative decimal: `atomics` units of 10^-18.
#[derive(Clone, Copy, Debug)]
pub struct Decimal256 {
    pub atomics: Uint256,
}

impl View for Decimal256 {
    type V = nat;

    /// The value in atomics.
    open spec fn view(&self) -> nat {
        self.atomics@
    }
}

/// Relies on `cosmwasm_std::Decimal256::checked_add`: the sum of the atomics,
/// or an overflow error when it does not fit.
#[verifier::external_body]
pub(crate) fn cw_dec_checked_add(a: Decimal256, b: Decimal256) -> (r: Result<Decimal256, cosmwasm_std::StdError>)
    ensures
        r is Ok <==> a@ + b@ < uint256_bound(),
        r matches Ok(v) ==> v@ == a@ + b@,
{
    let x = cosmwasm_std::Decimal256::new(cosmwasm_std::Uint256::new(a.atomics.bytes));
    let y = cosmwasm_std::Decimal256::new(cosmwasm_std::Uint256::new(b.atomics.bytes));
    match x.checked_add(y) {
        Ok(v) => Ok(Decimal256 { atomics: Uint256 { bytes: v.atomics().to_be_bytes() } }),
        Err(e) => Err(cosmwasm_std::StdError::from(e)),
    }
}

/// Relies on `cosmwasm_std::Decimal256::checked_sub`: the difference of the
/// atomics, or an overflow error when `b` exceeds `a`.
#[verifier::external_body]
pub(crate) fn cw_dec_checked_sub(a: Decimal256, b: Decimal256) -> (r: Result<Decimal256, cosmwasm_std::StdError>)
    ensures
        r is Ok <==> a@ >= b@,
        r matches Ok(v) ==> v@ == a@ - b@,
{
    let x = cosmwasm_std::Decimal256::new(cosmwasm_std::Uint256::new(a.atomics.bytes));
    let y = cosmwasm_std::Decimal256::new(cosmwasm_std::Uint256::new(b.atomics.bytes));
    match x.checked_sub(y) {
        Ok(v) => Ok(Decimal256 { atomics: Uint256 { bytes: v.atomics().to_be_bytes() } }),
        Err(e) => Err(cosmwasm_std::StdError::from(e)),
    }
}

/// Relies on `cosmwasm_std::Decimal256::checked_mul`: the product of the
/// atomics divided by 10^18, rounded down, or an overflow error when that
/// does not fit.
#[verifier::external_body]
pub(crate) fn cw_dec_checked_mul(a: Decimal256, b: Decimal256) -> (r: Result<Decimal256, cosmwasm_std::StdError>)
    ensures
        r is Ok <==> a@ * b@ / decimal_fractional() < uint256_bound(),
        r matches Ok(v) ==> v@ == a@ * b@ / decimal_fractional(),
{
    let x = cosmwasm_std::Decimal256::new(cosmwasm_std::Uint256::new(a.atomics.bytes));
    let y = cosmwasm_std::Decimal256::new(cosmwasm_std::Uint256::new(b.atomics.bytes));
    match x.checked_mul(y) {
        Ok(v) => Ok(Decimal256 { atomics: Uint256 { bytes: v.atomics().to_be_bytes() } }),
        Err(e) => Err(cosmwasm_std::StdError::from(e)),
    }
}

/// Relies on `cosmwasm_std::Decimal256::checked_div` (`checked_from_ratio`):
/// the atomics of `a` times 10^18 divided by those of `b`, rounded down; an
/// error when `b` is zero or the quotient does not fit.
#[verifier::external_body]
pub(crate) fn cw_dec_checked_div(a: Decimal256, b: Decimal256) -> (r: Result<Decimal256, cosmwasm_std::StdError>)
    ensures
        r is Ok <==> (b@ != 0 && a@ * decimal_fractional() / b@ < uint256_bound()),
        r matches Ok(v) ==> v@ == a@ * decimal_fractional() / b@,
{
    let x = cosmwasm_std::Decimal256::new(cosmwasm_std::Uint256::new(a.atomics.bytes));
    let y = cosmwasm_std::Decimal256::new(cosmwasm_std::Uint256::new(b.atomics.bytes));
    match x.checked_div(y) {
        Ok(v) => Ok(Decimal256 { atomics: Uint256 { bytes: v.atomics().to_be_bytes() } }),
        Err(e) => Err(cosmwasm_std::StdError::generic_err(e.to_string())),
    }
}

/// Relies on `cosmwasm_std::Decimal256::from_atomics(u, 0)`: the whole
/// number `u`, that is `u` times 10^18 atomics, or a range error when that
/// does not fit.
#[verifier::external_body]
pub(crate) fn cw_dec_from_whole(u: Uint256) -> (r: Result<Decimal256, cosmwasm_std::Decimal256RangeExceeded>)
    ensures
        r is Ok <==> u@ * decimal_fractional() < uint256_bound(),
        r matches Ok(v) ==> v@ == u@ * decimal_fractional(),
{
    match cosmwasm_std::Decimal256::from_atomics(cosmwasm_std::Uint256::new(u.bytes), 0u32) {
        Ok(v) => Ok(Decimal256 { atomics: Uint256 { bytes: v.atomics().to_be_bytes() } }),
        Err(e) => Err(e),
    }
}

/// Relies on `cosmwasm_std::Uint256::checked_mul_floor` with a `Decimal256`
/// as the fraction: `u` times the atomics of `d` divided by 10^18, rounded
/// down, or an error when that does not fit.
#[verifier::external_body]
pub(crate) fn cw_mul_floor(u: Uint256, d: Decimal256) -> (r: Result<Uint256, cosmwasm_std::StdError>)
    ensures
        r is Ok <==> u@ * d@ / decimal_fractional() < uint256_bound(),
        r matches Ok(v) ==> v@ == u@ * d@ / decimal_fractional(),
{
    let x = cosmwasm_std::Uint256::new(u.bytes);
    let y = cosmwasm_std::Decimal256::new(cosmwasm_std::Uint256::new(d.atomics.bytes));
    match x.checked_mul_floor(y) {
        Ok(v) => Ok(Uint256 { bytes: v.to_be_bytes() }),
        Err(e) => Err(cosmwasm_std::StdError::generic_err(e.to_string())),
    }
}

/// Relies on `<cosmwasm_std::Decimal256 as FromStr>::from_str`; what it
/// accepts is named by `decimal256_parse`.
#[verifier::external_body]
pub(crate) fn cw_dec_from_str(s: &str) -> (r: Result<Decimal256, cosmwasm_std::StdError>)
    ensures
        r is Ok <==> decimal256_parse(s@) is Some,
        r matches Ok(v) ==> Some(v@) == decimal256_parse(s@),
{
    match <cosmwasm_std::Decimal256 as core::str::FromStr>::from_str(s) {
        Ok(v) => Ok(Decimal256 { atomics: Uint256 { bytes: v.atomics().to_be_bytes() } }),
        Err(e) => Err(e),
    }
}

/// Relies on `<cosmwasm_std::Decimal256 as Display>::fmt`; its text is named
/// by `decimal256_text`.
#[verifier::external_body]
pub(crate) fn cw_dec_to_string(d: &Decimal256) -> (r: String)
    ensures
        r@ == decimal256_text(d@),
{
    cosmwasm_std::Decimal256::new(cosmwasm_std::Uint256::new(d.atomics.bytes)).to_string()
}

impl Decimal256 {
    /// The decimal of `atomics` units of 10^-18.
    pub fn new(atomics: Uint256) -> (r: Decimal256)
        ensures
            r@ == atomics@,
    {
        Decimal256 { atomics }
    }

    pub fn atomics(&self) -> (r: Uint256)
        ensures
            r@ == self@,
    {
        self.atomics
    }

    pub fn zero() -> (r: Decimal256)
        ensures
            r@ == 0,
    {
        Decimal256 { atomics: cw_from_u128(0) }
    }

    pub fn one() -> (r: Decimal256)
        ensures
            r@ == decimal_fractional(),
    {
        Decimal256 { atomics: cw_from_u128(1_000_000_000_000_000_000) }
    }
}

} // verus!
