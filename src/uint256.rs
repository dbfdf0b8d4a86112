//! The 256-bit unsigned integer, held as its 32 big-endian bytes. Its
//! arithmetic, parsing and printing are those of `cosmwasm_std::Uint256`.
use vstd::prelude::*;

verus! {

/// 2^256: the first number a `Uint256` cannot hold.
pub open spec fn uint256_bound() -> nat {
    pow256(32)
}

/// 256 to the power `n`.
pub open spec fn pow256(n: nat) -> nat
    decreases n,
{
    if n == 0 {
        1
    } else {
        256 * pow256((n - 1) as nat)
    }
}

/// The number that a big-endian byte string spells.
pub open spec fn be_value(s: Seq<u8>) -> nat
    decreases s.len(),
{
    if s.len() == 0 {
        0
    } else {
        be_value(s.drop_last()) * 256 + s.last() as nat
    }
}

/// How two numbers compare.
pub open spec fn nat_order(a: nat, b: nat) -> core::cmp::Ordering {
    if a < b {
        core::cmp::Ordering::Less
    } else if a == b {
        core::cmp::Ordering::Equal
    } else {
        core::cmp::Ordering::Greater
    }
}

pub open spec fn is_digit(c: char) -> bool {
    '0' <= c && c <= '9'
}

/// The number that a string of decimal digits spells.
pub open spec fn digits_value(s: Seq<char>) -> nat
    decreases s.len(),
{
    if s.len() == 0 {
        0
    } else {
        digits_value(s.drop_last()) * 10 + (s.last() as nat - '0' as nat) as nat
    }
}

/// What `Uint256`'s parser accepts: an optional `+`, then one or more
/// decimal digits that spell a number below 2^256.
pub open spec fn parse_uint256(s: Seq<char>) -> Option<nat> {
    let d = if s.len() > 0 && s[0] == '+' {
        s.drop_first()
    } else {
        s
    };
    if d.len() > 0 && (forall|i: int| 0 <= i < d.len() ==> is_digit(#[trigger] d[i]))
        && digits_value(d) < uint256_bound() {
        Some(digits_value(d))
    } else {
        None
    }
}

pub open spec fn digit_char(d: nat) -> char {
    (d + '0' as nat) as char
}

/// The decimal digits of `n`, without leading zeros ("0" for zero).
pub open spec fn decimal_digits(n: nat) -> Seq<char>
    decreases n,
{
    if n < 10 {
        seq![digit_char(n)]
    } else {
        decimal_digits(n / 10).push(digit_char(n % 10))
    }
}

proof fn lemma_be_value_bound(s: Seq<u8>)
    ensures
        be_value(s) < pow256(s.len()),
    decreases s.len(),
{
    if s.len() > 0 {
        let p = pow256((s.len() - 1) as nat);
        let h = be_value(s.drop_last());
        let l = s.last() as nat;
        lemma_be_value_bound(s.drop_last());
        assert(h * 256 + l < p * 256) by (nonlinear_arith)
            requires
                h < p,
                l < 256,
        ;
    }
}

/// Every `Uint256` holds a number below 2^256.
pub proof fn lemma_uint256_bound(x: Uint256)
    ensures
        x@ < uint256_bound(),
{
    lemma_be_value_bound(x.bytes@);
}

proof fn lemma_decimal_digits(n: nat)
    ensures
        decimal_digits(n).len() > 0,
        forall|i: int| 0 <= i < decimal_digits(n).len() ==> is_digit(#[trigger] decimal_digits(n)[i]),
        digits_value(decimal_digits(n)) == n,
    decreases n,
{
    let d = decimal_digits(n);
    if n < 10 {
        assert(d.drop_last() =~= Seq::<char>::empty());
        assert(digit_char(n) as nat == n + '0' as nat);
        assert(digits_value(d) == digits_value(d.drop_last()) * 10 + (d.last() as nat - '0' as nat) as nat);
    } else {
        lemma_decimal_digits(n / 10);
        assert(d.drop_last() =~= decimal_digits(n / 10));
        assert(digit_char(n % 10) as nat == n % 10 + '0' as nat);
        assert(d[d.len() - 1] == digit_char(n % 10));
        assert((n / 10) * 10 + n % 10 == n) by (nonlinear_arith);
        assert(digits_value(d) == digits_value(d.drop_last()) * 10 + (d.last() as nat - '0' as nat) as nat);
    }
}

/// The parser reads back the decimal digits of every number it can hold.
pub proof fn lemma_parse_decimal_digits(n: nat)
    requires
        n < uint256_bound(),
    ensures
        parse_uint256(decimal_digits(n)) == Some(n),
        is_digit(decimal_digits(n)[0]),
{
    lemma_decimal_digits(n);
    assert(is_digit(decimal_digits(n)[0]));
}

/// An unsigned 256-bit integer: the number that `bytes` spell, most
/// significant byte first.
#[derive(Clone, Copy, Debug)]
pub struct Uint256 {
    pub bytes: [u8; 32],
}

impl View for Uint256 {
    type V = nat;

    open spec fn view(&self) -> nat {
        be_value(self.bytes@)
    }
}

/// Relies on `cosmwasm_std::Uint256::cmp` (derived from the number it
/// holds): the order of the two numbers.
#[verifier::external_body]
pub(crate) fn cw_cmp(a: &Uint256, b: &Uint256) -> (r: core::cmp::Ordering)
    ensures
        r == nat_order(a@, b@),
{
    cosmwasm_std::Uint256::new(a.bytes).cmp(&cosmwasm_std::Uint256::new(b.bytes))
}

/// Relies on `cosmwasm_std::Uint256::from_u128`: the same number, widened.
#[verifier::external_body]
pub(crate) fn cw_from_u128(v: u128) -> (r: Uint256)
    ensures
        r@ == v,
{
    Uint256 { bytes: cosmwasm_std::Uint256::from_u128(v).to_be_bytes() }
}

/// Relies on `cosmwasm_std::Uint256::is_zero`.
#[verifier::external_body]
pub(crate) fn cw_is_zero(a: &Uint256) -> (r: bool)
    ensures
        r == (a@ == 0),
{
    cosmwasm_std::Uint256::new(a.bytes).is_zero()
}

/// Relies on `cosmwasm_std::Uint256::checked_add`: the sum, or an overflow
/// error when it does not fit.
#[verifier::external_body]
pub(crate) fn cw_checked_add(a: Uint256, b: Uint256) -> (r: Result<Uint256, cosmwasm_std::StdError>)
    ensures
        r is Ok <==> a@ + b@ < uint256_bound(),
        r matches Ok(v) ==> v@ == a@ + b@,
{
    match cosmwasm_std::Uint256::new(a.bytes).checked_add(cosmwasm_std::Uint256::new(b.bytes)) {
        Ok(v) => Ok(Uint256 { bytes: v.to_be_bytes() }),
        Err(e) => Err(cosmwasm_std::StdError::from(e)),
    }
}

/// Relies on `cosmwasm_std::Uint256::checked_sub`: the difference, or an
/// overflow error when `b` exceeds `a`.
#[verifier::external_body]
pub(crate) fn cw_checked_sub(a: Uint256, b: Uint256) -> (r: Result<Uint256, cosmwasm_std::StdError>)
    ensures
        r is Ok <==> a@ >= b@,
        r matches Ok(v) ==> v@ == a@ - b@,
{
    match cosmwasm_std::Uint256::new(a.bytes).checked_sub(cosmwasm_std::Uint256::new(b.bytes)) {
        Ok(v) => Ok(Uint256 { bytes: v.to_be_bytes() }),
        Err(e) => Err(cosmwasm_std::StdError::from(e)),
    }
}

/// Relies on `cosmwasm_std::Uint256::checked_mul`: the product, or an
/// overflow error when it does not fit.
#[verifier::external_body]
pub(crate) fn cw_checked_mul(a: Uint256, b: Uint256) -> (r: Result<Uint256, cosmwasm_std::StdError>)
    ensures
        r is Ok <==> a@ * b@ < uint256_bound(),
        r matches Ok(v) ==> v@ == a@ * b@,
{
    match cosmwasm_std::Uint256::new(a.bytes).checked_mul(cosmwasm_std::Uint256::new(b.bytes)) {
        Ok(v) => Ok(Uint256 { bytes: v.to_be_bytes() }),
        Err(e) => Err(cosmwasm_std::StdError::from(e)),
    }
}

/// Relies on `cosmwasm_std::Uint256::checked_div`: the truncated quotient,
/// or an error when `b` is zero.
#[verifier::external_body]
pub(crate) fn cw_checked_div(a: Uint256, b: Uint256) -> (r: Result<Uint256, cosmwasm_std::StdError>)
    ensures
        r is Ok <==> b@ != 0,
        r matches Ok(v) ==> v@ == a@ / b@,
{
    match cosmwasm_std::Uint256::new(a.bytes).checked_div(cosmwasm_std::Uint256::new(b.bytes)) {
        Ok(v) => Ok(Uint256 { bytes: v.to_be_bytes() }),
        Err(e) => Err(cosmwasm_std::StdError::from(e)),
    }
}

/// Relies on `cosmwasm_std::Uint256::checked_rem`: the remainder, or an
/// error when `b` is zero.
#[verifier::external_body]
pub(crate) fn cw_checked_rem(a: Uint256, b: Uint256) -> (r: Result<Uint256, cosmwasm_std::StdError>)
    ensures
        r is Ok <==> b@ != 0,
        r matches Ok(v) ==> v@ == a@ % b@,
{
    match cosmwasm_std::Uint256::new(a.bytes).checked_rem(cosmwasm_std::Uint256::new(b.bytes)) {
        Ok(v) => Ok(Uint256 { bytes: v.to_be_bytes() }),
        Err(e) => Err(cosmwasm_std::StdError::from(e)),
    }
}

/// Relies on `<cosmwasm_std::Uint256 as FromStr>::from_str`, which hands the
/// text to bnum's `from_str_radix(s, 10)` and refuses the empty string.
#[verifier::external_body]
pub(crate) fn cw_from_str(s: &str) -> (r: Result<Uint256, cosmwasm_std::StdError>)
    ensures
        r is Ok <==> parse_uint256(s@) is Some,
        r matches Ok(v) ==> Some(v@) == parse_uint256(s@),
{
    match <cosmwasm_std::Uint256 as core::str::FromStr>::from_str(s) {
        Ok(v) => Ok(Uint256 { bytes: v.to_be_bytes() }),
        Err(e) => Err(e),
    }
}

/// Relies on `<cosmwasm_std::Uint256 as Display>::fmt` (bnum's
/// `to_str_radix(10)`): the decimal digits of the number.
#[verifier::external_body]
pub(crate) fn cw_to_string(a: &Uint256) -> (r: String)
    ensures
        r@ == decimal_digits(a@),
{
    cosmwasm_std::Uint256::new(a.bytes).to_string()
}

impl Uint256 {
    /// The number whose big-endian bytes are `bytes`.
    pub fn new(bytes: [u8; 32]) -> (r: Uint256)
        ensures
            r@ == be_value(bytes@),
    {
        Uint256 { bytes }
    }

    pub fn from_u128(v: u128) -> (r: Uint256)
        ensures
            r@ == v,
    {
        cw_from_u128(v)
    }

    pub fn zero() -> (r: Uint256)
        ensures
            r@ == 0,
    {
        cw_from_u128(0)
    }

    pub fn one() -> (r: Uint256)
        ensures
            r@ == 1,
    {
        cw_from_u128(1)
    }

    /// The decimal digits of the number.
    pub fn to_string(&self) -> (r: String)
        ensures
            r@ == decimal_digits(self@),
    {
        cw_to_string(self)
    }

    /// Reads an optional `+` followed by decimal digits.
    pub fn from_str(s: &str) -> (r: Result<Uint256, crate::error::CommonError>)
        ensures
            r is Ok <==> parse_uint256(s@) is Some,
            r matches Ok(v) ==> Some(v@) == parse_uint256(s@),
            r matches Err(e) ==> e is Std,
    {
        match cw_from_str(s) {
            Ok(v) => Ok(v),
            Err(e) => Err(crate::error::CommonError::Std(e)),
        }
    }

    pub fn is_zero(&self) -> (r: bool)
        ensures
            r == (self@ == 0),
    {
        cw_is_zero(self)
    }

    pub fn cmp(&self, other: &Uint256) -> (r: core::cmp::Ordering)
        ensures
            r == nat_order(self@, other@),
    {
        cw_cmp(self, other)
    }
}

impl PartialEq for Uint256 {
    fn eq(&self, other: &Uint256) -> (r: bool) {
        match cw_cmp(self, other) {
            core::cmp::Ordering::Equal => true,
            _ => false,
        }
    }
}

impl vstd::std_specs::cmp::PartialEqSpecImpl for Uint256 {
    open spec fn obeys_eq_spec() -> bool {
        true
    }

    open spec fn eq_spec(&self, other: &Uint256) -> bool {
        self@ == other@
    }
}

impl Eq for Uint256 {}

} // verus!
