//! A signed fixed-point decimal: a `Decimal256` magnitude beside a sign
//! flag. A zero magnitude always carries the positive sign, and every
//! operation keeps it so.
use vstd::prelude::*;
use vstd::std_specs::cmp::{PartialEqSpec, PartialOrdSpec};
use vstd::string::StringExecFns;

use crate::decimal256::{
    cw_dec_checked_add, cw_dec_checked_div, cw_dec_checked_mul, cw_dec_checked_sub,
    cw_dec_from_str, cw_dec_from_whole, cw_dec_to_string, cw_mul_floor, decimal256_parse,
    decimal256_text, decimal_fractional, Decimal256,
};
use crate::error::CommonError;
use crate::signed_int::{abs_int, sign_magnitude_order, SignedInt};
use crate::text::{sign_split, split_sign};
use crate::uint256::{cw_checked_rem, cw_cmp, lemma_uint256_bound, uint256_bound, Uint256};

verus! {

/// A signed decimal of magnitude `value`.
#[derive(Clone, Copy, Debug)]
pub struct SignedDecimal {
    value: Decimal256,
    is_positive: bool,
}

impl SignedDecimal {
    #[verifier::type_invariant]
    spec fn zero_is_positive(self) -> bool {
        self.value@ == 0 ==> self.is_positive
    }

    /// The magnitude, in atomics (units of 10^-18).
    pub closed spec fn magnitude(self) -> nat {
        self.value@
    }

    pub closed spec fn positive(self) -> bool {
        self.is_positive
    }

    /// Zero carries the positive sign; every value of this type does so.
    pub open spec fn is_canonical(self) -> bool {
        self.magnitude() == 0 ==> self.positive()
    }
}

impl View for SignedDecimal {
    type V = int;

    /// The value in atomics: the magnitude, negated when the sign is
    /// negative.
    open spec fn view(&self) -> int {
        if self.positive() {
            self.magnitude() as int
        } else {
            -(self.magnitude() as int)
        }
    }
}

/// The text of a value: `0.0` for zero, else `Decimal256`'s text for the
/// magnitude, after a `-` when negative.
pub open spec fn decimal_text(a: SignedDecimal) -> Seq<char> {
    if a.magnitude() == 0 {
        seq!['0', '.', '0']
    } else if a.positive() {
        decimal256_text(a.magnitude())
    } else {
        seq!['-'] + decimal256_text(a.magnitude())
    }
}

/// The atomics a signed decimal numeral spells, if it is one: an optional
/// `-`, then what `Decimal256`'s parser accepts.
pub open spec fn parse_signed_decimal(s: Seq<char>) -> Option<int> {
    match decimal256_parse(sign_split(s).1) {
        Some(m) => Some(if sign_split(s).0 { m as int } else { -(m as int) }),
        None => None,
    }
}

impl SignedDecimal {
    /// The value of magnitude `value`, positive when `is_positive` or when
    /// `value` is zero.
    pub fn from_parts(is_positive: bool, value: Decimal256) -> (r: SignedDecimal)
        ensures
            r.magnitude() == value@,
            r.positive() == (is_positive || value@ == 0),
    {
        let z = value.atomics.is_zero();
        SignedDecimal { value, is_positive: is_positive || z }
    }

    /// The magnitude of a positive value.
    pub fn value(&self) -> (r: Decimal256)
        requires
            self.positive(),
        ensures
            r@ == self.magnitude(),
    {
        self.value
    }

    /// The whole number `val`, positive. Fails when `val` times 10^18 does
    /// not fit in 256 bits.
    pub fn from_uint256(val: Uint256) -> (r: Result<SignedDecimal, CommonError>)
        ensures
            r is Ok <==> val@ * decimal_fractional() < uint256_bound(),
            r matches Ok(s) ==> s.magnitude() == val@ * decimal_fractional() && s.positive(),
            r matches Err(e) ==> e is Decimal256RangeExceeded,
    {
        match cw_dec_from_whole(val) {
            Ok(v) => Ok(SignedDecimal { value: v, is_positive: true }),
            Err(e) => Err(CommonError::Decimal256RangeExceeded(e)),
        }
    }

    /// The sum. Terms of one sign add their magnitudes; terms of opposite
    /// signs subtract the smaller magnitude from the larger and keep the
    /// larger one's sign, or give zero when the magnitudes are equal. Fails
    /// when the magnitude of the sum does not fit in 256 bits.
    pub fn checked_add(self, rhs: SignedDecimal) -> (r: Result<SignedDecimal, CommonError>)
        ensures
            r is Ok <==> abs_int(self@ + rhs@) < uint256_bound(),
            r matches Ok(s) ==> s@ == self@ + rhs@ && s.is_canonical(),
            r matches Err(e) ==> e is Std,
    {
        proof {
            use_type_invariant(&self);
            use_type_invariant(&rhs);
            lemma_uint256_bound(self.value.atomics);
            lemma_uint256_bound(rhs.value.atomics);
        }
        if self.is_positive == rhs.is_positive {
            match cw_dec_checked_add(self.value, rhs.value) {
                Ok(v) => Ok(SignedDecimal { value: v, is_positive: self.is_positive }),
                Err(e) => Err(CommonError::Std(e)),
            }
        } else {
            match cw_cmp(&self.value.atomics, &rhs.value.atomics) {
                core::cmp::Ordering::Greater => match cw_dec_checked_sub(self.value, rhs.value) {
                    Ok(v) => Ok(SignedDecimal { value: v, is_positive: self.is_positive }),
                    Err(e) => Err(CommonError::Std(e)),
                },
                core::cmp::Ordering::Less => match cw_dec_checked_sub(rhs.value, self.value) {
                    Ok(v) => Ok(SignedDecimal { value: v, is_positive: rhs.is_positive }),
                    Err(e) => Err(CommonError::Std(e)),
                },
                core::cmp::Ordering::Equal => Ok(SignedDecimal::zero()),
            }
        }
    }

    /// Adds `rhs` in place; on failure the value is left as it was.
    pub fn checked_add_assign(&mut self, rhs: SignedDecimal) -> (r: Result<(), CommonError>)
        ensures
            r is Ok <==> abs_int(old(self)@ + rhs@) < uint256_bound(),
            r is Ok ==> final(self)@ == old(self)@ + rhs@,
            r is Err ==> *final(self) == *old(self),
            r matches Err(e) ==> e is Std,
    {
        match (*self).checked_add(rhs) {
            Ok(s) => {
                *self = s;
                Ok(())
            },
            Err(e) => Err(e),
        }
    }

    /// The difference: the sum with `rhs`'s sign flipped.
    pub fn checked_sub(self, rhs: SignedDecimal) -> (r: Result<SignedDecimal, CommonError>)
        ensures
            r is Ok <==> abs_int(self@ - rhs@) < uint256_bound(),
            r matches Ok(s) ==> s@ == self@ - rhs@ && s.is_canonical(),
            r matches Err(e) ==> e is Std,
    {
        proof {
            use_type_invariant(&rhs);
        }
        self.checked_add(core::ops::Neg::neg(rhs))
    }

    /// The product: `Decimal256`'s product of the magnitudes (rounded down
    /// to the last fractional digit), positive when the signs agree or the
    /// product is zero. Fails when the product does not fit.
    pub fn checked_mul(self, rhs: SignedDecimal) -> (r: Result<SignedDecimal, CommonError>)
        ensures
            r is Ok <==> self.magnitude() * rhs.magnitude() / decimal_fractional() < uint256_bound(),
            r matches Ok(s) ==> s.magnitude() == self.magnitude() * rhs.magnitude() / decimal_fractional()
                && s.positive() == (self.positive() == rhs.positive() || s.magnitude() == 0),
            r matches Err(e) ==> e is Std,
    {
        match cw_dec_checked_mul(self.value, rhs.value) {
            Ok(v) => Ok(SignedDecimal::from_parts(self.is_positive == rhs.is_positive, v)),
            Err(e) => Err(CommonError::Std(e)),
        }
    }

    /// The product with an unsigned decimal; the sign is kept, but a zero
    /// product is positive. Fails when the product does not fit.
    pub fn mul_decimal(self, rhs: Decimal256) -> (r: Result<SignedDecimal, CommonError>)
        ensures
            r is Ok <==> self.magnitude() * rhs@ / decimal_fractional() < uint256_bound(),
            r matches Ok(s) ==> s.magnitude() == self.magnitude() * rhs@ / decimal_fractional()
                && s.positive() == (self.positive() || s.magnitude() == 0),
            r matches Err(e) ==> e is Std,
    {
        match cw_dec_checked_mul(self.value, rhs) {
            Ok(v) => Ok(SignedDecimal::from_parts(self.is_positive, v)),
            Err(e) => Err(CommonError::Std(e)),
        }
    }

    /// An unsigned integer times a signed decimal, as a signed integer: the
    /// integer times the magnitude, rounded down, with the decimal's sign,
    /// and positive when zero. Fails when the product does not fit.
    pub fn uint_mul(lhs: Uint256, rhs: SignedDecimal) -> (r: Result<SignedInt, CommonError>)
        ensures
            r is Ok <==> lhs@ * rhs.magnitude() / decimal_fractional() < uint256_bound(),
            r matches Ok(s) ==> s.value@ == lhs@ * rhs.magnitude() / decimal_fractional()
                && s.is_positive == (rhs.positive() || s.value@ == 0),
            r matches Err(e) ==> e is Std,
    {
        match cw_mul_floor(lhs, rhs.value) {
            Ok(v) => {
                let z = v.is_zero();
                Ok(SignedInt { value: v, is_positive: rhs.is_positive || z })
            },
            Err(e) => Err(CommonError::Std(e)),
        }
    }

    /// The quotient: `Decimal256`'s quotient of the magnitudes (rounded
    /// down), with the sign of a product. Division by zero gives zero.
    /// Fails when the quotient does not fit.
    pub fn checked_div(self, rhs: SignedDecimal) -> (r: Result<SignedDecimal, CommonError>)
        ensures
            r is Ok <==> (rhs.magnitude() == 0
                || self.magnitude() * decimal_fractional() / rhs.magnitude() < uint256_bound()),
            r matches Ok(s) ==> s.magnitude() == (if rhs.magnitude() == 0 {
                0
            } else {
                self.magnitude() * decimal_fractional() / rhs.magnitude()
            }) && s.positive() == (self.positive() == rhs.positive() || s.magnitude() == 0),
            r matches Err(e) ==> e is Std,
    {
        if rhs.value.atomics.is_zero() {
            return Ok(SignedDecimal::zero());
        }
        match cw_dec_checked_div(self.value, rhs.value) {
            Ok(v) => Ok(SignedDecimal::from_parts(self.is_positive == rhs.is_positive, v)),
            Err(e) => Err(CommonError::Std(e)),
        }
    }

    /// The remainder of the magnitudes counted in atomics, as a positive
    /// value; both signs are ignored. Fails when `rhs` is zero.
    pub fn checked_rem(self, rhs: SignedDecimal) -> (r: Result<SignedDecimal, CommonError>)
        ensures
            r is Ok <==> rhs.magnitude() != 0,
            r matches Ok(s) ==> s.magnitude() == self.magnitude() % rhs.magnitude() && s.positive(),
            r matches Err(e) ==> e is Std,
    {
        match cw_checked_rem(self.value.atomics, rhs.value.atomics) {
            Ok(v) => Ok(SignedDecimal::from(Decimal256::new(v))),
            Err(e) => Err(CommonError::Std(e)),
        }
    }

    pub fn one() -> (r: SignedDecimal)
        ensures
            r.magnitude() == decimal_fractional(),
            r.positive(),
    {
        SignedDecimal { value: Decimal256::one(), is_positive: true }
    }

    pub fn zero() -> (r: SignedDecimal)
        ensures
            r.magnitude() == 0,
            r.positive(),
    {
        SignedDecimal { value: Decimal256::zero(), is_positive: true }
    }

    pub fn is_zero(&self) -> (r: bool)
        ensures
            r == (self.magnitude() == 0),
    {
        self.value.atomics.is_zero()
    }

    pub fn is_positive(&self) -> (r: bool)
        ensures
            r == self.positive(),
    {
        self.is_positive
    }

    pub fn is_negative(&self) -> (r: bool)
        ensures
            r == !self.positive(),
    {
        !self.is_positive
    }

    /// The same magnitude, positive.
    pub fn abs(&self) -> (r: SignedDecimal)
        ensures
            r.magnitude() == self.magnitude(),
            r.positive(),
    {
        SignedDecimal { value: self.value, is_positive: true }
    }

    /// The distance between two values: the magnitude of their difference.
    pub fn abs_sub(&self, other: &SignedDecimal) -> (r: Result<SignedDecimal, CommonError>)
        ensures
            r is Ok <==> abs_int(self@ - other@) < uint256_bound(),
            r matches Ok(s) ==> s.magnitude() == abs_int(self@ - other@) && s.positive(),
            r matches Err(e) ==> e is Std,
    {
        match self.checked_sub(*other) {
            Ok(d) => Ok(d.abs()),
            Err(e) => Err(e),
        }
    }

    /// One with the value's sign (one for zero).
    pub fn signum(&self) -> (r: SignedDecimal)
        ensures
            r.magnitude() == decimal_fractional(),
            r.positive() == self.positive(),
    {
        SignedDecimal { value: Decimal256::one(), is_positive: self.is_positive }
    }

    /// The text of the value: `0.0` for zero, else `Decimal256`'s text for
    /// the magnitude after a `-` when negative.
    pub fn to_string(&self) -> (r: String)
        ensures
            r@ == decimal_text(*self),
    {
        if self.is_zero() {
            proof {
                reveal_strlit("0.0");
            }
            String::from_str("0.0")
        } else {
            let text = cw_dec_to_string(&self.value);
            if self.is_positive {
                text
            } else {
                proof {
                    reveal_strlit("-");
                }
                String::from_str("-").concat(text.as_str())
            }
        }
    }

    /// Reads a signed numeral: a leading `-` makes the value negative, and
    /// the rest goes to `Decimal256`'s parser. A zero is always positive.
    pub fn from_str(s: &str) -> (r: Result<SignedDecimal, CommonError>)
        ensures
            r is Ok <==> parse_signed_decimal(s@) is Some,
            r matches Ok(x) ==> Some(x@) == parse_signed_decimal(s@) && x.is_canonical(),
            r matches Err(e) ==> e is Std,
    {
        let (positive, digits) = split_sign(s);
        match cw_dec_from_str(digits) {
            Ok(v) => Ok(SignedDecimal::from_parts(positive, v)),
            Err(e) => Err(CommonError::Std(e)),
        }
    }

    /// The magnitude, when the value is not negative.
    pub fn try_into(self) -> (r: Result<Decimal256, CommonError>)
        ensures
            r is Ok <==> (self.positive() || self.magnitude() == 0),
            r matches Ok(v) ==> v@ == self.magnitude(),
            r matches Err(e) ==> e is Generic,
    {
        if !self.is_positive && !self.value.atomics.is_zero() {
            proof {
                reveal_strlit("Cannot convert negative SignedDecimal to Decimal256");
            }
            return Err(CommonError::Generic(String::from_str("Cannot convert negative SignedDecimal to Decimal256")));
        }
        Ok(self.value)
    }
}

/// The negation: the sign flips, except on zero, which stays positive.
pub closed spec fn spec_neg(a: SignedDecimal) -> SignedDecimal {
    SignedDecimal { value: a.value, is_positive: if a.value@ == 0 { a.is_positive } else { !a.is_positive } }
}

impl core::ops::Neg for SignedDecimal {
    type Output = SignedDecimal;

    fn neg(self) -> (r: SignedDecimal) {
        proof {
            use_type_invariant(&self);
        }
        if self.is_zero() {
            return self;
        }
        SignedDecimal { value: self.value, is_positive: !self.is_positive }
    }
}

impl vstd::std_specs::ops::NegSpecImpl for SignedDecimal {
    open spec fn obeys_neg_spec() -> bool {
        true
    }

    open spec fn neg_req(self) -> bool {
        true
    }

    open spec fn neg_spec(self) -> SignedDecimal {
        spec_neg(self)
    }
}

/// What `-a` is: the same magnitude, and the other sign unless zero.
pub proof fn lemma_neg(a: SignedDecimal)
    ensures
        spec_neg(a).magnitude() == a.magnitude(),
        spec_neg(a).positive() == (if a.magnitude() == 0 { a.positive() } else { !a.positive() }),
{
}

impl PartialEq for SignedDecimal {
    fn eq(&self, other: &SignedDecimal) -> (r: bool) {
        if self.is_zero() {
            return other.is_zero();
        }
        self.value.atomics == other.value.atomics && self.is_positive == other.is_positive
    }
}

impl vstd::std_specs::cmp::PartialEqSpecImpl for SignedDecimal {
    open spec fn obeys_eq_spec() -> bool {
        true
    }

    /// All zeros are equal; other values are equal when magnitude and sign
    /// agree.
    open spec fn eq_spec(&self, other: &SignedDecimal) -> bool {
        if self.magnitude() == 0 {
            other.magnitude() == 0
        } else {
            self.magnitude() == other.magnitude() && self.positive() == other.positive()
        }
    }
}

impl PartialOrd for SignedDecimal {
    fn partial_cmp(&self, other: &SignedDecimal) -> (r: Option<core::cmp::Ordering>) {
        if self.is_positive == other.is_positive {
            if self.is_positive {
                Some(cw_cmp(&self.value.atomics, &other.value.atomics))
            } else {
                Some(cw_cmp(&other.value.atomics, &self.value.atomics))
            }
        } else if self.is_positive {
            Some(core::cmp::Ordering::Greater)
        } else {
            Some(core::cmp::Ordering::Less)
        }
    }
}

impl vstd::std_specs::cmp::PartialOrdSpecImpl for SignedDecimal {
    open spec fn obeys_partial_cmp_spec() -> bool {
        true
    }

    open spec fn partial_cmp_spec(&self, other: &SignedDecimal) -> Option<core::cmp::Ordering> {
        Some(sign_magnitude_order(self.positive(), self.magnitude(), other.positive(), other.magnitude()))
    }
}

impl From<Decimal256> for SignedDecimal {
    /// The same magnitude, positive.
    fn from(value: Decimal256) -> (r: SignedDecimal) {
        SignedDecimal { value, is_positive: true }
    }
}

impl vstd::std_specs::convert::FromSpecImpl<Decimal256> for SignedDecimal {
    open spec fn obeys_from_spec() -> bool {
        true
    }

    open spec fn from_spec(value: Decimal256) -> SignedDecimal {
        from_decimal256(value)
    }
}

/// The positive value of magnitude `value`.
pub closed spec fn from_decimal256(value: Decimal256) -> SignedDecimal {
    SignedDecimal { value, is_positive: true }
}

impl Default for SignedDecimal {
    /// Zero.
    fn default() -> (r: SignedDecimal)
        ensures
            r.magnitude() == 0,
            r.positive(),
    {
        SignedDecimal { value: Decimal256::zero(), is_positive: true }
    }
}

/// Two values that hold the same number have the same magnitude and sign.
pub proof fn lemma_same_number(a: SignedDecimal, b: SignedDecimal)
    requires
        a.is_canonical(),
        b.is_canonical(),
        a@ == b@,
    ensures
        a.magnitude() == b.magnitude(),
        a.positive() == b.positive(),
{
}

/// A value plus its negation is zero, in either order, and the sum always
/// fits.
pub proof fn lemma_add_neg_is_zero(a: SignedDecimal)
    requires
        a.is_canonical(),
    ensures
        spec_neg(a).is_canonical(),
        abs_int(a@ + spec_neg(a)@) < uint256_bound(),
        a@ + spec_neg(a)@ == 0,
        abs_int(spec_neg(a)@ + a@) < uint256_bound(),
        spec_neg(a)@ + a@ == 0,
{
    lemma_uint256_bound(a.value.atomics);
}

/// Negating twice gives the value back, and zero negates to itself.
pub proof fn lemma_neg_neg(a: SignedDecimal)
    ensures
        spec_neg(spec_neg(a)) == a,
        a.magnitude() == 0 ==> spec_neg(a) == a,
{
}

/// The sum `s` of two values of one sign has that sign, and its magnitude
/// is the sum of theirs.
pub proof fn lemma_add_same_sign(a: SignedDecimal, b: SignedDecimal, s: SignedDecimal)
    requires
        a.is_canonical(),
        b.is_canonical(),
        s.is_canonical(),
        a.positive() == b.positive(),
        s@ == a@ + b@,
    ensures
        s.positive() == a.positive(),
        s.magnitude() == a.magnitude() + b.magnitude(),
{
}

/// `a - b` holds the same number as `a + (-b)`, and each fits exactly when
/// the other does.
pub proof fn lemma_sub_is_add_neg(a: SignedDecimal, b: SignedDecimal)
    requires
        b.is_canonical(),
    ensures
        a@ - b@ == a@ + spec_neg(b)@,
        abs_int(a@ - b@) == abs_int(a@ + spec_neg(b)@),
{
}

/// A product with a zero factor, in either order, has a zero magnitude, so
/// it is positive.
pub proof fn lemma_zero_product(a: SignedDecimal, b: SignedDecimal)
    requires
        a.magnitude() == 0,
    ensures
        a.magnitude() * b.magnitude() / decimal_fractional() == 0,
        b.magnitude() * a.magnitude() / decimal_fractional() == 0,
{
}

/// Exactly one of `a < b`, `a == b` and `a > b` holds; `a < b` is `b > a`;
/// and the order is that of the numbers held.
pub proof fn lemma_order_total(a: SignedDecimal, b: SignedDecimal)
    requires
        a.is_canonical(),
        b.is_canonical(),
    ensures
        a.partial_cmp_spec(&b) is Some,
        a.partial_cmp_spec(&b) == Some(core::cmp::Ordering::Equal) <==> a.eq_spec(&b),
        a.partial_cmp_spec(&b) == Some(core::cmp::Ordering::Less) <==> b.partial_cmp_spec(&a)
            == Some(core::cmp::Ordering::Greater),
        a.partial_cmp_spec(&b) == Some(core::cmp::Ordering::Less) <==> a@ < b@,
        a.eq_spec(&b) <==> a@ == b@,
        a.partial_cmp_spec(&b) == Some(core::cmp::Ordering::Greater) <==> a@ > b@,
{
}

} // verus!
