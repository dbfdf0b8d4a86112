//! A signed 256-bit integer: a `Uint256` magnitude beside a sign flag.
//!
//! Zero is positive, with one exception: a zero magnitude with a negative
//! sign is the not-a-number marker (`nan`). Equality is exact: both fields
//! must agree.
use vstd::prelude::*;

use vstd::std_specs::cmp::{PartialEqSpec, PartialOrdSpec};
use vstd::string::StringExecFns;

use crate::decimal256::{cw_mul_floor, decimal_fractional, Decimal256};
use crate::error::CommonError;
use crate::text::{sign_split, split_sign};
use crate::uint256::{
    cw_checked_add, cw_checked_div, cw_checked_mul, cw_checked_rem, cw_checked_sub, cw_cmp,
    cw_from_str, cw_to_string, decimal_digits, lemma_parse_decimal_digits,
    lemma_uint256_bound, nat_order, parse_uint256,
    uint256_bound, Uint256,
};

verus! {

/// The distance of `x` from zero.
pub open spec fn abs_int(x: int) -> nat {
    if x < 0 {
        (-x) as nat
    } else {
        x as nat
    }
}

/// A signed integer of magnitude `value`.
#[derive(Clone, Copy, Debug)]
pub struct SignedInt {
    pub value: Uint256,
    pub is_positive: bool,
}

impl View for SignedInt {
    type V = int;

    /// The number held: the magnitude, negated when the sign is negative.
    open spec fn view(&self) -> int {
        if self.is_positive {
            self.value@ as int
        } else {
            -(self.value@ as int)
        }
    }
}

impl SignedInt {
    /// Zero carries the positive sign.
    pub open spec fn is_canonical(&self) -> bool {
        self.value@ == 0 ==> self.is_positive
    }

    pub open spec fn spec_is_nan(&self) -> bool {
        self.value@ == 0 && !self.is_positive
    }
}

/// The order of sign-and-magnitude values: a positive value is above a
/// negative one; between positives the larger magnitude is greater, between
/// negatives the smaller.
pub open spec fn sign_magnitude_order(a_pos: bool, a_mag: nat, b_pos: bool, b_mag: nat) -> core::cmp::Ordering {
    if a_pos == b_pos {
        if a_pos {
            nat_order(a_mag, b_mag)
        } else {
            nat_order(b_mag, a_mag)
        }
    } else if a_pos {
        core::cmp::Ordering::Greater
    } else {
        core::cmp::Ordering::Less
    }
}

/// The negation: the sign flips, except on a zero magnitude, which is kept
/// as it is.
pub open spec fn spec_neg(a: SignedInt) -> SignedInt {
    SignedInt { value: a.value, is_positive: if a.value@ == 0 { a.is_positive } else { !a.is_positive } }
}

/// The same magnitude with the other sign.
pub open spec fn flipped(a: SignedInt) -> SignedInt {
    SignedInt { value: a.value, is_positive: !a.is_positive }
}

/// The sign of a product or quotient whose magnitude is `mag`: positive when
/// the signs agree or when `mag` is zero.
pub open spec fn product_is_positive(a: SignedInt, b: SignedInt, mag: nat) -> bool {
    a.is_positive == b.is_positive || mag == 0
}

/// The text of a value: `NaN` for the marker, else the decimal digits of the
/// magnitude, after a `-` when the sign is negative.
pub open spec fn int_text(a: SignedInt) -> Seq<char> {
    if a.spec_is_nan() {
        seq!['N', 'a', 'N']
    } else if a.is_positive {
        decimal_digits(a.value@)
    } else {
        seq!['-'] + decimal_digits(a.value@)
    }
}

/// The number a signed numeral spells, if it is one: an optional `-`, then
/// what `Uint256`'s parser accepts.
pub open spec fn parse_signed_int(s: Seq<char>) -> Option<int> {
    match parse_uint256(sign_split(s).1) {
        Some(m) => Some(if sign_split(s).0 { m as int } else { -(m as int) }),
        None => None,
    }
}

/// The sign of a sum: positive when it is above zero, and when it is zero
/// unless both terms are negative (which for a zero sum means both are the
/// not-a-number marker).
pub open spec fn sum_is_positive(a: SignedInt, b: SignedInt) -> bool {
    a@ + b@ > 0 || (a@ + b@ == 0 && (a.is_positive || b.is_positive))
}

impl SignedInt {
    /// The not-a-number marker: a zero magnitude with a negative sign.
    pub fn nan() -> (r: SignedInt)
        ensures
            r.value@ == 0,
            !r.is_positive,
    {
        SignedInt { value: Uint256::zero(), is_positive: false }
    }

    pub fn is_nan(&self) -> (r: bool)
        ensures
            r == self.spec_is_nan(),
    {
        self.value.is_zero() && !self.is_positive
    }

    /// The magnitude of a positive value.
    pub fn value(&self) -> (r: Uint256)
        requires
            self.is_positive,
        ensures
            r == self.value,
    {
        self.value
    }

    /// The sum. Terms of one sign add their magnitudes; terms of opposite
    /// signs subtract the smaller magnitude from the larger and keep the
    /// larger one's sign, or give a positive zero when the magnitudes are
    /// equal. Fails when the magnitude of the sum does not fit in 256 bits.
    pub fn checked_add(self, rhs: SignedInt) -> (r: Result<SignedInt, CommonError>)
        ensures
            r is Ok <==> abs_int(self@ + rhs@) < uint256_bound(),
            r matches Ok(s) ==> s@ == self@ + rhs@ && s.is_positive == sum_is_positive(self, rhs),
            r matches Err(e) ==> e is Std,
    {
        proof {
            lemma_uint256_bound(self.value);
            lemma_uint256_bound(rhs.value);
        }
        if self.is_positive == rhs.is_positive {
            match cw_checked_add(self.value, rhs.value) {
                Ok(v) => Ok(SignedInt { value: v, is_positive: self.is_positive }),
                Err(e) => Err(CommonError::Std(e)),
            }
        } else {
            match cw_cmp(&self.value, &rhs.value) {
                core::cmp::Ordering::Greater => match cw_checked_sub(self.value, rhs.value) {
                    Ok(v) => Ok(SignedInt { value: v, is_positive: self.is_positive }),
                    Err(e) => Err(CommonError::Std(e)),
                },
                core::cmp::Ordering::Less => match cw_checked_sub(rhs.value, self.value) {
                    Ok(v) => Ok(SignedInt { value: v, is_positive: rhs.is_positive }),
                    Err(e) => Err(CommonError::Std(e)),
                },
                core::cmp::Ordering::Equal => Ok(SignedInt { value: Uint256::zero(), is_positive: true }),
            }
        }
    }

    /// The difference: the sum with `rhs`'s sign flipped.
    pub fn checked_sub(self, rhs: SignedInt) -> (r: Result<SignedInt, CommonError>)
        ensures
            r is Ok <==> abs_int(self@ - rhs@) < uint256_bound(),
            r matches Ok(s) ==> s@ == self@ - rhs@ && s.is_positive == sum_is_positive(self, flipped(rhs)),
            r matches Err(e) ==> e is Std,
    {
        self.checked_add(SignedInt { value: rhs.value, is_positive: !rhs.is_positive })
    }

    /// The sum of an unsigned integer and a signed one.
    pub fn uint_add(lhs: Uint256, rhs: SignedInt) -> (r: Result<SignedInt, CommonError>)
        ensures
            r is Ok <==> abs_int(lhs@ + rhs@) < uint256_bound(),
            r matches Ok(s) ==> s@ == lhs@ + rhs@ && s.is_positive == (lhs@ + rhs@ >= 0),
            r matches Err(e) ==> e is Std,
    {
        SignedInt::from(lhs).checked_add(rhs)
    }

    /// The product: the magnitudes multiply, and the result is positive when
    /// the signs agree or the product is zero. Fails when the product does
    /// not fit in 256 bits.
    pub fn checked_mul(self, rhs: SignedInt) -> (r: Result<SignedInt, CommonError>)
        ensures
            r is Ok <==> self.value@ * rhs.value@ < uint256_bound(),
            r matches Ok(s) ==> s.value@ == self.value@ * rhs.value@
                && s.is_positive == product_is_positive(self, rhs, s.value@),
            r matches Ok(s) ==> s@ == self@ * rhs@,
            r matches Err(e) ==> e is Std,
    {
        proof {
            let (x, y) = (self.value@ as int, rhs.value@ as int);
            assert((-x) * y == -(x * y) && x * (-y) == -(x * y) && (-x) * (-y) == x * y)
                by (nonlinear_arith);
        }
        match cw_checked_mul(self.value, rhs.value) {
            Ok(v) => {
                let z = v.is_zero();
                Ok(SignedInt { value: v, is_positive: self.is_positive == rhs.is_positive || z })
            },
            Err(e) => Err(CommonError::Std(e)),
        }
    }

    /// The product with an unsigned decimal: the magnitude times the
    /// decimal, rounded down; the sign is kept, but a zero result is
    /// positive. Fails when the product does not fit in 256 bits.
    pub fn mul_decimal(self, rhs: Decimal256) -> (r: Result<SignedInt, CommonError>)
        ensures
            r is Ok <==> self.value@ * rhs@ / decimal_fractional() < uint256_bound(),
            r matches Ok(s) ==> s.value@ == self.value@ * rhs@ / decimal_fractional()
                && s.is_positive == (self.is_positive || s.value@ == 0),
            r matches Err(e) ==> e is Std,
    {
        match cw_mul_floor(self.value, rhs) {
            Ok(v) => {
                let z = v.is_zero();
                Ok(SignedInt { value: v, is_positive: self.is_positive || z })
            },
            Err(e) => Err(CommonError::Std(e)),
        }
    }

    /// The quotient of the magnitudes, truncated, with the sign of a product.
    /// Division by a zero magnitude gives a positive zero.
    pub fn div(self, rhs: SignedInt) -> (r: SignedInt)
        ensures
            r.value@ == (if rhs.value@ == 0 { 0 } else { self.value@ / rhs.value@ }),
            r.is_positive == product_is_positive(self, rhs, r.value@),
    {
        let value = if rhs.value.is_zero() {
            rhs.value
        } else {
            cw_checked_div(self.value, rhs.value).unwrap()
        };
        let z = value.is_zero();
        SignedInt { value, is_positive: self.is_positive == rhs.is_positive || z }
    }

    /// The remainder of the magnitudes, as a positive value; both signs are
    /// ignored. Fails when `rhs` has a zero magnitude.
    pub fn checked_rem(self, rhs: SignedInt) -> (r: Result<SignedInt, CommonError>)
        ensures
            r is Ok <==> rhs.value@ != 0,
            r matches Ok(s) ==> s.value@ == self.value@ % rhs.value@ && s.is_positive,
            r matches Err(e) ==> e is Std,
    {
        match cw_checked_rem(self.value, rhs.value) {
            Ok(v) => Ok(SignedInt::from(v)),
            Err(e) => Err(CommonError::Std(e)),
        }
    }

    pub fn one() -> (r: SignedInt)
        ensures
            r.value@ == 1,
            r.is_positive,
    {
        SignedInt { value: Uint256::one(), is_positive: true }
    }

    pub fn zero() -> (r: SignedInt)
        ensures
            r.value@ == 0,
            r.is_positive,
    {
        SignedInt { value: Uint256::zero(), is_positive: true }
    }

    pub fn is_zero(&self) -> (r: bool)
        ensures
            r == (self.value@ == 0),
    {
        self.value.is_zero()
    }

    pub fn is_positive(&self) -> (r: bool)
        ensures
            r == self.is_positive,
    {
        self.is_positive
    }

    pub fn is_negative(&self) -> (r: bool)
        ensures
            r == !self.is_positive,
    {
        !self.is_positive
    }

    /// The same magnitude, positive.
    pub fn abs(&self) -> (r: SignedInt)
        ensures
            r.value == self.value,
            r.is_positive,
    {
        SignedInt { value: self.value, is_positive: true }
    }

    /// The distance between two values: the magnitude of their difference.
    pub fn abs_sub(&self, other: &SignedInt) -> (r: Result<SignedInt, CommonError>)
        ensures
            r is Ok <==> abs_int(self@ - other@) < uint256_bound(),
            r matches Ok(s) ==> s.value@ == abs_int(self@ - other@) && s.is_positive,
            r matches Err(e) ==> e is Std,
    {
        match self.checked_sub(*other) {
            Ok(d) => Ok(d.abs()),
            Err(e) => Err(e),
        }
    }

    /// One with the value's sign.
    pub fn signum(&self) -> (r: SignedInt)
        ensures
            r.value@ == 1,
            r.is_positive == self.is_positive,
    {
        SignedInt { value: Uint256::one(), is_positive: self.is_positive }
    }

    /// The text of the value: `NaN` for the marker, else the decimal digits
    /// of the magnitude after a `-` when negative.
    pub fn to_string(&self) -> (r: String)
        ensures
            r@ == int_text(*self),
    {
        if self.is_nan() {
            proof {
                reveal_strlit("NaN");
            }
            String::from_str("NaN")
        } else {
            let digits = cw_to_string(&self.value);
            if self.is_positive {
                digits
            } else {
                proof {
                    reveal_strlit("-");
                }
                String::from_str("-").concat(digits.as_str())
            }
        }
    }

    /// Reads a signed numeral: a leading `-` makes the value negative, and
    /// the rest goes to `Uint256`'s parser. A zero is always positive.
    pub fn from_str(s: &str) -> (r: Result<SignedInt, CommonError>)
        ensures
            r is Ok <==> parse_signed_int(s@) is Some,
            r matches Ok(x) ==> Some(x@) == parse_signed_int(s@) && x.is_canonical(),
            r matches Err(e) ==> e is Std,
    {
        let (positive, digits) = split_sign(s);
        match cw_from_str(digits) {
            Ok(v) => {
                let z = v.is_zero();
                Ok(SignedInt { value: v, is_positive: positive || z })
            },
            Err(e) => Err(CommonError::Std(e)),
        }
    }

    /// The magnitude, when the value is not negative; a zero magnitude is
    /// returned whatever its sign.
    pub fn try_into(self) -> (r: Result<Uint256, CommonError>)
        ensures
            r is Ok <==> (self.is_positive || self.value@ == 0),
            r matches Ok(v) ==> v == self.value,
            r matches Err(e) ==> e is Generic,
    {
        if !self.is_positive && !self.value.is_zero() {
            proof {
                reveal_strlit("Cannot convert negative SignedInt to Uint256");
            }
            return Err(CommonError::Generic(String::from_str("Cannot convert negative SignedInt to Uint256")));
        }
        Ok(self.value)
    }
}

impl core::ops::Neg for SignedInt {
    type Output = SignedInt;

    /// Flips the sign of a nonzero magnitude; a zero magnitude is kept as it
    /// is.
    fn neg(self) -> (r: SignedInt) {
        if self.is_zero() {
            return self;
        }
        SignedInt { value: self.value, is_positive: !self.is_positive }
    }
}

impl vstd::std_specs::ops::NegSpecImpl for SignedInt {
    open spec fn obeys_neg_spec() -> bool {
        true
    }

    open spec fn neg_req(self) -> bool {
        true
    }

    open spec fn neg_spec(self) -> SignedInt {
        spec_neg(self)
    }
}

impl PartialEq for SignedInt {
    fn eq(&self, other: &SignedInt) -> (r: bool) {
        self.value == other.value && self.is_positive == other.is_positive
    }
}

impl vstd::std_specs::cmp::PartialEqSpecImpl for SignedInt {
    open spec fn obeys_eq_spec() -> bool {
        true
    }

    open spec fn eq_spec(&self, other: &SignedInt) -> bool {
        self.value@ == other.value@ && self.is_positive == other.is_positive
    }
}

impl PartialOrd for SignedInt {
    fn partial_cmp(&self, other: &SignedInt) -> (r: Option<core::cmp::Ordering>) {
        if self.is_positive == other.is_positive {
            if self.is_positive {
                Some(cw_cmp(&self.value, &other.value))
            } else {
                Some(cw_cmp(&other.value, &self.value))
            }
        } else if self.is_positive {
            Some(core::cmp::Ordering::Greater)
        } else {
            Some(core::cmp::Ordering::Less)
        }
    }
}

impl vstd::std_specs::cmp::PartialOrdSpecImpl for SignedInt {
    open spec fn obeys_partial_cmp_spec() -> bool {
        true
    }

    open spec fn partial_cmp_spec(&self, other: &SignedInt) -> Option<core::cmp::Ordering> {
        Some(sign_magnitude_order(self.is_positive, self.value@, other.is_positive, other.value@))
    }
}

impl From<Uint256> for SignedInt {
    /// The same magnitude, positive.
    fn from(value: Uint256) -> (r: SignedInt) {
        SignedInt { value, is_positive: true }
    }
}

impl vstd::std_specs::convert::FromSpecImpl<Uint256> for SignedInt {
    open spec fn obeys_from_spec() -> bool {
        true
    }

    open spec fn from_spec(value: Uint256) -> SignedInt {
        SignedInt { value, is_positive: true }
    }
}

impl Default for SignedInt {
    /// A positive zero.
    fn default() -> (r: SignedInt)
        ensures
            r.value@ == 0,
            r.is_positive,
    {
        SignedInt { value: Uint256::zero(), is_positive: true }
    }
}

} // verus!

verus! {

/// A value plus its negation is a positive zero, in either order; this
/// holds of every value but the not-a-number marker.
pub proof fn lemma_add_neg_is_zero(a: SignedInt)
    requires
        !a.spec_is_nan(),
    ensures
        abs_int(a@ + spec_neg(a)@) < uint256_bound(),
        a@ + spec_neg(a)@ == 0,
        sum_is_positive(a, spec_neg(a)),
        abs_int(spec_neg(a)@ + a@) < uint256_bound(),
        spec_neg(a)@ + a@ == 0,
        sum_is_positive(spec_neg(a), a),
{
    lemma_uint256_bound(a.value);
}

/// Negating twice gives the value back, and the negation of a zero is that
/// same zero (a positive zero stays positive).
pub proof fn lemma_neg_neg(a: SignedInt)
    ensures
        spec_neg(spec_neg(a)) == a,
        a.value@ == 0 ==> spec_neg(a) == a,
{
}

/// Two values of one sign add to a value of that sign whose magnitude is
/// the sum of theirs.
pub proof fn lemma_add_same_sign(a: SignedInt, b: SignedInt)
    requires
        a.is_positive == b.is_positive,
    ensures
        sum_is_positive(a, b) == a.is_positive,
        abs_int(a@ + b@) == a.value@ + b.value@,
{
}

/// `a - b` is `a + (-b)`: the same success, value and sign, whenever `a` is
/// not the not-a-number marker.
pub proof fn lemma_sub_is_add_neg(a: SignedInt, b: SignedInt)
    requires
        !a.spec_is_nan(),
    ensures
        a@ - b@ == a@ + spec_neg(b)@,
        abs_int(a@ - b@) == abs_int(a@ + spec_neg(b)@),
        sum_is_positive(a, flipped(b)) == sum_is_positive(a, spec_neg(b)),
{
}

/// A product with a zero factor, in either order, is a positive zero.
pub proof fn lemma_zero_product_is_positive(a: SignedInt, b: SignedInt)
    requires
        a.value@ == 0,
    ensures
        a.value@ * b.value@ == 0,
        b.value@ * a.value@ == 0,
        product_is_positive(a, b, a.value@ * b.value@),
        product_is_positive(b, a, b.value@ * a.value@),
{
}

/// Exactly one of `a < b`, `a == b` and `a > b` holds; `a < b` is `b > a`;
/// and for values other than the not-a-number marker the order is that of
/// the numbers held.
pub proof fn lemma_order_total(a: SignedInt, b: SignedInt)
    ensures
        a.partial_cmp_spec(&b) is Some,
        a.partial_cmp_spec(&b) == Some(core::cmp::Ordering::Equal) <==> a.eq_spec(&b),
        a.partial_cmp_spec(&b) == Some(core::cmp::Ordering::Less) <==> b.partial_cmp_spec(&a)
            == Some(core::cmp::Ordering::Greater),
        !a.spec_is_nan() && !b.spec_is_nan() ==> (a.partial_cmp_spec(&b) == Some(
            core::cmp::Ordering::Less,
        ) <==> a@ < b@) && (a.eq_spec(&b) <==> a@ == b@) && (a.partial_cmp_spec(&b) == Some(
            core::cmp::Ordering::Greater,
        ) <==> a@ > b@),
{
}

/// Reading back the text of a value gives the value: so the text of what a
/// numeral parses to spells the same number as the numeral.
pub proof fn lemma_text_round_trip(x: SignedInt)
    requires
        x.is_canonical(),
    ensures
        parse_signed_int(int_text(x)) == Some(x@),
{
    let m = x.value@;
    let d = decimal_digits(m);
    lemma_uint256_bound(x.value);
    lemma_parse_decimal_digits(m);
    if x.is_positive {
        assert(d[0] != '-');
        assert(sign_split(int_text(x)) == (true, d));
    } else {
        assert((seq!['-'] + d).drop_first() =~= d);
        assert(sign_split(int_text(x)) == (false, d));
    }
}

} // verus!
