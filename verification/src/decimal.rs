//! Fixed-point decimal numbers.
//!
//! A [`Decimal`] is a signed 96-bit mantissa together with a scale: the
//! number it stands for is `mantissa / 10^scale`. Order and equality are
//! those of the numbers, so `0.50` and `0.5` compare equal although they are
//! different representations. Arithmetic is carried out by `rust_decimal`;
//! what it returns is named, not re-derived, and every operation is checked:
//! it yields `None` where the result cannot be represented.

use vstd::prelude::*;
use vstd::arithmetic::power::{lemma_pow0, lemma_pow_increases, pow};

verus! {

/// Largest magnitude of a mantissa: `2^96 - 1`.
pub const MAX_MANTISSA: i128 = 0xFFFF_FFFF_FFFF_FFFF_FFFF_FFFF;

/// Largest scale.
pub const MAX_SCALE: u32 = 28;

/// A decimal number `mantissa / 10^scale`.
#[derive(Clone, Copy, Debug)]
pub struct Decimal {
    mantissa: i128,
    scale: u32,
}

/// Whether a mantissa and a scale make a decimal number.
pub open spec fn representable(mantissa: int, scale: int) -> bool {
    &&& -MAX_MANTISSA <= mantissa <= MAX_MANTISSA
    &&& 0 <= scale <= MAX_SCALE
}

/// `10^e`.
pub open spec fn pow10(e: nat) -> int {
    pow(10, e)
}

/// What `rust_decimal` returns for `a + b`; `None` where it reports overflow.
pub uninterp spec fn decimal_sum(a: Decimal, b: Decimal) -> Option<Decimal>;

/// What `rust_decimal` returns for `a - b`; `None` where it reports overflow.
pub uninterp spec fn decimal_difference(a: Decimal, b: Decimal) -> Option<Decimal>;

/// What `rust_decimal` returns for `a * b`; `None` where it reports overflow.
pub uninterp spec fn decimal_product(a: Decimal, b: Decimal) -> Option<Decimal>;

/// What `rust_decimal` returns for `a / b`; `None` where it reports overflow
/// or a zero divisor.
pub uninterp spec fn decimal_quotient(a: Decimal, b: Decimal) -> Option<Decimal>;

/// The text `rust_decimal` prints for `a`.
pub uninterp spec fn decimal_text(a: Decimal) -> Seq<char>;

/// The text `rust_decimal` prints for `a` with a fixed number of fractional
/// digits.
pub uninterp spec fn decimal_fixed_text(a: Decimal, places: usize) -> Seq<char>;

/// `a + b`: adding zero changes nothing, not even the scale of the other
/// operand.
pub open spec fn sum(a: Decimal, b: Decimal) -> Option<Decimal> {
    if a.is_zero() {
        Some(b)
    } else if b.is_zero() {
        Some(a)
    } else {
        decimal_sum(a, b)
    }
}

/// Most fractional digits that a text is written with: as many as a
/// number can have.
pub const MAX_PLACES: usize = 28;

/// Most digits of whole part and places together, so that the text with
/// its point fits the 32 bytes in which it is built.
pub const MAX_FIXED_DIGITS: usize = 31;

/// The number with exactly `places` fractional digits where that text can
/// be written, and as it is where it cannot.
pub open spec fn fixed_or_plain(a: Decimal, places: usize) -> Seq<char> {
    if a.spec_fits_fixed(places) {
        decimal_fixed_text(a, places)
    } else {
        decimal_text(a)
    }
}

/// `a / b`, with no value for a zero divisor.
pub open spec fn quotient(a: Decimal, b: Decimal) -> Option<Decimal> {
    if b.is_zero() {
        None
    } else {
        decimal_quotient(a, b)
    }
}

impl Decimal {
    #[verifier::type_invariant]
    pub closed spec fn well_formed(self) -> bool {
        representable(self.mantissa as int, self.scale as int)
    }

    /// The decimal with the given mantissa and scale.
    pub closed spec fn of(mantissa: int, scale: int) -> Decimal {
        Decimal { mantissa: mantissa as i128, scale: scale as u32 }
    }

    pub closed spec fn spec_mantissa(&self) -> i128 {
        self.mantissa
    }

    pub closed spec fn spec_scale(&self) -> u32 {
        self.scale
    }

    pub open spec fn spec_is_zero(&self) -> bool {
        self.spec_mantissa() == 0
    }

    /// The magnitude of the mantissa.
    pub open spec fn magnitude(&self) -> int {
        if self.spec_mantissa() < 0 {
            -self.spec_mantissa()
        } else {
            self.spec_mantissa() as int
        }
    }

    /// Whether the number can be written with `places` fractional digits:
    /// there are at most [`MAX_PLACES`] of them, and the digits of the whole
    /// part and the places are at most [`MAX_FIXED_DIGITS`] together. Up to
    /// two places every number can.
    pub open spec fn spec_fits_fixed(&self, places: usize) -> bool {
        places <= 2 || (places <= MAX_PLACES && self.magnitude() < pow10(
            (self.spec_scale() + MAX_FIXED_DIGITS - places) as nat,
        ))
    }

    /// `self < other` as numbers.
    pub open spec fn lt(self, other: Decimal) -> bool {
        self.spec_mantissa() * pow10(other.spec_scale() as nat) < other.spec_mantissa() * pow10(
            self.spec_scale() as nat,
        )
    }

    /// `self == other` as numbers.
    pub open spec fn same(self, other: Decimal) -> bool {
        self.spec_mantissa() * pow10(other.spec_scale() as nat) == other.spec_mantissa() * pow10(
            self.spec_scale() as nat,
        )
    }

    /// `self <= other` as numbers.
    pub open spec fn le(self, other: Decimal) -> bool {
        self.lt(other) || self.same(other)
    }

    /// `self > other` as numbers.
    pub open spec fn gt(self, other: Decimal) -> bool {
        other.lt(self)
    }

    /// `self >= other` as numbers.
    pub open spec fn ge(self, other: Decimal) -> bool {
        other.le(self)
    }

    /// The magnitude of `self`, at the same scale.
    pub open spec fn spec_abs(&self) -> Decimal {
        if self.spec_mantissa() < 0 {
            Decimal::of(-self.spec_mantissa(), self.spec_scale() as int)
        } else {
            *self
        }
    }

    /// `-self`, at the same scale.
    pub open spec fn spec_neg(&self) -> Decimal {
        Decimal::of(-self.spec_mantissa(), self.spec_scale() as int)
    }

    /// The smaller of the two; `self` where they are equal as numbers.
    pub open spec fn spec_min(self, other: Decimal) -> Decimal {
        if other.lt(self) {
            other
        } else {
            self
        }
    }

    /// A decimal is its mantissa and its scale, and nothing else.
    pub proof fn lemma_of(mantissa: int, scale: int)
        requires
            representable(mantissa, scale),
        ensures
            Decimal::of(mantissa, scale).spec_mantissa() == mantissa,
            Decimal::of(mantissa, scale).spec_scale() == scale,
    {
    }

    /// Two decimals with the same mantissa and scale are the same value.
    pub proof fn lemma_same_parts(a: Decimal, b: Decimal)
        requires
            a.spec_mantissa() == b.spec_mantissa(),
            a.spec_scale() == b.spec_scale(),
        ensures
            a == b,
    {
    }

    /// The whole number `num / 10^scale`.
    pub fn new(num: i64, scale: u32) -> (r: Decimal)
        requires
            scale <= MAX_SCALE,
        ensures
            r == Decimal::of(num as int, scale as int),
    {
        Decimal { mantissa: num as i128, scale }
    }

    /// The decimal with this mantissa and scale, if there is one.
    pub fn try_from_i128_with_scale(num: i128, scale: u32) -> (r: Option<Decimal>)
        ensures
            r == if representable(num as int, scale as int) {
                Some(Decimal::of(num as int, scale as int))
            } else {
                None
            },
    {
        if scale > MAX_SCALE || num > MAX_MANTISSA || num < -MAX_MANTISSA {
            None
        } else {
            Some(Decimal { mantissa: num, scale })
        }
    }

    /// The whole number `n`.
    pub fn from_usize(n: usize) -> (r: Decimal)
        ensures
            r == Decimal::of(n as int, 0),
    {
        Decimal { mantissa: n as i128, scale: 0 }
    }

    /// The whole number `n`.
    pub fn from_i64(n: i64) -> (r: Decimal)
        ensures
            r == Decimal::of(n as int, 0),
    {
        Decimal { mantissa: n as i128, scale: 0 }
    }

    /// `0`.
    pub fn zero() -> (r: Decimal)
        ensures
            r == Decimal::of(0, 0),
    {
        Decimal { mantissa: 0, scale: 0 }
    }

    /// `1`.
    pub fn one() -> (r: Decimal)
        ensures
            r == Decimal::of(1, 0),
    {
        Decimal { mantissa: 1, scale: 0 }
    }

    /// `2`.
    pub fn two() -> (r: Decimal)
        ensures
            r == Decimal::of(2, 0),
    {
        Decimal { mantissa: 2, scale: 0 }
    }

    /// `100`.
    pub fn one_hundred() -> (r: Decimal)
        ensures
            r == Decimal::of(100, 0),
    {
        Decimal { mantissa: 100, scale: 0 }
    }

    #[verifier::when_used_as_spec(spec_mantissa)]
    pub fn mantissa(&self) -> (r: i128)
        ensures
            r == self.spec_mantissa(),
            representable(r as int, self.spec_scale() as int),
    {
        proof {
            use_type_invariant(self);
        }
        self.mantissa
    }

    #[verifier::when_used_as_spec(spec_scale)]
    pub fn scale(&self) -> (r: u32)
        ensures
            r == self.spec_scale(),
            r <= MAX_SCALE,
    {
        proof {
            use_type_invariant(self);
        }
        self.scale
    }

    #[verifier::when_used_as_spec(spec_is_zero)]
    pub fn is_zero(&self) -> (r: bool)
        ensures
            r == self.spec_is_zero(),
    {
        self.mantissa == 0
    }

    #[verifier::when_used_as_spec(spec_abs)]
    pub fn abs(&self) -> (r: Decimal)
        ensures
            r == self.spec_abs(),
    {
        proof {
            use_type_invariant(self);
        }
        if self.mantissa < 0 {
            Decimal { mantissa: -self.mantissa, scale: self.scale }
        } else {
            Decimal { mantissa: self.mantissa, scale: self.scale }
        }
    }

    #[verifier::when_used_as_spec(spec_neg)]
    pub fn neg(&self) -> (r: Decimal)
        ensures
            r == self.spec_neg(),
    {
        proof {
            use_type_invariant(self);
        }
        Decimal { mantissa: -self.mantissa, scale: self.scale }
    }

    /// `self + other`, or `None` on overflow.
    pub fn checked_add(self, other: Decimal) -> (r: Option<Decimal>)
        ensures
            r == sum(self, other),
    {
        proof {
            use_type_invariant(self);
            use_type_invariant(other);
        }
        add_outside(self, other)
    }

    /// `self - other`, or `None` on overflow.
    pub fn checked_sub(self, other: Decimal) -> (r: Option<Decimal>)
        ensures
            r == decimal_difference(self, other),
    {
        proof {
            use_type_invariant(self);
            use_type_invariant(other);
        }
        sub_outside(self, other)
    }

    /// `self * other`, or `None` on overflow.
    pub fn checked_mul(self, other: Decimal) -> (r: Option<Decimal>)
        ensures
            r == decimal_product(self, other),
    {
        proof {
            use_type_invariant(self);
            use_type_invariant(other);
        }
        mul_outside(self, other)
    }

    /// `self / other`, or `None` on overflow or where `other` is zero.
    pub fn checked_div(self, other: Decimal) -> (r: Option<Decimal>)
        ensures
            r == quotient(self, other),
    {
        proof {
            use_type_invariant(self);
            use_type_invariant(other);
        }
        if other.is_zero() {
            None
        } else {
            div_outside(self, other)
        }
    }

    /// Whether `self < other` as numbers.
    pub fn is_lt(self, other: Decimal) -> (r: bool)
        ensures
            r == self.lt(other),
    {
        proof {
            use_type_invariant(self);
            use_type_invariant(other);
        }
        lt_outside(self, other)
    }

    /// Whether `self > other` as numbers.
    pub fn is_gt(self, other: Decimal) -> (r: bool)
        ensures
            r == self.gt(other),
    {
        other.is_lt(self)
    }

    /// Whether `self == other` as numbers.
    pub fn is_same(self, other: Decimal) -> (r: bool)
        ensures
            r == self.same(other),
    {
        proof {
            use_type_invariant(self);
            use_type_invariant(other);
        }
        eq_outside(self, other)
    }

    /// Whether `self <= other` as numbers.
    pub fn is_le(self, other: Decimal) -> (r: bool)
        ensures
            r == self.le(other),
    {
        self.is_lt(other) || self.is_same(other)
    }

    /// Whether `self >= other` as numbers.
    pub fn is_ge(self, other: Decimal) -> (r: bool)
        ensures
            r == self.ge(other),
    {
        other.is_le(self)
    }

    /// The smaller of the two; `self` where they are equal as numbers.
    #[verifier::when_used_as_spec(spec_min)]
    pub fn min(self, other: Decimal) -> (r: Decimal)
        ensures
            r == self.spec_min(other),
    {
        if other.is_lt(self) {
            other
        } else {
            self
        }
    }

    /// The number as text, such as `-1.50`.
    pub fn to_string(&self) -> (r: String)
        ensures
            r@ == decimal_text(*self),
    {
        proof {
            use_type_invariant(self);
        }
        text_outside(*self)
    }

    /// Whether the number can be written with `places` fractional digits.
    #[verifier::when_used_as_spec(spec_fits_fixed)]
    pub fn fits_fixed(&self, places: usize) -> (r: bool)
        ensures
            r == self.spec_fits_fixed(places),
    {
        proof {
            use_type_invariant(self);
        }
        if places <= 2 {
            return true;
        }
        if places > MAX_PLACES {
            return false;
        }
        let e: usize = self.scale as usize + MAX_FIXED_DIGITS - places;
        let size: i128 = if self.mantissa < 0 {
            -self.mantissa
        } else {
            self.mantissa
        };
        let mut p: i128 = 1;
        let mut k: usize = 0;
        proof {
            lemma_pow0(10);
        }
        while k < e && p <= size
            invariant
                k <= e,
                1 <= p == pow10(k as nat),
                0 <= size <= MAX_MANTISSA,
            decreases e - k,
        {
            proof {
                vstd::arithmetic::power::lemma_pow_adds(10, k as nat, 1);
                vstd::arithmetic::power::lemma_pow1(10);
            }
            p = p * 10;
            k += 1;
        }
        proof {
            lemma_pow_increases(10, k as nat, e as nat);
        }
        p > size
    }

    /// The number as text with exactly `places` fractional digits, cut off
    /// behind them. The text must fit: see [`Decimal::to_fixed_or_plain`]
    /// for a number of any size.
    pub fn to_fixed(&self, places: usize) -> (r: String)
        requires
            self.spec_fits_fixed(places),
        ensures
            r@ == decimal_fixed_text(*self, places),
    {
        proof {
            use_type_invariant(self);
        }
        fixed_text_outside(*self, places)
    }

    /// The number as text with exactly `places` fractional digits where
    /// that text can be written, and the number as it is where it cannot.
    pub fn to_fixed_or_plain(&self, places: usize) -> (r: String)
        ensures
            r@ == fixed_or_plain(*self, places),
    {
        if self.fits_fixed(places) {
            self.to_fixed(places)
        } else {
            self.to_string()
        }
    }
}

impl PartialEq for Decimal {
    fn eq(&self, other: &Decimal) -> (r: bool) {
        self.is_same(*other)
    }
}

impl vstd::std_specs::cmp::PartialEqSpecImpl for Decimal {
    open spec fn obeys_eq_spec() -> bool {
        true
    }

    open spec fn eq_spec(&self, other: &Decimal) -> bool {
        self.same(*other)
    }
}

/// `rust_decimal::Decimal::checked_add`: where one operand is zero it returns
/// the other unchanged; otherwise the sum it returns, which is again a
/// decimal number, or `None` where it reports overflow.
#[verifier::external_body]
fn add_outside(a: Decimal, b: Decimal) -> (r: Option<Decimal>)
    requires
        a.well_formed(),
        b.well_formed(),
    ensures
        a.is_zero() ==> r == Some(b),
        !a.is_zero() && b.is_zero() ==> r == Some(a),
        !a.is_zero() && !b.is_zero() ==> r == decimal_sum(a, b),
        r matches Some(v) ==> v.well_formed(),
{
    let x = rust_decimal::Decimal::from_i128_with_scale(a.mantissa, a.scale);
    let y = rust_decimal::Decimal::from_i128_with_scale(b.mantissa, b.scale);
    match x.checked_add(y) {
        Some(z) => Some(Decimal { mantissa: z.mantissa(), scale: z.scale() }),
        None => None,
    }
}

/// `rust_decimal::Decimal::checked_sub`: the difference it returns, which is
/// again a decimal number, or `None` where it reports overflow.
#[verifier::external_body]
fn sub_outside(a: Decimal, b: Decimal) -> (r: Option<Decimal>)
    requires
        a.well_formed(),
        b.well_formed(),
    ensures
        r == decimal_difference(a, b),
        r matches Some(v) ==> v.well_formed(),
{
    let x = rust_decimal::Decimal::from_i128_with_scale(a.mantissa, a.scale);
    let y = rust_decimal::Decimal::from_i128_with_scale(b.mantissa, b.scale);
    match x.checked_sub(y) {
        Some(z) => Some(Decimal { mantissa: z.mantissa(), scale: z.scale() }),
        None => None,
    }
}

/// `rust_decimal::Decimal::checked_mul`: the product it returns, which is
/// again a decimal number, or `None` where it reports overflow.
#[verifier::external_body]
fn mul_outside(a: Decimal, b: Decimal) -> (r: Option<Decimal>)
    requires
        a.well_formed(),
        b.well_formed(),
    ensures
        r == decimal_product(a, b),
        r matches Some(v) ==> v.well_formed(),
{
    let x = rust_decimal::Decimal::from_i128_with_scale(a.mantissa, a.scale);
    let y = rust_decimal::Decimal::from_i128_with_scale(b.mantissa, b.scale);
    match x.checked_mul(y) {
        Some(z) => Some(Decimal { mantissa: z.mantissa(), scale: z.scale() }),
        None => None,
    }
}

/// `rust_decimal::Decimal::checked_div`: the quotient it returns, which is
/// again a decimal number, or `None` where it reports overflow or division by
/// zero.
#[verifier::external_body]
fn div_outside(a: Decimal, b: Decimal) -> (r: Option<Decimal>)
    requires
        a.well_formed(),
        b.well_formed(),
    ensures
        r == decimal_quotient(a, b),
        r matches Some(v) ==> v.well_formed(),
{
    let x = rust_decimal::Decimal::from_i128_with_scale(a.mantissa, a.scale);
    let y = rust_decimal::Decimal::from_i128_with_scale(b.mantissa, b.scale);
    match x.checked_div(y) {
        Some(z) => Some(Decimal { mantissa: z.mantissa(), scale: z.scale() }),
        None => None,
    }
}

/// `<` of `rust_decimal::Decimal`: it orders decimals as the numbers they
/// stand for, whatever their scales.
#[verifier::external_body]
fn lt_outside(a: Decimal, b: Decimal) -> (r: bool)
    requires
        a.well_formed(),
        b.well_formed(),
    ensures
        r == a.lt(b),
{
    let x = rust_decimal::Decimal::from_i128_with_scale(a.mantissa, a.scale);
    let y = rust_decimal::Decimal::from_i128_with_scale(b.mantissa, b.scale);
    x < y
}

/// `==` of `rust_decimal::Decimal`: two decimals are equal where they stand
/// for the same number, whatever their scales.
#[verifier::external_body]
fn eq_outside(a: Decimal, b: Decimal) -> (r: bool)
    requires
        a.well_formed(),
        b.well_formed(),
    ensures
        r == a.same(b),
{
    let x = rust_decimal::Decimal::from_i128_with_scale(a.mantissa, a.scale);
    let y = rust_decimal::Decimal::from_i128_with_scale(b.mantissa, b.scale);
    x == y
}

/// `to_string` of `rust_decimal::Decimal`: the text is a function of the
/// number's mantissa and scale; it is named, not described.
#[verifier::external_body]
fn text_outside(a: Decimal) -> (r: String)
    requires
        a.well_formed(),
    ensures
        r@ == decimal_text(a),
{
    rust_decimal::Decimal::from_i128_with_scale(a.mantissa, a.scale).to_string()
}

/// The `Display` of `rust_decimal::Decimal` with a precision: the text is a
/// function of the number and of the precision; it is named, not described.
/// `rust_decimal` builds the text in 32 bytes and does not return where
/// it is longer: the digits of the whole part (one at least), the point,
/// and the places. So the number must fit; and no more places are asked
/// for than a number can have.
#[verifier::external_body]
fn fixed_text_outside(a: Decimal, places: usize) -> (r: String)
    requires
        a.well_formed(),
        a.spec_fits_fixed(places),
    ensures
        r@ == decimal_fixed_text(a, places),
{
    let x = rust_decimal::Decimal::from_i128_with_scale(a.mantissa, a.scale);
    format!("{:.*}", places, x)
}

} // verus!
