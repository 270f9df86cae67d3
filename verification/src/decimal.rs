//! Fixed-precision decimal numbers.
//!
//! A [`Decimal`] is a signed 96-bit mantissa together with a scale between 0
//! and 28; it stands for `mantissa / 10^scale`. Ordering is specified exactly
//! in this module. Rounding arithmetic, parsing and printing are carried out
//! by the `rust_decimal` crate; each of those results is given a name here so
//! that the contracts of the rest of the library can refer to it.

use vstd::prelude::*;

verus! {

/// Largest magnitude of a mantissa: `2^96 - 1`.
pub const MAX_MANTISSA: i128 = 0xFFFF_FFFF_FFFF_FFFF_FFFF_FFFF;

/// Largest scale (number of digits after the decimal point).
pub const MAX_SCALE: u32 = 28;

/// `10^n`.
pub open spec fn pow10(n: nat) -> int
    decreases n,
{
    if n == 0 {
        1
    } else {
        10 * pow10((n - 1) as nat)
    }
}

/// A decimal number `mantissa / 10^scale`.
#[derive(Clone, Copy, Debug)]
pub struct Decimal {
    mantissa: i128,
    scale: u32,
}

/// The sum that `rust_decimal` computes for two decimals, `None` on overflow.
pub uninterp spec fn decimal_sum(a: Decimal, b: Decimal) -> Option<Decimal>;

/// The difference `a - b` that `rust_decimal` computes, `None` on overflow.
pub uninterp spec fn decimal_difference(a: Decimal, b: Decimal) -> Option<Decimal>;

/// The product that `rust_decimal` computes, `None` on overflow.
pub uninterp spec fn decimal_product(a: Decimal, b: Decimal) -> Option<Decimal>;

/// The quotient `a / b` that `rust_decimal` computes, `None` when `b` is zero
/// or on overflow.
pub uninterp spec fn decimal_quotient(a: Decimal, b: Decimal) -> Option<Decimal>;

/// The power `a^exp` that `rust_decimal` computes, `None` on overflow.
pub uninterp spec fn decimal_power(a: Decimal, exp: int) -> Option<Decimal>;

/// The decimal that `rust_decimal` reads from a text, `None` when the text is
/// not a decimal number.
pub uninterp spec fn decimal_from_text(text: Seq<char>) -> Option<Decimal>;

/// The text that `rust_decimal` prints for a decimal.
pub uninterp spec fn decimal_text(d: Decimal) -> Seq<char>;

/// The text that `rust_decimal` prints for a decimal with a fixed number of
/// digits after the decimal point.
pub uninterp spec fn decimal_text_fixed(d: Decimal, digits: nat) -> Seq<char>;

impl Decimal {
    #[verifier::type_invariant]
    spec fn well_formed(self) -> bool {
        &&& self.scale <= MAX_SCALE
        &&& -MAX_MANTISSA <= self.mantissa <= MAX_MANTISSA
    }

    /// The mantissa as a mathematical integer.
    pub closed spec fn spec_mantissa(self) -> int {
        self.mantissa as int
    }

    /// The scale as a natural number.
    pub closed spec fn spec_scale(self) -> nat {
        self.scale as nat
    }

    /// The decimal with the given mantissa and scale.
    pub closed spec fn spec_new(mantissa: int, scale: nat) -> Decimal {
        Decimal { mantissa: mantissa as i128, scale: scale as u32 }
    }

    /// Whether a mantissa and a scale are within the representable range.
    pub open spec fn representable(mantissa: int, scale: nat) -> bool {
        &&& scale <= MAX_SCALE
        &&& -MAX_MANTISSA <= mantissa <= MAX_MANTISSA
    }


    /// `self < other` as numbers.
    pub open spec fn lt_spec(self, other: Decimal) -> bool {
        self.spec_mantissa() * pow10(other.spec_scale()) < other.spec_mantissa() * pow10(
            self.spec_scale(),
        )
    }

    /// `self <= other` as numbers.
    pub open spec fn le_spec(self, other: Decimal) -> bool {
        !other.lt_spec(self)
    }

    /// `self` and `other` are the same number (their scales may differ).
    pub open spec fn eq_spec(self, other: Decimal) -> bool {
        !self.lt_spec(other) && !other.lt_spec(self)
    }

    /// `self` is the number zero.
    pub open spec fn is_zero_spec(self) -> bool {
        self.spec_mantissa() == 0
    }

    /// `self` is greater than zero.
    pub open spec fn is_positive_spec(self) -> bool {
        self.spec_mantissa() > 0
    }

    /// The number zero with scale 0.
    pub open spec fn spec_zero() -> Decimal {
        Self::spec_new(0, 0)
    }

    /// The whole number `n`.
    pub open spec fn spec_whole(n: int) -> Decimal {
        Self::spec_new(n, 0)
    }

    /// `-self`.
    pub open spec fn neg_spec(self) -> Decimal {
        Self::spec_new(-self.spec_mantissa(), self.spec_scale())
    }

    /// `|self|`.
    pub open spec fn abs_spec(self) -> Decimal {
        if self.spec_mantissa() < 0 {
            self.neg_spec()
        } else {
            self
        }
    }

    /// Builds `num / 10^scale`.
    pub fn new(num: i64, scale: u32) -> (r: Decimal)
        requires
            scale <= MAX_SCALE,
        ensures
            r == Self::spec_new(num as int, scale as nat),
            r.spec_mantissa() == num,
            r.spec_scale() == scale,
    {
        Decimal { mantissa: num as i128, scale }
    }

    /// Builds `mantissa / 10^scale` when both are within range.
    pub fn from_parts(mantissa: i128, scale: u32) -> (r: Option<Decimal>)
        ensures
            r is Some <==> Self::representable(mantissa as int, scale as nat),
            r matches Some(d) ==> d == Self::spec_new(mantissa as int, scale as nat)
                && d.spec_mantissa() == mantissa && d.spec_scale() == scale,
    {
        if scale <= MAX_SCALE && -MAX_MANTISSA <= mantissa && mantissa <= MAX_MANTISSA {
            Some(Decimal { mantissa, scale })
        } else {
            None
        }
    }

    /// The number zero with scale 0.
    pub fn zero() -> (r: Decimal)
        ensures
            r == Self::spec_zero(),
            r.is_zero_spec(),
            r.spec_scale() == 0,
    {
        Decimal { mantissa: 0, scale: 0 }
    }

    /// The whole number `n`.
    pub fn from_u64(n: u64) -> (r: Decimal)
        ensures
            r == Self::spec_whole(n as int),
            r.spec_mantissa() == n,
            r.spec_scale() == 0,
    {
        Decimal { mantissa: n as i128, scale: 0 }
    }

    /// The whole number `n`.
    pub fn from_usize(n: usize) -> (r: Decimal)
        ensures
            r == Self::spec_whole(n as int),
            r.spec_mantissa() == n,
            r.spec_scale() == 0,
    {
        Decimal { mantissa: n as i128, scale: 0 }
    }

    /// The mantissa.
    pub fn mantissa(&self) -> (r: i128)
        ensures
            r == self.spec_mantissa(),
            -MAX_MANTISSA <= r <= MAX_MANTISSA,
    {
        proof {
            use_type_invariant(self);
        }
        self.mantissa
    }

    /// The scale.
    pub fn scale(&self) -> (r: u32)
        ensures
            r == self.spec_scale(),
            r <= MAX_SCALE,
    {
        proof {
            use_type_invariant(self);
        }
        self.scale
    }

    /// Whether this is the number zero.
    pub fn is_zero(&self) -> (r: bool)
        ensures
            r == self.is_zero_spec(),
    {
        self.mantissa == 0
    }

    /// Whether this is greater than zero.
    pub fn is_positive(&self) -> (r: bool)
        ensures
            r == self.is_positive_spec(),
            r == Self::spec_zero().lt_spec(*self),
    {
        proof {
            lemma_pow10_positive(self.spec_scale());
            assert(pow10(0) == 1);
            assert(0 * pow10(self.spec_scale()) == 0);
        }
        self.mantissa > 0
    }

    /// `-self`.
    pub fn neg(&self) -> (r: Decimal)
        ensures
            r == self.neg_spec(),
    {
        proof {
            use_type_invariant(self);
        }
        Decimal { mantissa: -self.mantissa, scale: self.scale }
    }

    /// `|self|`.
    pub fn abs(&self) -> (r: Decimal)
        ensures
            r == self.abs_spec(),
    {
        if self.mantissa < 0 {
            self.neg()
        } else {
            *self
        }
    }

    /// `self < other` as numbers.
    pub fn lt(&self, other: &Decimal) -> (r: bool)
        ensures
            r == self.lt_spec(*other),
    {
        less_than(*self, *other)
    }

    /// `self <= other` as numbers.
    pub fn le(&self, other: &Decimal) -> (r: bool)
        ensures
            r == self.le_spec(*other),
    {
        !less_than(*other, *self)
    }

    /// `self > other` as numbers.
    pub fn gt(&self, other: &Decimal) -> (r: bool)
        ensures
            r == other.lt_spec(*self),
    {
        less_than(*other, *self)
    }

    /// `self >= other` as numbers.
    pub fn ge(&self, other: &Decimal) -> (r: bool)
        ensures
            r == other.le_spec(*self),
    {
        !less_than(*self, *other)
    }

    /// Whether both are the same number.
    pub fn equals(&self, other: &Decimal) -> (r: bool)
        ensures
            r == self.eq_spec(*other),
    {
        !less_than(*self, *other) && !less_than(*other, *self)
    }

    /// `self + other`, `None` on overflow.
    pub fn checked_add(&self, other: &Decimal) -> (r: Option<Decimal>)
        ensures
            r == decimal_sum(*self, *other),
            self.is_zero_spec() ==> r == Some(*other),
            other.is_zero_spec() && !self.is_zero_spec() ==> r == Some(*self),
    {
        sum_of(*self, *other)
    }

    /// `self - other`, `None` on overflow.
    pub fn checked_sub(&self, other: &Decimal) -> (r: Option<Decimal>)
        ensures
            r == decimal_difference(*self, *other),
    {
        difference_of(*self, *other)
    }

    /// `self * other`, `None` on overflow.
    pub fn checked_mul(&self, other: &Decimal) -> (r: Option<Decimal>)
        ensures
            r == decimal_product(*self, *other),
    {
        product_of(*self, *other)
    }

    /// `self / other`, `None` when `other` is zero or on overflow.
    pub fn checked_div(&self, other: &Decimal) -> (r: Option<Decimal>)
        ensures
            r == decimal_quotient(*self, *other),
            other.is_zero_spec() ==> r is None,
            self.is_zero_spec() && !other.is_zero_spec() ==> r == Some(Self::spec_zero()),
    {
        quotient_of(*self, *other)
    }

    /// `self * self`, `None` on overflow.
    pub fn checked_square(&self) -> (r: Option<Decimal>)
        ensures
            r == decimal_power(*self, 2),
    {
        power_of(*self, 2)
    }

    /// Reads a decimal from a text.
    pub fn parse(text: &str) -> (r: Option<Decimal>)
        ensures
            r == decimal_from_text(text@),
    {
        read_decimal(text)
    }

    /// Prints the decimal.
    pub fn to_text(&self) -> (r: String)
        ensures
            r@ == decimal_text(*self),
    {
        print_decimal(*self)
    }

    /// The number of digits before the decimal point; zero has none, and so
    /// has every number between -1 and 1.
    pub fn whole_digits(&self) -> (r: u32)
        ensures
            r == self.whole_digits_spec(),
            r <= 29,
    {
        proof {
            use_type_invariant(self);
            lemma_pow10_values();
        }
        let magnitude: u128 = if self.mantissa < 0 {
            (-self.mantissa) as u128
        } else {
            self.mantissa as u128
        };
        let mut power: u128 = 1;
        let mut i: u32 = 0;
        while i < self.scale
            invariant
                i <= self.scale <= 28,
                power == pow10(i as nat),
                pow10(28) == 10000000000000000000000000000,
            decreases self.scale - i,
        {
            proof {
                lemma_pow10_increases(i as nat, 27);
                lemma_pow10_increases(27, 28);
            }
            power = power * 10;
            i = i + 1;
        }
        proof {
            lemma_pow10_positive(self.scale as nat);
        }
        let mut rest: u128 = magnitude / power;
        let ghost whole = rest as nat;
        proof {
            lemma_digit_count_bound(whole, 29);
        }
        let mut count: u32 = 0;
        while rest > 0
            invariant
                count + digit_count(rest as nat) == digit_count(whole),
                digit_count(whole) <= 29,
            decreases rest,
        {
            rest = rest / 10;
            count = count + 1;
        }
        count
    }

    /// Prints the decimal with `digits` digits after the decimal point. A
    /// decimal that is too long for that, see [`Decimal::fits_fixed`], is
    /// printed as it is, with the digits that it has.
    pub fn to_text_fixed(&self, digits: u32) -> (r: String)
        ensures
            r@ == self.fixed_text_spec(digits as nat),
            self.whole_digits_spec() <= 29,
    {
        let whole = self.whole_digits();
        let shown: u32 = if digits < MAX_SCALE {
            digits
        } else {
            MAX_SCALE
        };
        if whole + shown <= 31 {
            print_decimal_fixed(*self, digits)
        } else {
            self.to_text()
        }
    }
}

/// The number of decimal digits of a number; zero has none.
pub open spec fn digit_count(n: nat) -> nat
    decreases n,
{
    if n == 0 {
        0
    } else {
        1 + digit_count(n / 10)
    }
}

impl Decimal {
    /// The magnitude of the mantissa.
    pub open spec fn spec_magnitude(self) -> nat {
        if self.spec_mantissa() < 0 {
            (-self.spec_mantissa()) as nat
        } else {
            self.spec_mantissa() as nat
        }
    }

    /// The number of digits before the decimal point.
    pub open spec fn whole_digits_spec(self) -> nat {
        digit_count((self.spec_magnitude() as int / pow10(self.spec_scale())) as nat)
    }

    /// Whether the decimal can be printed with `digits` digits after the
    /// decimal point: the text, without its sign, has room for 32
    /// characters, of which the digits before the point, the point and at
    /// most 28 digits after it must not take more.
    pub open spec fn fits_fixed(self, digits: nat) -> bool {
        self.whole_digits_spec() + (if digits < 28 {
            digits
        } else {
            28
        }) <= 31
    }

    /// The text with `digits` digits after the decimal point where that
    /// fits, else the text with the digits that the decimal has.
    pub open spec fn fixed_text_spec(self, digits: nat) -> Seq<char> {
        if self.fits_fixed(digits) {
            decimal_text_fixed(self, digits)
        } else {
            decimal_text(self)
        }
    }
}

/// The values of two powers of ten.
pub proof fn lemma_pow10_values()
    ensures
        pow10(28) == 10000000000000000000000000000,
        pow10(29) == 100000000000000000000000000000,
{
    reveal_with_fuel(pow10, 31);
}

/// A greater exponent gives a greater or equal power of ten.
pub proof fn lemma_pow10_increases(i: nat, j: nat)
    requires
        i <= j,
    ensures
        pow10(i) <= pow10(j),
        pow10(i + 1) == 10 * pow10(i),
    decreases j - i,
{
    lemma_pow10_positive(i);
    if i < j {
        lemma_pow10_increases(i + 1, j);
    }
}

/// A number below `10^k` has at most `k` digits.
pub proof fn lemma_digit_count_bound(n: nat, k: nat)
    requires
        n < pow10(k),
    ensures
        digit_count(n) <= k,
    decreases k,
{
    if n > 0 {
        if k > 0 {
            assert(n / 10 < pow10((k - 1) as nat));
            lemma_digit_count_bound(n / 10, (k - 1) as nat);
        }
    }
}

/// A decimal built from parts within range has those parts.
pub proof fn lemma_parts(mantissa: int, scale: nat)
    requires
        Decimal::representable(mantissa, scale),
    ensures
        Decimal::spec_new(mantissa, scale).spec_mantissa() == mantissa,
        Decimal::spec_new(mantissa, scale).spec_scale() == scale,
{
}

/// Of two decimals exactly one is the case: the first is less, both are the
/// same number, or the second is less.
pub proof fn law_order_is_total(a: Decimal, b: Decimal)
    ensures
        a.lt_spec(b) || a.eq_spec(b) || b.lt_spec(a),
        !(a.lt_spec(b) && b.lt_spec(a)),
        !(a.lt_spec(b) && a.eq_spec(b)),
        !(b.lt_spec(a) && a.eq_spec(b)),
        !a.lt_spec(a),
        a.le_spec(b) <==> a.lt_spec(b) || a.eq_spec(b),
{
}

/// The order of decimals is transitive.
pub proof fn law_lt_is_transitive(a: Decimal, b: Decimal, c: Decimal)
    requires
        a.lt_spec(b),
        b.lt_spec(c),
    ensures
        a.lt_spec(c),
{
    let am = a.spec_mantissa();
    let bm = b.spec_mantissa();
    let cm = c.spec_mantissa();
    let pa = pow10(a.spec_scale());
    let pb = pow10(b.spec_scale());
    let pc = pow10(c.spec_scale());
    lemma_pow10_positive(a.spec_scale());
    lemma_pow10_positive(b.spec_scale());
    lemma_pow10_positive(c.spec_scale());
    assert(am * pc < cm * pa) by (nonlinear_arith)
        requires
            am * pb < bm * pa,
            bm * pc < cm * pb,
            pa > 0,
            pb > 0,
            pc > 0,
    {
        assert(am * pb * pc < bm * pa * pc);
        assert(bm * pc * pa < cm * pb * pa);
        assert((am * pc) * pb < (cm * pa) * pb);
    }
}

/// The order of decimals is transitive where numbers may be the same.
pub proof fn law_le_is_transitive(a: Decimal, b: Decimal, c: Decimal)
    requires
        a.le_spec(b),
        b.le_spec(c),
    ensures
        a.le_spec(c),
{
    let am = a.spec_mantissa();
    let bm = b.spec_mantissa();
    let cm = c.spec_mantissa();
    let pa = pow10(a.spec_scale());
    let pb = pow10(b.spec_scale());
    let pc = pow10(c.spec_scale());
    lemma_pow10_positive(a.spec_scale());
    lemma_pow10_positive(b.spec_scale());
    lemma_pow10_positive(c.spec_scale());
    assert(am * pc <= cm * pa) by (nonlinear_arith)
        requires
            am * pb <= bm * pa,
            bm * pc <= cm * pb,
            pa > 0,
            pb > 0,
            pc > 0,
    {
        assert(am * pb * pc <= bm * pa * pc);
        assert(bm * pc * pa <= cm * pb * pa);
        assert((am * pc) * pb <= (cm * pa) * pb);
    }
}

/// Powers of ten are positive.
pub proof fn lemma_pow10_positive(n: nat)
    ensures
        pow10(n) > 0,
    decreases n,
{
    if n > 0 {
        lemma_pow10_positive((n - 1) as nat);
    }
}

/// Calls the `<` of `rust_decimal::Decimal`. The contract claims that it
/// compares the two numbers `mantissa / 10^scale` exactly.
#[verifier::external_body]
fn less_than(a: Decimal, b: Decimal) -> (r: bool)
    ensures
        r == a.lt_spec(b),
{
    let x = rust_decimal::Decimal::from_i128_with_scale(a.mantissa, a.scale);
    let y = rust_decimal::Decimal::from_i128_with_scale(b.mantissa, b.scale);
    x < y
}

/// Calls `rust_decimal::Decimal::checked_add`. The contract names the result
/// and claims that adding to zero hands back the other operand as it is.
#[verifier::external_body]
fn sum_of(a: Decimal, b: Decimal) -> (r: Option<Decimal>)
    ensures
        r == decimal_sum(a, b),
        a.is_zero_spec() ==> r == Some(b),
        b.is_zero_spec() && !a.is_zero_spec() ==> r == Some(a),
{
    let x = rust_decimal::Decimal::from_i128_with_scale(a.mantissa, a.scale);
    let y = rust_decimal::Decimal::from_i128_with_scale(b.mantissa, b.scale);
    match x.checked_add(y) {
        Some(d) => Some(Decimal { mantissa: d.mantissa(), scale: d.scale() }),
        None => None,
    }
}

/// Calls `rust_decimal::Decimal::checked_sub`. The contract names the result.
#[verifier::external_body]
fn difference_of(a: Decimal, b: Decimal) -> (r: Option<Decimal>)
    ensures
        r == decimal_difference(a, b),
{
    let x = rust_decimal::Decimal::from_i128_with_scale(a.mantissa, a.scale);
    let y = rust_decimal::Decimal::from_i128_with_scale(b.mantissa, b.scale);
    match x.checked_sub(y) {
        Some(d) => Some(Decimal { mantissa: d.mantissa(), scale: d.scale() }),
        None => None,
    }
}

/// Calls `rust_decimal::Decimal::checked_mul`. The contract names the result.
#[verifier::external_body]
fn product_of(a: Decimal, b: Decimal) -> (r: Option<Decimal>)
    ensures
        r == decimal_product(a, b),
{
    let x = rust_decimal::Decimal::from_i128_with_scale(a.mantissa, a.scale);
    let y = rust_decimal::Decimal::from_i128_with_scale(b.mantissa, b.scale);
    match x.checked_mul(y) {
        Some(d) => Some(Decimal { mantissa: d.mantissa(), scale: d.scale() }),
        None => None,
    }
}

/// Calls `rust_decimal::Decimal::checked_div`. The contract names the result
/// and claims that a zero divisor gives `None` and that zero divided by a
/// number other than zero is zero with scale 0.
#[verifier::external_body]
fn quotient_of(a: Decimal, b: Decimal) -> (r: Option<Decimal>)
    ensures
        r == decimal_quotient(a, b),
        b.is_zero_spec() ==> r is None,
        a.is_zero_spec() && !b.is_zero_spec() ==> r == Some(Decimal::spec_zero()),
{
    let x = rust_decimal::Decimal::from_i128_with_scale(a.mantissa, a.scale);
    let y = rust_decimal::Decimal::from_i128_with_scale(b.mantissa, b.scale);
    match x.checked_div(y) {
        Some(d) => Some(Decimal { mantissa: d.mantissa(), scale: d.scale() }),
        None => None,
    }
}

/// Calls `rust_decimal::MathematicalOps::checked_powi` with an exponent of at
/// most 2. The contract names the result.
#[verifier::external_body]
fn power_of(a: Decimal, exp: i64) -> (r: Option<Decimal>)
    requires
        0 <= exp <= 2,
    ensures
        r == decimal_power(a, exp as int),
{
    let x = rust_decimal::Decimal::from_i128_with_scale(a.mantissa, a.scale);
    match rust_decimal::MathematicalOps::checked_powi(&x, exp) {
        Some(d) => Some(Decimal { mantissa: d.mantissa(), scale: d.scale() }),
        None => None,
    }
}

/// Calls the `FromStr` of `rust_decimal::Decimal`. The contract names the
/// result.
#[verifier::external_body]
fn read_decimal(text: &str) -> (r: Option<Decimal>)
    ensures
        r == decimal_from_text(text@),
{
    match <rust_decimal::Decimal as std::str::FromStr>::from_str(text) {
        Ok(d) => Some(Decimal { mantissa: d.mantissa(), scale: d.scale() }),
        Err(_) => None,
    }
}

/// Calls the `Display` of `rust_decimal::Decimal` through `to_string`. The
/// contract names the result.
#[verifier::external_body]
fn print_decimal(a: Decimal) -> (r: String)
    ensures
        r@ == decimal_text(a),
{
    rust_decimal::Decimal::from_i128_with_scale(a.mantissa, a.scale).to_string()
}

/// Calls the `Display` of `rust_decimal::Decimal` with a precision. That
/// function writes the digits before the point, the point and up to 28
/// digits after it into a buffer of 32 characters and panics when they do
/// not fit; digits beyond 28 are appended as zeros afterwards. The contract
/// leaves out what does not fit and names the result.
#[verifier::external_body]
fn print_decimal_fixed(a: Decimal, digits: u32) -> (r: String)
    requires
        a.fits_fixed(digits as nat),
    ensures
        r@ == decimal_text_fixed(a, digits as nat),
{
    let x = rust_decimal::Decimal::from_i128_with_scale(a.mantissa, a.scale);
    format!("{:.prec$}", x, prec = digits as usize)
}

} // verus!
