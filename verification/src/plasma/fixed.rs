//! Signed fixed-point numbers with 80 integer bits and 48 fractional bits.
//!
//! A value is held as its raw two's-complement bits; its mathematical value is
//! `bits / 2^48`.  The arithmetic itself is done by the `fixed` crate; the
//! contracts below state what each operation does to the raw bits.
use vstd::prelude::*;
use vstd::arithmetic::div_mod::{
    lemma_div_by_multiple,
    lemma_div_denominator,
    lemma_div_multiples_vanish,
    lemma_div_multiples_vanish_quotient,
    lemma_fundamental_div_mod,
    lemma_mod_bound,
};
use std::ops::{Add, Mul, Sub};
use vstd::std_specs::ops::{AddSpec, MulSpec, SubSpec};
use vstd::std_specs::cmp::PartialEqSpec;


verus! {

/// The raw bits of the value `1`: there are 48 fractional bits.
pub open spec fn frac_unit() -> int {
    0x1_0000_0000_0000
}

/// A raw bit pattern as an integer.
pub open spec fn widen(bits: i128) -> int {
    bits as int
}

/// Whether an integer can be held as raw bits.
pub open spec fn fits_bits(x: int) -> bool {
    i128::MIN <= x <= i128::MAX
}

/// Raw bits of the product of the values with raw bits `a` and `b`: the exact
/// product has 96 fractional bits, of which the lowest 48 are dropped, which
/// rounds towards negative infinity.
pub open spec fn mul_bits(a: int, b: int) -> int {
    (a * b) / frac_unit()
}

/// Raw bits of `numerator / denominator`, rounded towards negative infinity.
pub open spec fn fraction_bits(numerator: int, denominator: int) -> int {
    (numerator * frac_unit()) / denominator
}

/// The text that the `fixed` crate writes for the value with raw bits `bits`
/// (its `Display` form, also its `Debug` form without hexadecimal flags).
pub uninterp spec fn fixed_decimal_text(bits: int) -> Seq<char>;

/// A signed fixed-point number with 48 fractional bits.
#[derive(Clone, Copy)]
pub struct I80F48 {
    inner: i128,
}

impl View for I80F48 {
    type V = int;

    /// The raw bits: the number is `self@ / 2^48`.
    closed spec fn view(&self) -> int {
        self.inner as int
    }
}

impl I80F48 {
    /// The number whose raw bits are `bits` (truncated to 128 bits).
    pub closed spec fn spec_from_bits(bits: int) -> I80F48 {
        I80F48 { inner: bits as i128 }
    }
}

/// The raw bits of a number built from raw bits in range are those bits.
pub broadcast proof fn lemma_spec_from_bits_view(bits: int)
    requires
        fits_bits(bits),
    ensures
        (#[trigger] I80F48::spec_from_bits(bits))@ == bits,
{
}

/// The raw bits of every number are in range.
pub broadcast proof fn lemma_view_fits(x: I80F48)
    ensures
        #[trigger] fits_bits(x@),
{
}

// ---------------------------------------------------------------------------
// Calls into the `fixed` crate.  Each takes and gives raw bits.
// ---------------------------------------------------------------------------

/// `fixed::types::I80F48::from_num` on a `u64`: an integer converts exactly,
/// its raw bits are the integer shifted left by the 48 fractional bits (a
/// `u64` always fits in the 80 integer bits).
#[verifier::external_body]
fn fixed_from_u64(value: u64) -> (bits: i128)
    ensures
        bits == value * frac_unit(),
{
    fixed::types::I80F48::from_num(value).to_bits()
}

/// `Div` of `fixed::types::I80F48`: the crate widens the dividend's bits by the
/// 48 fractional bits and divides by the divisor's bits, truncating towards
/// zero, which for a non-negative dividend and a positive divisor is the
/// floor.  It panics on a zero divisor and, with debug assertions, when the
/// quotient does not fit; both are left out by `requires`.
#[verifier::external_body]
fn fixed_div(lhs: i128, rhs: i128) -> (quot: i128)
    requires
        lhs >= 0,
        rhs > 0,
        (lhs * frac_unit()) / (rhs as int) <= i128::MAX,
    ensures
        quot == (lhs * frac_unit()) / (rhs as int),
{
    (fixed::types::I80F48::from_bits(lhs) / fixed::types::I80F48::from_bits(rhs)).to_bits()
}

/// `fixed::types::I80F48::floor`: clears the fractional bits, which rounds
/// towards negative infinity.  With 80 integer bits it never overflows.
#[verifier::external_body]
fn fixed_floor(bits: i128) -> (floored: i128)
    ensures
        floored == (bits as int / frac_unit()) * frac_unit(),
{
    fixed::types::I80F48::from_bits(bits).floor().to_bits()
}

/// `fixed::types::I80F48::to_num::<u64>`: drops the fractional bits (rounding
/// towards negative infinity); with debug assertions it panics when the
/// integer does not fit in a `u64`, which `requires` leaves out.
#[verifier::external_body]
fn fixed_to_u64(bits: i128) -> (value: u64)
    requires
        0 <= bits as int / frac_unit() <= u64::MAX,
    ensures
        value == bits as int / frac_unit(),
{
    fixed::types::I80F48::from_bits(bits).to_num::<u64>()
}

/// `Add` of `fixed::types::I80F48`: adds the raw bits; with debug assertions
/// it panics on overflow, which `requires` leaves out.
#[verifier::external_body]
fn fixed_add(lhs: i128, rhs: i128) -> (sum: i128)
    requires
        fits_bits(lhs + rhs),
    ensures
        sum == lhs + rhs,
{
    (fixed::types::I80F48::from_bits(lhs) + fixed::types::I80F48::from_bits(rhs)).to_bits()
}

/// `Sub` of `fixed::types::I80F48`: subtracts the raw bits; with debug
/// assertions it panics on overflow, which `requires` leaves out.
#[verifier::external_body]
fn fixed_sub(lhs: i128, rhs: i128) -> (diff: i128)
    requires
        fits_bits(lhs - rhs),
    ensures
        diff == lhs - rhs,
{
    (fixed::types::I80F48::from_bits(lhs) - fixed::types::I80F48::from_bits(rhs)).to_bits()
}

/// `Mul` of `fixed::types::I80F48`: multiplies the raw bits into 256 bits and
/// shifts right arithmetically by the 48 fractional bits (rounding towards
/// negative infinity); with debug assertions it panics when the result does
/// not fit, which `requires` leaves out.
#[verifier::external_body]
fn fixed_mul(lhs: i128, rhs: i128) -> (product: i128)
    requires
        fits_bits(mul_bits(lhs as int, rhs as int)),
    ensures
        product == mul_bits(lhs as int, rhs as int),
{
    (fixed::types::I80F48::from_bits(lhs) * fixed::types::I80F48::from_bits(rhs)).to_bits()
}

/// `PartialEq` of `fixed::types::I80F48`: two numbers with the same number of
/// fractional bits are equal when their raw bits are.
#[verifier::external_body]
fn fixed_eq(lhs: i128, rhs: i128) -> (equal: bool)
    ensures
        equal == (lhs == rhs),
{
    fixed::types::I80F48::from_bits(lhs) == fixed::types::I80F48::from_bits(rhs)
}

/// `Display` of `fixed::types::I80F48`, written with `format!`.  The text is
/// a function of the raw bits alone; what it is, is not stated here.
#[verifier::external_body]
fn fixed_display(bits: i128) -> (text: String)
    ensures
        text@ == fixed_decimal_text(bits as int),
{
    format!("{}", fixed::types::I80F48::from_bits(bits))
}

// ---------------------------------------------------------------------------
// The number type.
// ---------------------------------------------------------------------------

impl I80F48 {
    /// The number zero.
    pub fn zero() -> (z: I80F48)
        ensures
            z@ == 0,
    {
        I80F48 { inner: 0 }
    }

    /// The number equal to the integer `value`.
    pub fn from_num(value: u64) -> (x: I80F48)
        ensures
            x@ == value * frac_unit(),
    {
        I80F48 { inner: fixed_from_u64(value) }
    }

    /// `numerator / denominator`, rounded down to the nearest multiple of
    /// `2^-48`.  A zero denominator is refused by `requires`: there the
    /// division panics.
    pub fn from_fraction(numerator: u64, denominator: u64) -> (x: I80F48)
        requires
            denominator != 0,
        ensures
            x@ == fraction_bits(numerator as int, denominator as int),
    {
        let num = fixed_from_u64(numerator);
        let den = fixed_from_u64(denominator);
        proof {
            let n = numerator as int;
            let d = denominator as int;
            let u = frac_unit();
            lemma_div_multiples_vanish_quotient(u, n * u, d);
            assert((u * (n * u)) == (n * u) * u) by (nonlinear_arith);
            assert((u * d) == d * u) by (nonlinear_arith);
            assert((n * u) / d <= n * u) by (nonlinear_arith)
                requires
                    n >= 0,
                    u > 0,
                    d >= 1,
            ;
            assert(n * u <= 0xffff_ffff_ffff_ffff * u) by (nonlinear_arith)
                requires
                    0 <= n <= 0xffff_ffff_ffff_ffff,
                    u > 0,
            ;
            assert(d * u > 0) by (nonlinear_arith)
                requires
                    d >= 1,
                    u > 0,
            ;
        }
        I80F48 { inner: fixed_div(num, den) }
    }

    /// The integer part, rounded towards negative infinity, as a `u64`.
    /// `requires` leaves out the numbers whose floor is negative or above
    /// `u64::MAX`: converting those panics.
    pub fn floor(&self) -> (value: u64)
        requires
            0 <= self@,
            self@ / frac_unit() <= u64::MAX,
        ensures
            value == self@ / frac_unit(),
    {
        let floored = fixed_floor(self.inner);
        proof {
            lemma_div_by_multiple(self.inner as int / frac_unit(), frac_unit());
        }
        fixed_to_u64(floored)
    }

    /// The raw bits.
    pub fn to_bits(&self) -> (bits: i128)
        ensures
            bits == self@,
    {
        self.inner
    }

    /// The number with the given raw bits.
    pub fn from_bits(bits: i128) -> (x: I80F48)
        ensures
            x@ == bits,
    {
        I80F48 { inner: bits }
    }

    /// Adds `rhs` in place.  An overflowing sum is left out by `requires`:
    /// there the addition panics.
    pub fn add_assign(&mut self, rhs: I80F48)
        requires
            fits_bits(old(self)@ + rhs@),
        ensures
            final(self)@ == old(self)@ + rhs@,
    {
        *self = *self + rhs;
    }

    /// The decimal text of the number, as the `fixed` crate writes it.
    pub fn to_string(&self) -> (text: String)
        ensures
            text@ == fixed_decimal_text(self@),
    {
        fixed_display(self.inner)
    }
}

impl Add for I80F48 {
    type Output = I80F48;

    fn add(self, rhs: I80F48) -> (sum: I80F48) {
        I80F48 { inner: fixed_add(self.inner, rhs.inner) }
    }
}

impl vstd::std_specs::ops::AddSpecImpl for I80F48 {
    open spec fn obeys_add_spec() -> bool {
        true
    }

    open spec fn add_req(self, rhs: I80F48) -> bool {
        fits_bits(self@ + rhs@)
    }

    open spec fn add_spec(self, rhs: I80F48) -> I80F48 {
        I80F48::spec_from_bits(self@ + rhs@)
    }
}

impl Sub for I80F48 {
    type Output = I80F48;

    fn sub(self, rhs: I80F48) -> (diff: I80F48) {
        I80F48 { inner: fixed_sub(self.inner, rhs.inner) }
    }
}

impl vstd::std_specs::ops::SubSpecImpl for I80F48 {
    open spec fn obeys_sub_spec() -> bool {
        true
    }

    open spec fn sub_req(self, rhs: I80F48) -> bool {
        fits_bits(self@ - rhs@)
    }

    open spec fn sub_spec(self, rhs: I80F48) -> I80F48 {
        I80F48::spec_from_bits(self@ - rhs@)
    }
}

impl Mul for I80F48 {
    type Output = I80F48;

    fn mul(self, rhs: I80F48) -> (product: I80F48) {
        I80F48 { inner: fixed_mul(self.inner, rhs.inner) }
    }
}

impl vstd::std_specs::ops::MulSpecImpl for I80F48 {
    open spec fn obeys_mul_spec() -> bool {
        true
    }

    open spec fn mul_req(self, rhs: I80F48) -> bool {
        fits_bits(mul_bits(self@, rhs@))
    }

    open spec fn mul_spec(self, rhs: I80F48) -> I80F48 {
        I80F48::spec_from_bits(mul_bits(self@, rhs@))
    }
}

impl PartialEq for I80F48 {
    fn eq(&self, rhs: &I80F48) -> (equal: bool) {
        fixed_eq(self.inner, rhs.inner)
    }
}

impl vstd::std_specs::cmp::PartialEqSpecImpl for I80F48 {
    open spec fn obeys_eq_spec() -> bool {
        true
    }

    open spec fn eq_spec(&self, rhs: &I80F48) -> bool {
        self@ == rhs@
    }
}

// ---------------------------------------------------------------------------
// Laws.
// ---------------------------------------------------------------------------

/// `from_bits(x.to_bits())` is `x`.
pub proof fn law_bits_round_trip(x: I80F48)
    ensures
        I80F48::spec_from_bits(x@) == x,
{
}

/// The floor of `from_num(v)` is `v`.
pub proof fn law_floor_of_from_num(value: u64)
    ensures
        (value * frac_unit()) / frac_unit() == value,
{
    lemma_div_by_multiple(value as int, frac_unit());
}

/// The floor of `from_fraction(n, d)` is the integer quotient `n / d`.
pub proof fn law_floor_of_fraction(numerator: u64, denominator: u64)
    requires
        denominator != 0,
    ensures
        fraction_bits(numerator as int, denominator as int) / frac_unit()
            == numerator / denominator,
{
    let n = numerator as int;
    let d = denominator as int;
    let u = frac_unit();
    lemma_div_denominator(n * u, d, u);
    lemma_div_multiples_vanish_quotient(u, n, d);
    assert(u * n == n * u) by (nonlinear_arith);
    assert(u * d == d * u) by (nonlinear_arith);
}

/// A fraction with denominator one is the integer itself.
pub proof fn law_fraction_over_one(numerator: u64)
    ensures
        fraction_bits(numerator as int, 1) == numerator * frac_unit(),
{
}

/// Subtracting what was added gives back the first operand.
pub proof fn law_add_then_sub(a: I80F48, b: I80F48)
    requires
        fits_bits(a@ + b@),
    ensures
        a.add_spec(b).sub_spec(b) == a,
{
    broadcast use lemma_spec_from_bits_view;
    assert(a.add_spec(b)@ == a@ + b@);
}

/// Addition does not depend on the order of its operands.
pub proof fn law_add_commutes(a: I80F48, b: I80F48)
    ensures
        a.add_spec(b) == b.add_spec(a),
{
    assert(a@ + b@ == b@ + a@);
}

/// Multiplying by `from_num(1)` gives back the number.
pub proof fn law_mul_by_one(a: I80F48, one: I80F48)
    requires
        one@ == 1 * frac_unit(),
    ensures
        fits_bits(mul_bits(a@, one@)),
        a.mul_spec(one) == a,
{
    lemma_div_multiples_vanish(a@, frac_unit());
    assert(a@ * one@ == frac_unit() * a@) by (nonlinear_arith)
        requires
            one@ == 1 * frac_unit(),
    ;
    broadcast use lemma_spec_from_bits_view, lemma_view_fits;
    assert(a.mul_spec(one)@ == a@);
    law_bits_round_trip(a);
}

/// Integers add as fixed-point numbers: `from_num(a) + from_num(b)` does not
/// overflow and is `from_num(a + b)`.
pub proof fn law_from_num_adds(a: u64, b: u64)
    ensures
        I80F48::spec_from_bits(a * frac_unit()).add_req(I80F48::spec_from_bits(b * frac_unit())),
        I80F48::spec_from_bits(a * frac_unit()).add_spec(I80F48::spec_from_bits(b * frac_unit()))@
            == (a + b) * frac_unit(),
{
    broadcast use lemma_spec_from_bits_view;
    assert(a * frac_unit() + b * frac_unit() == (a + b) * frac_unit()) by (nonlinear_arith);
    assert((a + b) * frac_unit() <= 0x2_0000_0000_0000_0000 * frac_unit()) by (nonlinear_arith)
        requires
            0 <= a + b <= 0x2_0000_0000_0000_0000,
            frac_unit() > 0,
    ;
    assert(a * frac_unit() <= 0x1_0000_0000_0000_0000 * frac_unit()) by (nonlinear_arith)
        requires
            0 <= a <= 0x1_0000_0000_0000_0000,
            frac_unit() > 0,
    ;
    assert(b * frac_unit() <= 0x1_0000_0000_0000_0000 * frac_unit()) by (nonlinear_arith)
        requires
            0 <= b <= 0x1_0000_0000_0000_0000,
            frac_unit() > 0,
    ;
    assert(0 <= a * frac_unit()) by (nonlinear_arith)
        requires
            0 <= a,
            frac_unit() > 0,
    ;
    assert(0 <= b * frac_unit()) by (nonlinear_arith)
        requires
            0 <= b,
            frac_unit() > 0,
    ;
}

/// Two numbers are `==` exactly when their raw bits are the same.
pub proof fn law_eq_is_bits_equality(a: I80F48, b: I80F48)
    ensures
        a.eq_spec(&b) == (a@ == b@),
        a.eq_spec(&b) == (a == b),
{
    if a@ == b@ {
        law_bits_round_trip(a);
        law_bits_round_trip(b);
    }
}

/// The sum and difference of two numbers are the sum and difference of their
/// raw bits, when those fit.
pub proof fn law_add_sub_are_bit_arithmetic(a: I80F48, b: I80F48)
    ensures
        fits_bits(a@ + b@) ==> a.add_spec(b)@ == a@ + b@,
        fits_bits(a@ - b@) ==> a.sub_spec(b)@ == a@ - b@,
{
    broadcast use lemma_spec_from_bits_view;
}

/// Multiplying by the integer `n` (as `from_num(n)`) multiplies the raw bits
/// by `n` exactly, and multiplication does not depend on the order of its
/// operands.
pub proof fn law_mul_by_integer(a: I80F48, n: u64, x: I80F48)
    requires
        x@ == n * frac_unit(),
        fits_bits(a@ * n),
    ensures
        a.mul_req(x),
        a.mul_spec(x)@ == a@ * n,
        a.mul_spec(x) == x.mul_spec(a),
{
    broadcast use lemma_spec_from_bits_view;
    assert(a@ * x@ == frac_unit() * (a@ * n)) by (nonlinear_arith)
        requires
            x@ == n * frac_unit(),
    ;
    assert(x@ * a@ == a@ * x@) by (nonlinear_arith);
    lemma_div_multiples_vanish(a@ * n, frac_unit());
}

/// `from_fraction(n, d)` is the largest number with 48 fractional bits that is
/// at most `n / d`: its raw bits `q` satisfy `q * d <= n * 2^48 < (q + 1) * d`.
pub proof fn law_fraction_is_rounded_down(numerator: u64, denominator: u64)
    requires
        denominator != 0,
    ensures
        fraction_bits(numerator as int, denominator as int) * denominator <= numerator
            * frac_unit(),
        numerator * frac_unit() < (fraction_bits(numerator as int, denominator as int) + 1)
            * denominator,
{
    let n = numerator * frac_unit();
    let d = denominator as int;
    lemma_fundamental_div_mod(n, d);
    lemma_mod_bound(n, d);
    let q = n / d;
    assert(q * d == d * q) by (nonlinear_arith);
    assert((q + 1) * d == d * q + d) by (nonlinear_arith);
}

} // verus!
