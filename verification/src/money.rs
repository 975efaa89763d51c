//! Decimal amounts.
//!
//! A `Dec` is `mantissa / 10^scale` with a mantissa of at most 96 bits and a scale of
//! at most 28, the domain of `rust_decimal::Decimal`, in which the billing store keeps
//! its amounts. Its value is modelled as an integer counted in units of `10^-28`
//! (`Dec::val`). Addition, multiplication and division are those of `rust_decimal`;
//! where their exact result is representable it is stated here. Comparison, rounding
//! and printing are stated and proved here.
use vstd::prelude::*;
use vstd::arithmetic::div_mod::*;
use vstd::arithmetic::mul::*;
use crate::text::{digits_u128, extend_chars, nat_digits, padded_digits, padded_digits_u128, string_of};

verus! {

/// Largest mantissa magnitude (2^96 - 1).
pub const MAX_MANTISSA: i128 = 79228162514264337593543950335;

/// Largest number of fractional digits.
pub const MAX_SCALE: u32 = 28;

pub open spec fn pow10(n: nat) -> nat
    decreases n,
{
    if n == 0 {
        1
    } else {
        10 * pow10((n - 1) as nat)
    }
}

pub proof fn lemma_pow10_pos(n: nat)
    ensures
        pow10(n) >= 1,
    decreases n,
{
    if n > 0 {
        lemma_pow10_pos((n - 1) as nat);
    }
}

pub proof fn lemma_pow10_add(a: nat, b: nat)
    ensures
        pow10(a + b) == pow10(a) * pow10(b),
    decreases a,
{
    if a > 0 {
        let a1 = (a - 1) as nat;
        lemma_pow10_add(a1, b);
        assert((a1 + b) as nat == (a + b - 1) as nat);
        assert(pow10(a + b) == 10 * pow10((a1 + b) as nat));
        assert(pow10(a) == 10 * pow10(a1));
        let x = pow10(a1) as int;
        let y = pow10(b) as int;
        assert(10 * (x * y) == (10 * x) * y) by (nonlinear_arith);
        assert(pow10(a + b) == pow10(a) * pow10(b));
    } else {
        assert(pow10(a) == 1);
        assert(a + b == b);
        let y = pow10(b) as int;
        assert(1 * y == y) by (nonlinear_arith);
    }
}

pub proof fn lemma_pow10_mono(a: nat, b: nat)
    requires
        a <= b,
    ensures
        pow10(a) <= pow10(b),
    decreases b,
{
    if a < b {
        lemma_pow10_mono(a, (b - 1) as nat);
    }
}

proof fn lemma_pow10_values()
    ensures
        pow10(28) == 10000000000000000000000000000,
        pow10(38) == 100000000000000000000000000000000000000,
{
    reveal_with_fuel(pow10, 40);
}

/// `10^n` for `n <= 38`.
pub fn pow10_u128(n: u32) -> (r: u128)
    requires
        n <= 38,
    ensures
        r == pow10(n as nat),
{
    let mut r: u128 = 1;
    let mut i: u32 = 0;
    while i < n
        invariant
            i <= n <= 38,
            r == pow10(i as nat),
        decreases n - i,
    {
        proof {
            lemma_pow10_mono((i + 1) as nat, 38);
            lemma_pow10_values();
        }
        r = r * 10;
        i = i + 1;
    }
    r
}

/// `10^n` for `n <= 28`, as a signed value.
pub fn pow10_i128(n: u32) -> (r: i128)
    requires
        n <= 28,
    ensures
        r == pow10(n as nat),
        r >= 1,
{
    proof {
        lemma_pow10_mono(n as nat, 28);
        lemma_pow10_values();
        lemma_pow10_pos(n as nat);
    }
    let p = pow10_u128(n);
    p as i128
}

pub open spec fn fits(x: int) -> bool {
    -MAX_MANTISSA <= x <= MAX_MANTISSA
}

pub open spec fn abs_int(x: int) -> int {
    if x < 0 {
        -x
    } else {
        x
    }
}

/// A decimal `mantissa / 10^scale`.
#[derive(Clone, Copy, Debug)]
pub struct Dec {
    pub mantissa: i128,
    pub scale: u32,
}

/// The whole number `n` as a decimal of scale zero.
pub open spec fn int_dec(n: int) -> Dec {
    Dec { mantissa: n as i128, scale: 0 }
}

pub open spec fn max_u32(a: u32, b: u32) -> u32 {
    if a >= b {
        a
    } else {
        b
    }
}

/// The mantissa of `d` written at scale `s >= d.scale`.
pub open spec fn rescaled(d: Dec, s: u32) -> int {
    d.mantissa * pow10((s - d.scale) as nat)
}

/// The exact sum, when it is representable: a zero operand gives back the other operand,
/// otherwise the sum at the larger scale, when it fits in 96 bits.
pub open spec fn exact_add(a: Dec, b: Dec) -> Option<Dec> {
    if a.mantissa == 0 {
        Some(b)
    } else if b.mantissa == 0 {
        Some(a)
    } else {
        let s = max_u32(a.scale, b.scale);
        let m = rescaled(a, s) + rescaled(b, s);
        if fits(rescaled(a, s)) && fits(rescaled(b, s)) && fits(m) {
            Some(Dec { mantissa: m as i128, scale: s })
        } else {
            None
        }
    }
}

/// The sum that `rust_decimal::Decimal::checked_add` yields for two decimals (with its
/// own rounding where the exact sum is not representable).
pub uninterp spec fn decimal_sum(a: Dec, b: Dec) -> Option<Dec>;

/// The sum that decimal addition yields.
pub open spec fn spec_add(a: Dec, b: Dec) -> Option<Dec> {
    decimal_sum(a, b)
}

/// `rust_decimal::Decimal::checked_add`. Trusted: the result is the named sum; it is a
/// valid decimal; and where the exact sum is representable it is that sum (the crate's
/// `add_sub_internal` gives back the other operand for a zero operand and adds at the
/// larger scale, rounding only when the sum exceeds 96 bits).
#[verifier::external_body]
fn library_add(a: &Dec, b: &Dec) -> (r: Option<Dec>)
    requires
        a.wf(),
        b.wf(),
    ensures
        r == decimal_sum(*a, *b),
        r matches Some(q) ==> q.wf(),
        exact_add(*a, *b) matches Some(x) ==> r == Some(x),
{
    let x = rust_decimal::Decimal::from_i128_with_scale(a.mantissa, a.scale);
    let y = rust_decimal::Decimal::from_i128_with_scale(b.mantissa, b.scale);
    match x.checked_add(y) {
        Some(q) => Some(Dec { mantissa: q.mantissa(), scale: q.scale() }),
        None => None,
    }
}

pub open spec fn spec_neg(a: Dec) -> Dec {
    Dec { mantissa: (-a.mantissa) as i128, scale: a.scale }
}

pub open spec fn spec_sub(a: Dec, b: Dec) -> Option<Dec> {
    spec_add(a, spec_neg(b))
}

/// The exact difference, when it is representable.
pub open spec fn exact_sub(a: Dec, b: Dec) -> Option<Dec> {
    exact_add(a, spec_neg(b))
}

/// The exact product at the summed scale, when that is representable: zero when an
/// operand is zero, otherwise the product of the mantissas at the summed scale when the
/// scale is at most 28 and the mantissa fits in 96 bits.
pub open spec fn exact_mul(a: Dec, b: Dec) -> Option<Dec> {
    if a.mantissa == 0 || b.mantissa == 0 {
        Some(Dec { mantissa: 0, scale: 0 })
    } else {
        let s = a.scale + b.scale;
        let m = a.mantissa * b.mantissa;
        if s <= MAX_SCALE && fits(m) {
            Some(Dec { mantissa: m as i128, scale: s as u32 })
        } else {
            None
        }
    }
}

/// The product that `rust_decimal::Decimal::checked_mul` yields for two decimals (with
/// its own rounding where the exact product is not representable).
pub uninterp spec fn decimal_product(a: Dec, b: Dec) -> Option<Dec>;

/// The product that decimal multiplication yields.
pub open spec fn spec_mul(a: Dec, b: Dec) -> Option<Dec> {
    decimal_product(a, b)
}

/// `rust_decimal::Decimal::checked_mul`. Trusted: the result is the named product; it
/// is a valid decimal; and where the exact product is representable it is that product
/// (the crate's `mul_impl` returns zero for a zero operand and rescales only when the
/// scale exceeds 28 or the product exceeds 96 bits).
#[verifier::external_body]
fn library_mul(a: &Dec, b: &Dec) -> (r: Option<Dec>)
    requires
        a.wf(),
        b.wf(),
    ensures
        r == decimal_product(*a, *b),
        r matches Some(q) ==> q.wf(),
        exact_mul(*a, *b) matches Some(x) ==> r == Some(x),
{
    let x = rust_decimal::Decimal::from_i128_with_scale(a.mantissa, a.scale);
    let y = rust_decimal::Decimal::from_i128_with_scale(b.mantissa, b.scale);
    match x.checked_mul(y) {
        Some(q) => Some(Dec { mantissa: q.mantissa(), scale: q.scale() }),
        None => None,
    }
}

/// The exact product's value is the product of the values (counted in `10^-28`).
pub proof fn lemma_exact_mul_val(a: Dec, b: Dec)
    requires
        a.wf(),
        b.wf(),
    ensures
        exact_mul(a, b) matches Some(x) ==> x.wf() && x.val() * pow10(28) == a.val() * b.val(),
{
    lemma_val_sign(a);
    lemma_val_sign(b);
    if a.mantissa == 0 || b.mantissa == 0 {
        let z = Dec { mantissa: 0, scale: 0 };
        let p = pow10((MAX_SCALE - z.scale) as nat) as int;
        assert(0 * p == 0) by (nonlinear_arith);
        assert(z.val() == 0);
        assert(a.val() * b.val() == 0) by (nonlinear_arith)
            requires
                a.val() == 0 || b.val() == 0,
        ;
    } else {
        let s = a.scale + b.scale;
        let m = a.mantissa * b.mantissa;
        if s <= MAX_SCALE && fits(m) {
            lemma_mul_val(a, b, m, s as nat);
        }
    }
}

/// Rounding of `n / p` to the nearest integer, ties to the even neighbour.
pub open spec fn round_half_even(n: nat, p: nat) -> nat
    recommends
        p > 0,
{
    let q = n / p;
    let r = n % p;
    if 2 * r > p || (2 * r == p && q % 2 == 1) {
        (q + 1) as nat
    } else {
        q
    }
}

/// Rounding to `dp` fractional digits, midpoints to even: a decimal with at most `dp`
/// digits comes back unchanged, otherwise the magnitude is rounded at scale `dp`.
pub open spec fn spec_round_dp(a: Dec, dp: u32) -> Dec {
    if a.scale <= dp {
        a
    } else {
        let p = pow10((a.scale - dp) as nat);
        let q = round_half_even(abs_int(a.mantissa as int) as nat, p);
        Dec { mantissa: (if a.mantissa < 0 { -q } else { q as int }) as i128, scale: dp }
    }
}

/// Rounding of a value counted in units of `10^-28` to `dp` fractional digits.
pub open spec fn round_value(v: int, dp: nat) -> int
    recommends
        dp <= 28,
{
    let p = pow10((28 - dp) as nat);
    if v < 0 {
        -(round_half_even((-v) as nat, p) * p)
    } else {
        (round_half_even(v as nat, p) * p) as int
    }
}

impl Dec {
    /// Well formed: inside the 96-bit, 28-digit domain.
    pub open spec fn wf(self) -> bool {
        self.scale <= MAX_SCALE && fits(self.mantissa as int)
    }

    /// The value, counted in units of `10^-28`.
    pub open spec fn val(self) -> int {
        self.mantissa * pow10((MAX_SCALE - self.scale) as nat)
    }

    /// `mantissa / 10^scale`.
    pub fn new(mantissa: i64, scale: u32) -> (r: Dec)
        requires
            scale <= MAX_SCALE,
        ensures
            r.wf(),
            r.mantissa == mantissa,
            r.scale == scale,
    {
        Dec { mantissa: mantissa as i128, scale }
    }

    /// The integer `n`.
    pub fn from_int(n: i64) -> (r: Dec)
        ensures
            r.wf(),
            r.mantissa == n,
            r.scale == 0,
            r.val() == n * pow10(28),
    {
        Dec { mantissa: n as i128, scale: 0 }
    }

    pub fn zero() -> (r: Dec)
        ensures
            r.wf(),
            r.mantissa == 0,
            r.scale == 0,
            r.val() == 0,
    {
        Dec { mantissa: 0, scale: 0 }
    }

    /// A decimal from its parts, when they lie in the domain.
    pub fn from_parts(mantissa: i128, scale: u32) -> (r: Option<Dec>)
        ensures
            r is Some <==> (scale <= MAX_SCALE && fits(mantissa as int)),
            r matches Some(d) ==> d.mantissa == mantissa && d.scale == scale,
    {
        if scale <= MAX_SCALE && -MAX_MANTISSA <= mantissa && mantissa <= MAX_MANTISSA {
            Some(Dec { mantissa, scale })
        } else {
            None
        }
    }

    /// Whether the mantissa fits in 96 bits and the scale is at most 28 (always so for
    /// values read from storage).
    pub fn is_valid(&self) -> (r: bool)
        ensures
            r == self.wf(),
    {
        self.scale <= MAX_SCALE && -MAX_MANTISSA <= self.mantissa && self.mantissa <= MAX_MANTISSA
    }

    pub fn is_zero(&self) -> (r: bool)
        requires
            self.wf(),
        ensures
            r == (self.val() == 0),
            r == (self.mantissa == 0),
    {
        proof {
            lemma_pow10_pos((MAX_SCALE - self.scale) as nat);
            lemma_mul_nonzero(self.mantissa as int, pow10((MAX_SCALE - self.scale) as nat) as int);
        }
        self.mantissa == 0
    }

    pub fn is_positive(&self) -> (r: bool)
        requires
            self.wf(),
        ensures
            r == (self.val() > 0),
            r == (self.mantissa > 0),
    {
        proof {
            lemma_val_sign(*self);
        }
        self.mantissa > 0
    }

    pub fn is_negative(&self) -> (r: bool)
        requires
            self.wf(),
        ensures
            r == (self.val() < 0),
            r == (self.mantissa < 0),
    {
        proof {
            lemma_val_sign(*self);
        }
        self.mantissa < 0
    }

    pub fn neg(&self) -> (r: Dec)
        requires
            self.wf(),
        ensures
            r == spec_neg(*self),
            r.wf(),
            r.val() == -self.val(),
    {
        proof {
            lemma_mul_unary_negation(self.mantissa as int, pow10((MAX_SCALE - self.scale) as nat) as int);
        }
        Dec { mantissa: -self.mantissa, scale: self.scale }
    }
}


/// `val` read at a larger scale: `d.val() == rescaled(d, s) * 10^(28 - s)`.
pub proof fn lemma_rescaled_val(d: Dec, s: u32)
    requires
        d.scale <= s <= MAX_SCALE,
    ensures
        d.val() == rescaled(d, s) * pow10((MAX_SCALE - s) as nat),
{
    let k = (s - d.scale) as nat;
    let t = (MAX_SCALE - s) as nat;
    lemma_pow10_add(k, t);
    assert((k + t) as nat == (MAX_SCALE - d.scale) as nat);
    lemma_mul_is_associative(d.mantissa as int, pow10(k) as int, pow10(t) as int);
}

pub proof fn lemma_mul_order(x: int, y: int, p: int)
    requires
        p >= 1,
    ensures
        x < y <==> x * p < y * p,
        x == y <==> x * p == y * p,
{
    assert(x < y ==> x * p < y * p) by (nonlinear_arith)
        requires
            p >= 1,
    ;
    assert(x * p < y * p ==> x < y) by (nonlinear_arith)
        requires
            p >= 1,
    ;
    assert(x * p == y * p ==> x == y) by (nonlinear_arith)
        requires
            p >= 1,
    ;
}

/// At its own scale a decimal's rescaled mantissa is its mantissa.
proof fn lemma_rescaled_own(d: Dec)
    ensures
        rescaled(d, d.scale) == d.mantissa,
{
    assert(pow10(0) == 1);
    assert((d.scale - d.scale) as nat == 0);
    let m = d.mantissa as int;
    let p = pow10((d.scale - d.scale) as nat) as int;
    assert(m * p == m) by (nonlinear_arith)
        requires
            p == 1,
    ;
}

/// Two decimals compare as their mantissas written at a common scale.
proof fn lemma_order_rescaled(a: Dec, b: Dec, s: u32)
    requires
        a.wf(),
        b.wf(),
        s == max_u32(a.scale, b.scale),
    ensures
        a.val() < b.val() <==> rescaled(a, s) < rescaled(b, s),
        a.val() == b.val() <==> rescaled(a, s) == rescaled(b, s),
{
    lemma_rescaled_val(a, s);
    lemma_rescaled_val(b, s);
    let p = pow10((MAX_SCALE - s) as nat) as int;
    lemma_pow10_pos((MAX_SCALE - s) as nat);
    lemma_mul_order(rescaled(a, s), rescaled(b, s), p);
}

/// The exact sum's value is the sum of the values.
pub proof fn lemma_add_val(a: Dec, b: Dec)
    requires
        a.wf(),
        b.wf(),
    ensures
        exact_add(a, b) matches Some(c) ==> c.wf() && c.val() == a.val() + b.val(),
{
    lemma_val_sign(a);
    lemma_val_sign(b);
    if a.mantissa != 0 && b.mantissa != 0 {
        let s = max_u32(a.scale, b.scale);
        lemma_rescaled_val(a, s);
        lemma_rescaled_val(b, s);
        let p = pow10((MAX_SCALE - s) as nat) as int;
        let x = rescaled(a, s);
        let y = rescaled(b, s);
        lemma_mul_is_distributive_add(p, x, y);
        lemma_mul_is_commutative(p, x);
        lemma_mul_is_commutative(p, y);
        lemma_mul_is_commutative(p, x + y);
    }
}

/// Negation negates the value.
pub proof fn lemma_neg_val(a: Dec)
    requires
        a.wf(),
    ensures
        spec_neg(a).wf(),
        spec_neg(a).val() == -a.val(),
{
    let p = pow10((MAX_SCALE - a.scale) as nat) as int;
    lemma_mul_unary_negation(a.mantissa as int, p);
}

/// The exact difference's value is the difference of the values.
pub proof fn lemma_sub_val(a: Dec, b: Dec)
    requires
        a.wf(),
        b.wf(),
    ensures
        exact_sub(a, b) matches Some(c) ==> c.wf() && c.val() == a.val() - b.val(),
{
    lemma_neg_val(b);
    lemma_add_val(a, spec_neg(b));
}

/// `m * 10^k` when it fits in 96 bits.
fn rescale_mantissa(m: i128, k: u32) -> (r: Option<i128>)
    requires
        fits(m as int),
        k <= MAX_SCALE,
    ensures
        r is Some <==> fits(m * pow10(k as nat)),
        r matches Some(x) ==> x == m * pow10(k as nat),
{
    let p = pow10_i128(k);
    match m.checked_mul(p) {
        None => None,
        Some(x) => {
            if -MAX_MANTISSA <= x && x <= MAX_MANTISSA {
                Some(x)
            } else {
                None
            }
        },
    }
}

impl Dec {
    /// Decimal addition; `None` where even the rounded sum leaves the domain.
    pub fn checked_add(&self, other: &Dec) -> (r: Option<Dec>)
        requires
            self.wf(),
            other.wf(),
        ensures
            r == spec_add(*self, *other),
            r matches Some(c) ==> c.wf(),
            exact_add(*self, *other) matches Some(x) ==> r == Some(x) && x.wf() && x.val()
                == self.val() + other.val(),
    {
        proof {
            lemma_add_val(*self, *other);
        }
        library_add(self, other)
    }

    /// Decimal subtraction: the sum with the negated operand.
    pub fn checked_sub(&self, other: &Dec) -> (r: Option<Dec>)
        requires
            self.wf(),
            other.wf(),
        ensures
            r == spec_sub(*self, *other),
            r matches Some(c) ==> c.wf(),
            exact_sub(*self, *other) matches Some(x) ==> r == Some(x) && x.wf() && x.val()
                == self.val() - other.val(),
    {
        proof {
            lemma_sub_val(*self, *other);
        }
        let n = other.neg();
        self.checked_add(&n)
    }

    /// The sign of `self - other`: -1, 0 or 1.
    pub fn compare(&self, other: &Dec) -> (r: i8)
        requires
            self.wf(),
            other.wf(),
        ensures
            r == -1 <==> self.val() < other.val(),
            r == 0 <==> self.val() == other.val(),
            r == 1 <==> self.val() > other.val(),
    {
        let s = if self.scale >= other.scale { self.scale } else { other.scale };
        proof {
            lemma_order_rescaled(*self, *other, s);
        }
        let ra = rescale_mantissa(self.mantissa, s - self.scale);
        let rb = rescale_mantissa(other.mantissa, s - other.scale);
        match (ra, rb) {
            (Some(x), Some(y)) => {
                if x < y {
                    -1
                } else if x == y {
                    0
                } else {
                    1
                }
            },
            (None, _) => {
                proof {
                    lemma_rescaled_own(*self);
                    lemma_rescaled_own(*other);
                    lemma_pow10_pos((s - self.scale) as nat);
                    lemma_sign_mul(self.mantissa as int, pow10((s - self.scale) as nat) as int);
                }
                if self.mantissa < 0 {
                    -1
                } else {
                    1
                }
            },
            (Some(_), None) => {
                proof {
                    lemma_rescaled_own(*self);
                    lemma_rescaled_own(*other);
                    lemma_pow10_pos((s - other.scale) as nat);
                    lemma_sign_mul(other.mantissa as int, pow10((s - other.scale) as nat) as int);
                }
                if other.mantissa < 0 {
                    1
                } else {
                    -1
                }
            },
        }
    }

    /// `self < other` by value.
    pub fn lt(&self, other: &Dec) -> (r: bool)
        requires
            self.wf(),
            other.wf(),
        ensures
            r == (self.val() < other.val()),
    {
        self.compare(other) == -1
    }

    /// `self <= other` by value.
    pub fn le(&self, other: &Dec) -> (r: bool)
        requires
            self.wf(),
            other.wf(),
        ensures
            r == (self.val() <= other.val()),
    {
        self.compare(other) != 1
    }

    /// Equality by value (`2.50 == 2.5`).
    pub fn eq_value(&self, other: &Dec) -> (r: bool)
        requires
            self.wf(),
            other.wf(),
        ensures
            r == (self.val() == other.val()),
    {
        self.compare(other) == 0
    }

    /// The smaller of the two by value; the first where they are equal.
    pub fn min(&self, other: &Dec) -> (r: Dec)
        requires
            self.wf(),
            other.wf(),
        ensures
            r == (if other.val() < self.val() { *other } else { *self }),
    {
        if other.lt(self) {
            *other
        } else {
            *self
        }
    }

    /// The larger of the two by value; the second where they are equal.
    pub fn max(&self, other: &Dec) -> (r: Dec)
        requires
            self.wf(),
            other.wf(),
        ensures
            r == (if other.val() < self.val() { *self } else { *other }),
    {
        if other.lt(self) {
            *self
        } else {
            *other
        }
    }

    pub fn abs(&self) -> (r: Dec)
        requires
            self.wf(),
        ensures
            r.wf(),
            r.scale == self.scale,
            r.val() == abs_int(self.val()),
    {
        if self.mantissa < 0 {
            proof {
                lemma_val_sign(*self);
            }
            self.neg()
        } else {
            proof {
                lemma_val_sign(*self);
            }
            *self
        }
    }
}


proof fn lemma_mul_val(a: Dec, b: Dec, m: int, s: nat)
    requires
        a.wf(),
        b.wf(),
        s == a.scale + b.scale,
        s <= 28,
        m == a.mantissa * b.mantissa,
    ensures
        (m * pow10((28 - s) as nat)) * pow10(28) == a.val() * b.val(),
{
    let pa = pow10((28 - a.scale) as nat) as int;
    let pb = pow10((28 - b.scale) as nat) as int;
    let pc = pow10((28 - s) as nat) as int;
    let p28 = pow10(28) as int;
    lemma_pow10_add((28 - a.scale) as nat, (28 - b.scale) as nat);
    lemma_pow10_add((28 - s) as nat, 28);
    assert(((28 - a.scale) + (28 - b.scale)) as nat == ((28 - s) + 28) as nat);
    assert(pa * pb == pc * p28);
    let x = a.mantissa as int;
    let y = b.mantissa as int;
    assert((x * y * pc) * p28 == (x * pa) * (y * pb)) by (nonlinear_arith)
        requires
            pa * pb == pc * p28,
    ;
}

/// Rounding half to even is unchanged when numerator and denominator are scaled alike.
pub proof fn lemma_round_half_even_scale(n: nat, p: nat, c: nat)
    requires
        p > 0,
        c > 0,
    ensures
        round_half_even(n * c, p * c) == round_half_even(n, p),
{
    let q = n / p;
    let r = n % p;
    lemma_fundamental_div_mod(n as int, p as int);
    assert(n * c == q * (p * c) + r * c) by (nonlinear_arith)
        requires
            n == p * q + r,
    ;
    assert(0 <= r * c < p * c) by (nonlinear_arith)
        requires
            0 <= r < p,
            c > 0,
    ;
    lemma_fundamental_div_mod_converse((n * c) as int, (p * c) as int, q as int, (r * c) as int);
    assert(2 * (r * c) > p * c <==> 2 * r > p) by (nonlinear_arith)
        requires
            c > 0,
    ;
    assert(2 * (r * c) == p * c <==> 2 * r == p) by (nonlinear_arith)
        requires
            c > 0,
    ;
}

/// A multiple of `p` rounds to itself.
proof fn lemma_round_half_even_exact(k: nat, p: nat)
    requires
        p > 0,
    ensures
        round_half_even(k * p, p) == k,
{
    lemma_fundamental_div_mod_converse((k * p) as int, p as int, k as int, 0);
}

impl Dec {
    /// Decimal multiplication; `None` where even the rounded product leaves the domain.
    pub fn checked_mul(&self, other: &Dec) -> (r: Option<Dec>)
        requires
            self.wf(),
            other.wf(),
        ensures
            r == spec_mul(*self, *other),
            r matches Some(c) ==> c.wf(),
            exact_mul(*self, *other) matches Some(x) ==> r == Some(x) && x.val() * pow10(28)
                == self.val() * other.val(),
    {
        proof {
            lemma_exact_mul_val(*self, *other);
        }
        library_mul(self, other)
    }

    /// Rounding to `dp` fractional digits, midpoints to the even neighbour.
    pub fn round_dp(&self, dp: u32) -> (r: Dec)
        requires
            self.wf(),
            dp <= MAX_SCALE,
        ensures
            r == spec_round_dp(*self, dp),
            r.wf(),
            r.val() == round_value(self.val(), dp as nat),
    {
        let ghost pd = pow10((28 - dp) as nat);
        proof {
            lemma_pow10_pos((28 - dp) as nat);
        }
        if self.scale <= dp {
            proof {
                let k = (dp - self.scale) as nat;
                let t = (28 - dp) as nat;
                lemma_pow10_add(k, t);
                assert((k + t) as nat == (28 - self.scale) as nat);
                let mag = abs_int(self.mantissa as int);
                lemma_pow10_pos(k);
                assert(mag * pow10(k) >= 0) by (nonlinear_arith)
                    requires
                        mag >= 0,
                ;
                let kk = (mag * pow10(k)) as nat;
                lemma_round_half_even_exact(kk, pd);
                assert(abs_int(self.val()) == kk * pd) by (nonlinear_arith)
                    requires
                        self.val() == self.mantissa * (pow10(k) * pow10(t)),
                        mag == abs_int(self.mantissa as int),
                        kk == mag * pow10(k),
                        pd == pow10(t),
                ;
            }
            return *self;
        }
        let k = self.scale - dp;
        let p = pow10_u128(k);
        let mag: u128 = if self.mantissa < 0 { (-self.mantissa) as u128 } else { self.mantissa as u128 };
        proof {
            lemma_pow10_pos(k as nat);
        }
        let q = mag / p;
        let rem = mag % p;
        proof {
            lemma_pow10_values();
            lemma_pow10_mono(k as nat, 28);
            lemma_pow10_mono(1, k as nat);
            reveal_with_fuel(pow10, 2);
            assert(pow10(1) == 10);
            lemma_div_is_ordered_by_denominator(mag as int, 10, p as int);
            lemma_div_pos_is_pos(mag as int, 10);
        }
        let q2: u128 = if 2 * rem > p || (2 * rem == p && q % 2 == 1) { q + 1 } else { q };
        let m: i128 = if self.mantissa < 0 { -(q2 as i128) } else { q2 as i128 };
        let r = Dec { mantissa: m, scale: dp };
        proof {
            assert(q2 == round_half_even(mag as nat, p as nat));
            let c = pow10((28 - self.scale) as nat);
            lemma_pow10_pos((28 - self.scale) as nat);
            lemma_pow10_add(k as nat, (28 - self.scale) as nat);
            assert((k + (28 - self.scale)) as nat == (28 - dp) as nat);
            lemma_round_half_even_scale(mag as nat, p as nat, c);
            assert(abs_int(self.val()) == mag * c) by (nonlinear_arith)
                requires
                    self.val() == self.mantissa * c,
                    mag == abs_int(self.mantissa as int),
            ;
            assert(pd == p * c);
            if self.mantissa < 0 {
                lemma_val_sign(*self);
                assert(r.val() == -(q2 * pd)) by (nonlinear_arith)
                    requires
                        r.val() == m * pd,
                        m == -q2,
                ;
            } else {
                lemma_val_sign(*self);
            }
        }
        r
    }
}


/// The decimal text of `d`: sign, integer digits, and `scale` fractional digits.
pub open spec fn dec_text(d: Dec) -> Seq<char> {
    let mag = abs_int(d.mantissa as int) as nat;
    let p = pow10(d.scale as nat);
    let body = nat_digits(mag / p) + (if d.scale > 0 {
        seq!['.'] + padded_digits(mag % p, d.scale as nat)
    } else {
        Seq::<char>::empty()
    });
    if d.mantissa < 0 {
        seq!['-'] + body
    } else {
        body
    }
}

impl Dec {
    /// The decimal text, with as many fractional digits as the scale.
    pub fn to_text(&self) -> (r: String)
        requires
            self.wf(),
        ensures
            r@ == dec_text(*self),
    {
        let mag: u128 = if self.mantissa < 0 { (-self.mantissa) as u128 } else { self.mantissa as u128 };
        let p = pow10_u128(self.scale);
        proof {
            lemma_pow10_pos(self.scale as nat);
        }
        let mut v: Vec<char> = Vec::new();
        if self.mantissa < 0 {
            v.push('-');
        }
        let ip = digits_u128(mag / p);
        extend_chars(&mut v, &ip);
        if self.scale > 0 {
            v.push('.');
            let fp = padded_digits_u128(mag % p, self.scale);
            extend_chars(&mut v, &fp);
        }
        proof {
            let mag_s = abs_int(self.mantissa as int) as nat;
            assert(mag as nat == mag_s);
            if self.mantissa < 0 {
                if self.scale > 0 {
                    assert(v@ =~= seq!['-'] + (nat_digits(mag_s / pow10(self.scale as nat)) + (seq!['.'] + padded_digits(mag_s % pow10(self.scale as nat), self.scale as nat))));
                } else {
                    assert(v@ =~= seq!['-'] + (nat_digits(mag_s / pow10(self.scale as nat)) + Seq::<char>::empty()));
                }
            } else {
                if self.scale > 0 {
                    assert(v@ =~= nat_digits(mag_s / pow10(self.scale as nat)) + (seq!['.'] + padded_digits(mag_s % pow10(self.scale as nat), self.scale as nat)));
                } else {
                    assert(v@ =~= nat_digits(mag_s / pow10(self.scale as nat)) + Seq::<char>::empty());
                }
            }
        }
        string_of(&v)
    }
}


/// What `rust_decimal::Decimal::checked_div` yields for two decimals: the quotient,
/// rounded to the decimal domain, or nothing on division by zero or overflow.
pub uninterp spec fn decimal_quotient(a: Dec, b: Dec) -> Option<Dec>;

/// Decimal division through `rust_decimal::Decimal::checked_div`.
/// Trusted: the result is the named quotient; nothing comes back when the divisor
/// is zero (the crate's documented behaviour); a quotient lies in the domain.
/// Which digits the quotient keeps is left to the name.
#[verifier::external_body]
pub(crate) fn checked_div(a: &Dec, b: &Dec) -> (r: Option<Dec>)
    requires
        a.wf(),
        b.wf(),
    ensures
        r == decimal_quotient(*a, *b),
        b.val() == 0 ==> r is None,
        r matches Some(q) ==> q.wf(),
{
    let x = rust_decimal::Decimal::from_i128_with_scale(a.mantissa, a.scale);
    let y = rust_decimal::Decimal::from_i128_with_scale(b.mantissa, b.scale);
    match x.checked_div(y) {
        Some(q) => Some(Dec { mantissa: q.mantissa(), scale: q.scale() }),
        None => None,
    }
}


/// The sum of a list of decimals, added from zero in order, as `Iterator::sum` does.
pub open spec fn spec_sum(s: Seq<Dec>) -> Option<Dec>
    decreases s.len(),
{
    if s.len() == 0 {
        Some(Dec { mantissa: 0, scale: 0 })
    } else {
        match spec_sum(s.drop_last()) {
            Some(acc) => spec_add(acc, s.last()),
            None => None,
        }
    }
}

pub open spec fn all_wf(s: Seq<Dec>) -> bool {
    forall|i: int| 0 <= i < s.len() ==> #[trigger] s[i].wf()
}

/// The decimal `100`.
pub open spec fn hundred() -> Dec {
    Dec { mantissa: 100, scale: 0 }
}

pub fn dec_hundred() -> (r: Dec)
    ensures
        r == hundred(),
        r.wf(),
{
    Dec { mantissa: 100, scale: 0 }
}

/// Sum of decimals from zero, in order; `None` where a partial sum leaves the domain.
pub fn sum_decs(v: &Vec<Dec>) -> (r: Option<Dec>)
    requires
        all_wf(v@),
    ensures
        r == spec_sum(v@),
        r matches Some(t) ==> t.wf(),
{
    let mut acc = Dec::zero();
    let mut i: usize = 0;
    while i < v.len()
        invariant
            i <= v.len(),
            all_wf(v@),
            spec_sum(v@.subrange(0, i as int)) == Some(acc),
            acc.wf(),
        decreases v.len() - i,
    {
        proof {
            assert(v@.subrange(0, i + 1).drop_last() =~= v@.subrange(0, i as int));
            assert(v@.subrange(0, i + 1).last() == v@[i as int]);
        }
        match acc.checked_add(&v[i]) {
            Some(next) => {
                acc = next;
            },
            None => {
                proof {
                    lemma_sum_none_extends(v@, (i + 1) as nat);
                    assert(v@.subrange(0, v@.len() as int) =~= v@);
                }
                return None;
            },
        }
        i = i + 1;
    }
    proof {
        assert(v@.subrange(0, v@.len() as int) =~= v@);
    }
    Some(acc)
}

/// Once a prefix sum fails, every longer sum fails.
proof fn lemma_sum_none_extends(s: Seq<Dec>, n: nat)
    requires
        n <= s.len(),
        spec_sum(s.subrange(0, n as int)) is None,
    ensures
        spec_sum(s) is None,
    decreases s.len() - n,
{
    if n < s.len() {
        assert(s.subrange(0, (n + 1) as int).drop_last() =~= s.subrange(0, n as int));
        lemma_sum_none_extends(s, n + 1);
    } else {
        assert(s.subrange(0, n as int) =~= s);
    }
}

pub proof fn lemma_sign_mul(m: int, p: int)
    requires
        p >= 1,
    ensures
        m > 0 <==> m * p > 0,
        m < 0 <==> m * p < 0,
        m == 0 <==> m * p == 0,
{
    assert(m > 0 ==> m * p > 0) by (nonlinear_arith)
        requires
            p >= 1,
    ;
    assert(m < 0 ==> m * p < 0) by (nonlinear_arith)
        requires
            p >= 1,
    ;
    assert(m == 0 ==> m * p == 0) by (nonlinear_arith);
}

pub proof fn lemma_val_sign(d: Dec)
    requires
        d.wf(),
    ensures
        d.mantissa > 0 <==> d.val() > 0,
        d.mantissa < 0 <==> d.val() < 0,
        d.mantissa == 0 <==> d.val() == 0,
{
    lemma_pow10_pos((MAX_SCALE - d.scale) as nat);
    lemma_sign_mul(d.mantissa as int, pow10((MAX_SCALE - d.scale) as nat) as int);
}

} // verus!

verus! {

/// Rounding twice to the same number of digits is rounding once.
pub proof fn lemma_round_dp_idempotent(a: Dec, dp: u32)
    requires
        a.wf(),
        dp <= MAX_SCALE,
    ensures
        spec_round_dp(spec_round_dp(a, dp), dp) == spec_round_dp(a, dp),
{
}

/// Half-even rounding of `n / p` lands within half a step of it.
pub proof fn lemma_round_half_even_close(n: nat, p: nat)
    requires
        p > 0,
    ensures
        2 * abs_int(round_half_even(n, p) * p - n) <= p,
{
    lemma_fundamental_div_mod(n as int, p as int);
    lemma_mod_bound(n as int, p as int);
    let q = (n / p) as int;
    let r = (n % p) as int;
    assert(n == p * q + r);
    lemma_mul_is_commutative(p as int, q);
    if 2 * r > p || (2 * r == p && q % 2 == 1) {
        assert(round_half_even(n, p) == q + 1);
        assert((q + 1) * p == q * p + p) by (nonlinear_arith);
    } else {
        assert(round_half_even(n, p) == q);
    }
}

/// Rounding an amount to `dp` fractional digits moves it by at most half a unit of the
/// last kept digit (half a cent for `dp == 2`).
pub proof fn lemma_round_value_close(v: int, dp: nat)
    requires
        dp <= 28,
    ensures
        2 * abs_int(round_value(v, dp) - v) <= pow10((28 - dp) as nat),
{
    let p = pow10((28 - dp) as nat);
    lemma_pow10_pos((28 - dp) as nat);
    if v < 0 {
        lemma_round_half_even_close((-v) as nat, p);
    } else {
        lemma_round_half_even_close(v as nat, p);
    }
}

} // verus!
