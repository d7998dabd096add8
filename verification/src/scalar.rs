//! The abstract scalar that the whole kernel is generic over.
//!
//! Exec arithmetic is mirrored, operation by operation, by spec functions, so
//! that every matrix and vector routine in the crate can state exactly which
//! expression tree it evaluates. The trait deliberately makes every operation
//! total: degenerate inputs (a division by zero, a square root of a negative
//! value) yield whatever junk value the instantiation defines, mirroring the
//! permissive numeric philosophy of the kernel, which never validates and
//! never panics.

use vstd::prelude::*;

verus! {

/// An abstract scalar: the element type of every vector and matrix in the
/// crate.
///
/// Each exec operation is pinned to a spec-level mirror, and the ring laws
/// that the lemmas of [`crate::laws`] rely on — identities, annihilation by
/// zero, commutativity, associativity, distributivity, additive inverses,
/// subtraction as negated addition, and division by one — are proof
/// obligations on every instantiation.
pub trait Scalar: Copy + Sized {
    /// The additive identity, as a spec value.
    spec fn zero_spec() -> Self;

    /// The multiplicative identity, as a spec value.
    spec fn one_spec() -> Self;

    /// What `plus` returns.
    spec fn plus_spec(a: Self, b: Self) -> Self;

    /// What `minus` returns.
    spec fn minus_spec(a: Self, b: Self) -> Self;

    /// What `times` returns.
    spec fn times_spec(a: Self, b: Self) -> Self;

    /// What `divide` returns.
    spec fn divide_spec(a: Self, b: Self) -> Self;

    /// What `negate` returns.
    spec fn negate_spec(a: Self) -> Self;

    /// Characterises the result of `square_root`.
    spec fn sqrt_rel(a: Self, r: Self) -> bool;

    fn zero() -> (r: Self)
        ensures
            r == Self::zero_spec(),
    ;

    fn one() -> (r: Self)
        ensures
            r == Self::one_spec(),
    ;

    fn plus(self, other: Self) -> (r: Self)
        ensures
            r == Self::plus_spec(self, other),
    ;

    fn minus(self, other: Self) -> (r: Self)
        ensures
            r == Self::minus_spec(self, other),
    ;

    fn times(self, other: Self) -> (r: Self)
        ensures
            r == Self::times_spec(self, other),
    ;

    fn divide(self, other: Self) -> (r: Self)
        ensures
            r == Self::divide_spec(self, other),
    ;

    fn negate(self) -> (r: Self)
        ensures
            r == Self::negate_spec(self),
    ;

    fn square_root(self) -> (r: Self)
        ensures
            Self::sqrt_rel(self, r),
    ;

    /// One is a left and right identity of multiplication.
    proof fn times_one_identity(a: Self)
        ensures
            Self::times_spec(Self::one_spec(), a) == a,
            Self::times_spec(a, Self::one_spec()) == a,
    ;

    /// Zero annihilates multiplication on either side.
    proof fn times_zero_annihilates(a: Self)
        ensures
            Self::times_spec(Self::zero_spec(), a) == Self::zero_spec(),
            Self::times_spec(a, Self::zero_spec()) == Self::zero_spec(),
    ;

    /// Zero is a left and right identity of addition.
    proof fn plus_zero_identity(a: Self)
        ensures
            Self::plus_spec(a, Self::zero_spec()) == a,
            Self::plus_spec(Self::zero_spec(), a) == a,
    ;

    /// Multiplication is associative.
    proof fn times_associative(a: Self, b: Self, c: Self)
        ensures
            Self::times_spec(Self::times_spec(a, b), c) == Self::times_spec(
                a,
                Self::times_spec(b, c),
            ),
    ;

    /// A value and its negation cancel to zero on either side.
    proof fn plus_negate_cancels(a: Self)
        ensures
            Self::plus_spec(a, Self::negate_spec(a)) == Self::zero_spec(),
            Self::plus_spec(Self::negate_spec(a), a) == Self::zero_spec(),
    ;

    /// One is a right identity of division.
    proof fn divide_one_identity(a: Self)
        ensures
            Self::divide_spec(a, Self::one_spec()) == a,
    ;

    /// Addition is associative.
    proof fn plus_associative(a: Self, b: Self, c: Self)
        ensures
            Self::plus_spec(Self::plus_spec(a, b), c) == Self::plus_spec(
                a,
                Self::plus_spec(b, c),
            ),
    ;

    /// Multiplication distributes over addition on the left.
    proof fn times_plus_distributive(a: Self, b: Self, c: Self)
        ensures
            Self::times_spec(a, Self::plus_spec(b, c)) == Self::plus_spec(
                Self::times_spec(a, b),
                Self::times_spec(a, c),
            ),
    ;

    /// Addition is commutative.
    proof fn plus_commutative(a: Self, b: Self)
        ensures
            Self::plus_spec(a, b) == Self::plus_spec(b, a),
    ;

    /// Multiplication is commutative.
    proof fn times_commutative(a: Self, b: Self)
        ensures
            Self::times_spec(a, b) == Self::times_spec(b, a),
    ;

    /// Negating either factor negates the product.
    proof fn times_negate_compatible(a: Self, b: Self)
        ensures
            Self::times_spec(Self::negate_spec(a), b) == Self::negate_spec(
                Self::times_spec(a, b),
            ),
            Self::times_spec(a, Self::negate_spec(b)) == Self::negate_spec(
                Self::times_spec(a, b),
            ),
    ;

    /// Subtraction is addition of the negation.
    proof fn minus_is_plus_negate(a: Self, b: Self)
        ensures
            Self::minus_spec(a, b) == Self::plus_spec(a, Self::negate_spec(b)),
    ;
}

/// Truncated (round-toward-zero) integer division, the convention of Rust's
/// `/` on machine integers, as a spec value; unspecified when `b == 0`.
pub open spec fn div_trunc(a: int, b: int) -> int {
    if (a >= 0) == (b >= 0) {
        vstd::math::abs(a) as int / vstd::math::abs(b) as int
    } else {
        -(vstd::math::abs(a) as int / vstd::math::abs(b) as int)
    }
}

/// The verified instantiation: wrapping two's-complement arithmetic on `i64`.
///
/// Division by zero yields zero and a square root of a negative value yields
/// zero, keeping every operation total.
impl Scalar for i64 {
    open spec fn zero_spec() -> i64 {
        0
    }

    open spec fn one_spec() -> i64 {
        1
    }

    open spec fn plus_spec(a: i64, b: i64) -> i64 {
        vstd::wrapping::i64_specs::wrapping_add(a, b)
    }

    open spec fn minus_spec(a: i64, b: i64) -> i64 {
        vstd::wrapping::i64_specs::wrapping_sub(a, b)
    }

    open spec fn times_spec(a: i64, b: i64) -> i64 {
        vstd::wrapping::i64_specs::wrapping_mul(a, b)
    }

    open spec fn divide_spec(a: i64, b: i64) -> i64 {
        if b == 0 {
            0
        } else {
            vstd::wrapping::i64_specs::signed_crop(div_trunc(a as int, b as int))
        }
    }

    open spec fn negate_spec(a: i64) -> i64 {
        vstd::wrapping::i64_specs::wrapping_sub(0, a)
    }

    open spec fn sqrt_rel(a: i64, r: i64) -> bool {
        if a <= 0 {
            r == 0
        } else {
            0 <= r && r * r <= a && a < (r + 1) * (r + 1)
        }
    }

    fn zero() -> (r: i64) {
        0
    }

    fn one() -> (r: i64) {
        1
    }

    fn plus(self, other: i64) -> (r: i64) {
        self.wrapping_add(other)
    }

    fn minus(self, other: i64) -> (r: i64) {
        self.wrapping_sub(other)
    }

    fn times(self, other: i64) -> (r: i64) {
        self.wrapping_mul(other)
    }

    fn divide(self, other: i64) -> (r: i64) {
        if other == 0 {
            0
        } else {
            let negative: bool = (self < 0) != (other < 0);
            let wide_a: i128 = self as i128;
            let wide_b: i128 = other as i128;
            let mag_a: u64 = if wide_a >= 0 {
                wide_a as u64
            } else {
                (-wide_a) as u64
            };
            let mag_b: u64 = if wide_b >= 0 {
                wide_b as u64
            } else {
                (-wide_b) as u64
            };
            let quotient: u64 = mag_a / mag_b;
            if negative {
                (-(quotient as i128)) as i64
            } else if quotient <= i64::MAX as u64 {
                quotient as i64
            } else {
                i64::MIN
            }
        }
    }

    fn negate(self) -> (r: i64) {
        (0i64).wrapping_sub(self)
    }

    fn square_root(self) -> (r: i64) {
        if self <= 0 {
            0
        } else {
            // Binary search for the integer square root: the answer lies in
            // [low, high) throughout.
            let mut low: i64 = 0;
            let mut high: i64 = 3037000500;
            while high - low > 1
                invariant
                    0 <= low < high <= 3037000500,
                    low * low <= self,
                    self < high * high || high == 3037000500,
                    high == 3037000500 ==> self > 0,
                decreases high - low,
            {
                let mid: i64 = low + (high - low) / 2;
                assert(low < mid < high);
                let fits: bool = if mid <= 3037000499 {
                    proof {
                        assert(mid * mid <= i64::MAX) by (nonlinear_arith)
                            requires 0 <= mid <= 3037000499;
                    }
                    mid * mid <= self
                } else {
                    false
                };
                if fits {
                    low = mid;
                } else {
                    proof {
                        if mid > 3037000499 {
                            assert(mid * mid > self) by (nonlinear_arith)
                                requires mid >= 3037000500 && self <= i64::MAX;
                        }
                    }
                    high = mid;
                }
            }
            proof {
                if high == 3037000500 {
                    assert(high * high > i64::MAX) by (nonlinear_arith)
                        requires high == 3037000500;
                }
            }
            low
        }
    }

    proof fn times_one_identity(a: i64) {
        lemma_i64_crop_identity(a);
    }

    proof fn times_zero_annihilates(a: i64) {
    }

    proof fn plus_zero_identity(a: i64) {
    }

    proof fn times_associative(a: i64, b: i64, c: i64) {
        lemma_i64_crop_times_congruent((a as int) * (b as int), c as int);
        lemma_i64_crop_times_congruent((b as int) * (c as int), a as int);
        assert((a * b) * c == ((b * c)) * a && (i64_crop(b * c) as int) * a == a * (i64_crop(
            b * c,
        ) as int)) by (nonlinear_arith);
    }

    proof fn plus_negate_cancels(a: i64) {
    }

    proof fn divide_one_identity(a: i64) {
        assert(div_trunc(a as int, 1) == a as int) by {
            if a >= 0 {
                vstd::arithmetic::div_mod::lemma_div_basics(a as int);
            } else {
                vstd::arithmetic::div_mod::lemma_div_basics(-(a as int));
            }
        }
        lemma_i64_crop_identity(a);
    }

    proof fn plus_associative(a: i64, b: i64, c: i64) {
    }

    proof fn plus_commutative(a: i64, b: i64) {
    }

    proof fn minus_is_plus_negate(a: i64, b: i64) {
        lemma_i64_neg_is_crop(b);
        lemma_i64_add_is_crop(a, (0i64).wrapping_sub(b));
        lemma_i64_crop_plus_congruent(-(b as int), a as int);
    }

    proof fn times_commutative(a: i64, b: i64) {
        assert((a as int) * (b as int) == (b as int) * (a as int)) by (nonlinear_arith);
    }

    proof fn times_negate_compatible(a: i64, b: i64) {
        lemma_i64_neg_is_crop(a);
        lemma_i64_neg_is_crop(b);
        lemma_i64_neg_is_crop(a.wrapping_mul(b));
        // Left factor: crop(-a) * b stays congruent to -(a * b).
        lemma_i64_crop_times_congruent(-(a as int), b as int);
        assert((-(a as int)) * (b as int) == -((a as int) * (b as int))) by (nonlinear_arith);
        // Right factor: a * crop(-b) is crop(-b) * a up to commutativity.
        lemma_i64_crop_times_congruent(-(b as int), a as int);
        assert((a as int) * (i64_crop(-(b as int)) as int) == (i64_crop(-(b as int)) as int) * (
        a as int)) by (nonlinear_arith);
        assert((-(b as int)) * (a as int) == -((a as int) * (b as int))) by (nonlinear_arith);
        // The negated product: -crop(a * b) is congruent to -(a * b).
        lemma_i64_crop_times_congruent((a as int) * (b as int), -1);
        assert((i64_crop((a as int) * (b as int)) as int) * (-1) == -(i64_crop(
            (a as int) * (b as int),
        ) as int));
        assert(((a as int) * (b as int)) * (-1) == -((a as int) * (b as int)));
    }

    proof fn times_plus_distributive(a: i64, b: i64, c: i64) {
        let bc = b as int + c as int;
        lemma_i64_add_is_crop(b, c);
        assert((a as int) * (i64_crop(bc) as int) == (i64_crop(bc) as int) * (a as int))
            by (nonlinear_arith);
        lemma_i64_crop_times_congruent(bc, a as int);
        assert(((b as int) + (c as int)) * (a as int) == (a as int) * (b as int) + (a as int) * (
        c as int)) by (nonlinear_arith);
        lemma_i64_add_is_crop(a.wrapping_mul(b), a.wrapping_mul(c));
        lemma_i64_crop_plus_congruent((a as int) * (b as int), i64_crop((a as int) * (c as int)) as int);
        lemma_i64_crop_plus_congruent((a as int) * (c as int), (a as int) * (b as int));
        assert((i64_crop((a as int) * (b as int)) as int) + (i64_crop((a as int) * (c as int)) as int)
            == (i64_crop((a as int) * (c as int)) as int) + (i64_crop((a as int) * (b as int)) as int));
    }
}

/// The congruence class of a value modulo two to the sixty-fourth, shifted
/// into `i64` range: vstd's `signed_crop`, under a local name.
pub open spec fn i64_crop(x: int) -> i64 {
    vstd::wrapping::i64_specs::signed_crop(x)
}

/// `signed_crop` respects congruence: cropping one factor of a product
/// before multiplying does not change the cropped result.
proof fn lemma_i64_crop_times_congruent(x: int, y: int)
    ensures
        i64_crop((i64_crop(x) as int) * y) == i64_crop(x * y),
{
    let range = 0x1_0000_0000_0000_0000int;
    let c = i64_crop(x) as int;
    assert((c * y) % range == (x * y) % range) by {
        if (x % range) > i64::MAX as int {
            assert(c == x % range - range);
            assert(c * y == range * (-y) + (x % range) * y) by (nonlinear_arith)
                requires c == x % range - range;
            vstd::arithmetic::div_mod::lemma_mod_multiples_vanish(-y, (x % range) * y, range);
        } else {
            assert(c == x % range);
        }
        vstd::arithmetic::div_mod::lemma_mul_mod_noop_left(x, y, range);
    }
}

/// Wrapping negation is `signed_crop` of the exact negation.
proof fn lemma_i64_neg_is_crop(a: i64)
    ensures
        vstd::wrapping::i64_specs::wrapping_sub(0, a) == i64_crop(-(a as int)),
{
    let range = 0x1_0000_0000_0000_0000int;
    let n = -(a as int);
    if n >= 0 {
        vstd::arithmetic::div_mod::lemma_small_mod(n as nat, range as nat);
    } else {
        vstd::arithmetic::div_mod::lemma_mod_add_multiples_vanish(n, range);
        vstd::arithmetic::div_mod::lemma_small_mod((n + range) as nat, range as nat);
    }
}

/// Wrapping addition is `signed_crop` of the exact sum.
proof fn lemma_i64_add_is_crop(a: i64, b: i64)
    ensures
        vstd::wrapping::i64_specs::wrapping_add(a, b) == i64_crop(a as int + b as int),
{
    let range = 0x1_0000_0000_0000_0000int;
    let s = a as int + b as int;
    if s >= 0 {
        vstd::arithmetic::div_mod::lemma_small_mod(s as nat, range as nat);
    } else {
        vstd::arithmetic::div_mod::lemma_mod_add_multiples_vanish(s, range);
        vstd::arithmetic::div_mod::lemma_small_mod((s + range) as nat, range as nat);
    }
}

/// `signed_crop` respects congruence in a summand: cropping one summand
/// before adding does not change the cropped result.
proof fn lemma_i64_crop_plus_congruent(x: int, y: int)
    ensures
        i64_crop((i64_crop(x) as int) + y) == i64_crop(x + y),
{
    let range = 0x1_0000_0000_0000_0000int;
    let c = i64_crop(x) as int;
    assert((c + y) % range == (x + y) % range) by {
        vstd::arithmetic::div_mod::lemma_fundamental_div_mod(x, range);
        if (x % range) > i64::MAX as int {
            assert(c + y == range * (-(x / range) - 1) + (x + y));
            vstd::arithmetic::div_mod::lemma_mod_multiples_vanish(-(x / range) - 1, x + y, range);
        } else {
            assert(c + y == range * (-(x / range)) + (x + y));
            vstd::arithmetic::div_mod::lemma_mod_multiples_vanish(-(x / range), x + y, range);
        }
    }
}

/// `signed_crop` is the identity on values already in `i64` range.
proof fn lemma_i64_crop_identity(a: i64)
    ensures
        vstd::wrapping::i64_specs::signed_crop(a as int) == a,
{
    let range = 0x1_0000_0000_0000_0000int;
    if a >= 0 {
        vstd::arithmetic::div_mod::lemma_small_mod(a as nat, range as nat);
    } else {
        vstd::arithmetic::div_mod::lemma_mod_add_multiples_vanish(a as int, range);
        vstd::arithmetic::div_mod::lemma_small_mod((a + range) as nat, range as nat);
    }
}

} // verus!
