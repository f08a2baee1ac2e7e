//! Complex numbers `u + i*v` over two numeric kinds: 64-bit signed integers
//! and, through the same generic pair type, 64-bit floating point.
//!
//! The pair type `Complex<T>` is generic; its arithmetic is defined per kind.
//! For the integer kind, addition, subtraction and multiplication wrap on
//! overflow (two's-complement, modulo 2^64), and every contract states the
//! wrapped result exactly. Integer division is asymmetric: it leaves the
//! integer kind, so the library computes its three integer quantities
//! (`div_parts`) and leaves the final floating-point division to the caller.

use vstd::prelude::*;

verus! {

use vstd::arithmetic::div_mod::{
    lemma_fundamental_div_mod,
    lemma_mod_bound,
    lemma_mod_multiples_vanish,
    lemma_small_mod,
};
use vstd::std_specs::ops::{AddSpec, MulSpec, SubSpec};
use vstd::wrapping::i64_specs;

/// A complex number `u + i*v`: a pair of a real part `u` and an imaginary
/// part `v` of the same numeric kind `T`.
#[derive(Clone, Copy)]
pub struct Complex<T> {
    /// The real part.
    pub u: T,
    /// The imaginary part.
    pub v: T,
}

impl<T> Complex<T> {
    /// Builds the complex number with real part `u` and imaginary part `v`,
    /// holding both unchanged.
    pub fn new(u: T, v: T) -> (c: Self)
        ensures
            c.u == u,
            c.v == v,
    {
        Complex { u, v }
    }

    /// Returns the real part.
    pub fn re(self) -> (r: T)
        ensures
            r == self.u,
    {
        self.u
    }

    /// Returns the imaginary part.
    pub fn im(self) -> (r: T)
        ensures
            r == self.v,
    {
        self.v
    }
}

/// The modulus of 64-bit wrapping arithmetic, 2^64.
pub open spec fn wrap_modulus() -> int {
    0x1_0000_0000_0000_0000
}

/// The unique `i64` value congruent to `x` modulo 2^64: the result of 64-bit
/// two's-complement wrapping arithmetic whose exact value is `x`.
pub open spec fn wrap(x: int) -> i64 {
    if x % wrap_modulus() > i64::MAX as int {
        (x % wrap_modulus() - wrap_modulus()) as i64
    } else {
        (x % wrap_modulus()) as i64
    }
}

/// A value already in the `i64` range wraps to itself.
pub proof fn lemma_wrap_in_range(x: int)
    requires
        i64::MIN <= x <= i64::MAX,
    ensures
        wrap(x) == x,
{
    if x >= 0 {
        lemma_small_mod(x as nat, wrap_modulus() as nat);
    } else {
        lemma_mod_multiples_vanish(1, x, wrap_modulus());
        lemma_small_mod((x + wrap_modulus()) as nat, wrap_modulus() as nat);
    }
}

/// Shifting the argument by a multiple of 2^64 does not change its wrap.
pub proof fn lemma_wrap_multiple_vanish(x: int, k: int)
    ensures
        wrap(x + k * wrap_modulus()) == wrap(x),
{
    lemma_mod_multiples_vanish(k, x, wrap_modulus());
}

/// `wrap(x)` is the only value of the `i64` range congruent to `x` modulo 2^64.
pub proof fn lemma_wrap_unique(z: int, x: int, k: int)
    requires
        i64::MIN <= z <= i64::MAX,
        x == z + k * wrap_modulus(),
    ensures
        wrap(x) == z,
{
    lemma_wrap_multiple_vanish(z, k);
    lemma_wrap_in_range(z);
}

/// `wrap(x)` differs from `x` by a multiple of 2^64; returns that multiplier.
pub proof fn lemma_wrap_decompose(x: int) -> (k: int)
    ensures
        wrap(x) == x - k * wrap_modulus(),
{
    lemma_fundamental_div_mod(x, wrap_modulus());
    lemma_mod_bound(x, wrap_modulus());
    if x % wrap_modulus() > i64::MAX as int {
        x / wrap_modulus() + 1
    } else {
        x / wrap_modulus()
    }
}

/// Wrapping addition of the wraps of two exact values is the wrap of their
/// exact sum.
proof fn lemma_wrap_add_pair(x: int, y: int)
    ensures
        i64_specs::wrapping_add(wrap(x), wrap(y)) == wrap(x + y),
{
    let kx = lemma_wrap_decompose(x);
    let ky = lemma_wrap_decompose(y);
    let a = wrap(x);
    let b = wrap(y);
    if a + b > i64::MAX {
        lemma_wrap_unique(a + b - wrap_modulus(), x + y, kx + ky + 1);
    } else if a + b < i64::MIN {
        lemma_wrap_unique(a + b + wrap_modulus(), x + y, kx + ky - 1);
    } else {
        lemma_wrap_unique(a + b, x + y, kx + ky);
    }
}

/// Wrapping subtraction of the wraps of two exact values is the wrap of their
/// exact difference.
proof fn lemma_wrap_sub_pair(x: int, y: int)
    ensures
        i64_specs::wrapping_sub(wrap(x), wrap(y)) == wrap(x - y),
{
    let kx = lemma_wrap_decompose(x);
    let ky = lemma_wrap_decompose(y);
    let a = wrap(x);
    let b = wrap(y);
    if a - b > i64::MAX {
        lemma_wrap_unique(a - b - wrap_modulus(), x - y, kx - ky + 1);
    } else if a - b < i64::MIN {
        lemma_wrap_unique(a - b + wrap_modulus(), x - y, kx - ky - 1);
    } else {
        lemma_wrap_unique(a - b, x - y, kx - ky);
    }
}

/// Wrapping multiplication of two `i64` values is the wrap of their exact
/// product.
proof fn lemma_wrap_mul_pair(a: i64, b: i64)
    ensures
        i64_specs::wrapping_mul(a, b) == wrap(a * b),
{
}

impl Complex<i64> {
    /// The three integer quantities of complex division by the conjugate:
    /// the numerator of the real part, the numerator of the imaginary part,
    /// and their common denominator, the squared magnitude of `rhs`. Each is
    /// computed in wrapping integer arithmetic; the quotient itself leaves
    /// the integer kind and is taken in floating point by the caller.
    pub fn div_parts(self, rhs: Complex<i64>) -> (r: (i64, i64, i64))
        ensures
            r.0 == wrap(self.u * rhs.u + self.v * rhs.v),
            r.1 == wrap(self.v * rhs.u - self.u * rhs.v),
            r.2 == wrap(rhs.u * rhs.u + rhs.v * rhs.v),
    {
        proof {
            lemma_wrap_mul_pair(self.u, rhs.u);
            lemma_wrap_mul_pair(self.v, rhs.v);
            lemma_wrap_mul_pair(self.v, rhs.u);
            lemma_wrap_mul_pair(self.u, rhs.v);
            lemma_wrap_mul_pair(rhs.u, rhs.u);
            lemma_wrap_mul_pair(rhs.v, rhs.v);
            lemma_wrap_add_pair(self.u * rhs.u, self.v * rhs.v);
            lemma_wrap_sub_pair(self.v * rhs.u, self.u * rhs.v);
            lemma_wrap_add_pair(rhs.u * rhs.u, rhs.v * rhs.v);
        }
        (
            self.u.wrapping_mul(rhs.u).wrapping_add(self.v.wrapping_mul(rhs.v)),
            self.v.wrapping_mul(rhs.u).wrapping_sub(self.u.wrapping_mul(rhs.v)),
            rhs.u.wrapping_mul(rhs.u).wrapping_add(rhs.v.wrapping_mul(rhs.v)),
        )
    }
}

impl vstd::std_specs::ops::AddSpecImpl<Complex<i64>> for Complex<i64> {
    open spec fn obeys_add_spec() -> bool {
        true
    }

    open spec fn add_req(self, rhs: Complex<i64>) -> bool {
        true
    }

    /// Componentwise wrapping sum: `(a.u + b.u, a.v + b.v)`, each modulo 2^64.
    open spec fn add_spec(self, rhs: Complex<i64>) -> Complex<i64> {
        Complex { u: wrap(self.u + rhs.u), v: wrap(self.v + rhs.v) }
    }
}

impl core::ops::Add<Complex<i64>> for Complex<i64> {
    type Output = Complex<i64>;

    /// Componentwise wrapping addition of integer-kind complex numbers.
    fn add(self, rhs: Complex<i64>) -> (r: Complex<i64>) {
        proof {
            lemma_wrap_in_range(self.u as int);
            lemma_wrap_in_range(self.v as int);
            lemma_wrap_in_range(rhs.u as int);
            lemma_wrap_in_range(rhs.v as int);
            lemma_wrap_add_pair(self.u as int, rhs.u as int);
            lemma_wrap_add_pair(self.v as int, rhs.v as int);
        }
        Complex { u: self.u.wrapping_add(rhs.u), v: self.v.wrapping_add(rhs.v) }
    }
}

impl vstd::std_specs::ops::SubSpecImpl<Complex<i64>> for Complex<i64> {
    open spec fn obeys_sub_spec() -> bool {
        true
    }

    open spec fn sub_req(self, rhs: Complex<i64>) -> bool {
        true
    }

    /// Componentwise wrapping difference: `(a.u - b.u, a.v - b.v)`, each
    /// modulo 2^64.
    open spec fn sub_spec(self, rhs: Complex<i64>) -> Complex<i64> {
        Complex { u: wrap(self.u - rhs.u), v: wrap(self.v - rhs.v) }
    }
}

impl core::ops::Sub<Complex<i64>> for Complex<i64> {
    type Output = Complex<i64>;

    /// Componentwise wrapping subtraction of integer-kind complex numbers.
    fn sub(self, rhs: Complex<i64>) -> (r: Complex<i64>) {
        proof {
            lemma_wrap_in_range(self.u as int);
            lemma_wrap_in_range(self.v as int);
            lemma_wrap_in_range(rhs.u as int);
            lemma_wrap_in_range(rhs.v as int);
            lemma_wrap_sub_pair(self.u as int, rhs.u as int);
            lemma_wrap_sub_pair(self.v as int, rhs.v as int);
        }
        Complex { u: self.u.wrapping_sub(rhs.u), v: self.v.wrapping_sub(rhs.v) }
    }
}

impl vstd::std_specs::ops::MulSpecImpl<Complex<i64>> for Complex<i64> {
    open spec fn obeys_mul_spec() -> bool {
        true
    }

    open spec fn mul_req(self, rhs: Complex<i64>) -> bool {
        true
    }

    /// The standard complex product, each component modulo 2^64:
    /// `(a.u*b.u - a.v*b.v, a.v*b.u + a.u*b.v)`.
    open spec fn mul_spec(self, rhs: Complex<i64>) -> Complex<i64> {
        Complex {
            u: wrap(self.u * rhs.u - self.v * rhs.v),
            v: wrap(self.v * rhs.u + self.u * rhs.v),
        }
    }
}

impl core::ops::Mul<Complex<i64>> for Complex<i64> {
    type Output = Complex<i64>;

    /// The complex product of integer-kind complex numbers, computed in
    /// wrapping integer arithmetic.
    fn mul(self, rhs: Complex<i64>) -> (r: Complex<i64>) {
        proof {
            lemma_wrap_mul_pair(self.u, rhs.u);
            lemma_wrap_mul_pair(self.v, rhs.v);
            lemma_wrap_mul_pair(self.v, rhs.u);
            lemma_wrap_mul_pair(self.u, rhs.v);
            lemma_wrap_sub_pair(self.u * rhs.u, self.v * rhs.v);
            lemma_wrap_add_pair(self.v * rhs.u, self.u * rhs.v);
        }
        Complex {
            u: self.u.wrapping_mul(rhs.u).wrapping_sub(self.v.wrapping_mul(rhs.v)),
            v: self.v.wrapping_mul(rhs.u).wrapping_add(self.u.wrapping_mul(rhs.v)),
        }
    }
}

/// Multiplication of integer-kind complex numbers is commutative:
/// `a * b == b * a` for all `a` and `b`.
pub proof fn lemma_mul_commutative(a: Complex<i64>, b: Complex<i64>)
    ensures
        a.mul_spec(b) == b.mul_spec(a),
{
    assert(a.u * b.u - a.v * b.v == b.u * a.u - b.v * a.v) by (nonlinear_arith);
    assert(a.v * b.u + a.u * b.v == b.v * a.u + b.u * a.v) by (nonlinear_arith);
}

/// Addition and subtraction of integer-kind complex numbers are mutual
/// inverses: `(a + b) - b == a` for all `a` and `b`, wrapping included.
pub proof fn lemma_add_sub_inverse(a: Complex<i64>, b: Complex<i64>)
    ensures
        a.add_spec(b).sub_spec(b) == a,
{
    let ku = lemma_wrap_decompose(a.u + b.u);
    let kv = lemma_wrap_decompose(a.v + b.v);
    lemma_wrap_multiple_vanish(a.u as int, -ku);
    lemma_wrap_multiple_vanish(a.v as int, -kv);
    lemma_wrap_in_range(a.u as int);
    lemma_wrap_in_range(a.v as int);
}

} // verus!
