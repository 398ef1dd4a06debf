//! Primality by an element of large order.
//!
//! A number `n` is prime where some prime `q` with `q * q > n`, or some
//! product of two primes with that property, is the order of an element
//! modulo every divisor of `n` but one: the powers of the element are that
//! many residues, so that no divisor but one is smaller.

use vstd::arithmetic::div_mod::{
    lemma_add_mod_noop, lemma_fundamental_div_mod, lemma_mod_mod, lemma_mod_multiples_vanish,
    lemma_mul_mod_noop, lemma_mul_mod_noop_left, lemma_mul_mod_noop_right, lemma_small_mod,
};
use vstd::arithmetic::mul::{lemma_mul_basics, lemma_mul_is_associative, lemma_mul_is_commutative};
use vstd::arithmetic::power::{
    lemma1_pow, lemma_pow0, lemma_pow1, lemma_pow_adds, lemma_pow_mod_noop,
    lemma_pow_multiplies, pow,
};
use vstd::prelude::*;

verus! {

/// That `d` divides `n`.
pub open spec fn divides(d: nat, n: nat) -> bool {
    d > 0 && n % d == 0
}

/// That `n` is at least two and no number strictly between one and `n`
/// divides it.
pub open spec fn is_prime(n: nat) -> bool {
    n >= 2 && forall|d: nat| 1 < d < n ==> !#[trigger] divides(d, n)
}

/// The power of `b` to `e`, modulo `d`.
#[verifier::opaque]
pub open spec fn pow_mod(b: int, e: nat, d: int) -> int {
    pow(b, e) % d
}

/// That `f` is the order of `b` modulo `d`: the least positive exponent to
/// which `b` is one.
pub open spec fn has_order(b: int, d: int, f: nat) -> bool {
    pow_mod(b, f, d) == 1 && forall|k: nat| 0 < k < f ==> #[trigger] pow_mod(b, k, d) != 1
}

/// Powers multiply by adding the exponents.
pub proof fn lemma_pow_mod_adds(b: int, x: nat, y: nat, d: int)
    requires
        d > 0,
    ensures
        pow_mod(b, x + y, d) == (pow_mod(b, x, d) * pow_mod(b, y, d)) % d,
{
    reveal(pow_mod);
    lemma_pow_adds(b, x, y);
    lemma_mul_mod_noop(pow(b, x), pow(b, y), d);
}

/// A power of a power is the power to the product of the exponents.
pub proof fn lemma_pow_mod_multiplies(b: int, x: nat, y: nat, d: int)
    requires
        d > 0,
    ensures
        pow_mod(b, x * y, d) == pow_mod(pow_mod(b, x, d), y, d),
{
    reveal(pow_mod);
    lemma_pow_multiplies(b, x, y);
    lemma_pow_mod_noop(pow(b, x), y, d);
}

/// A power of one is one.
pub proof fn lemma_pow_mod_of_one(e: nat, d: int)
    requires
        d > 1,
    ensures
        pow_mod(1, e, d) == 1,
{
    reveal(pow_mod);
    lemma1_pow(e);
    lemma_small_mod(1, d as nat);
}

/// Modulo a prime, a number that the prime does not divide has an inverse.
pub proof fn lemma_inverse_mod_prime(q: nat, a: nat) -> (c: nat)
    requires
        is_prime(q),
        a % q != 0,
    ensures
        (a * c) % q == 1,
    decreases a % q,
{
    reveal(pow_mod);
    let r = a % q;
    let qi = q as int;
    if r == 1 {
        lemma_mul_basics(a as int);
        1
    } else {
        let t = q / r;
        let rest = q % r;
        lemma_fundamental_div_mod(qi, r as int);
        assert(rest != 0) by {
            if rest == 0 {
                assert(divides(r, q));
            }
        }
        lemma_small_mod(rest, q);
        let s = lemma_inverse_mod_prime(q, rest);
        let neg = -(t * s);
        assert(r * neg == qi * (-(s as int)) + rest * s) by (nonlinear_arith)
            requires
                qi == r * t + rest,
                neg == -(t * s),
        ;
        lemma_mod_multiples_vanish(-(s as int), (rest * s) as int, qi);
        let c = (neg % qi) as nat;
        lemma_mul_mod_noop_right(r as int, neg, qi);
        lemma_mul_mod_noop_left(a as int, c as int, qi);
        c
    }
}

/// A prime that divides a product divides one of the factors.
pub proof fn lemma_prime_divides_factor(q: nat, x: int, y: int)
    requires
        is_prime(q),
        (x * y) % (q as int) == 0,
    ensures
        x % (q as int) == 0 || y % (q as int) == 0,
{
    reveal(pow_mod);
    let qi = q as int;
    let a = (x % qi) as nat;
    if a != 0 {
        lemma_small_mod(a, q);
        let c = lemma_inverse_mod_prime(q, a);
        lemma_mul_mod_noop_left(x, y, qi);
        lemma_mul_mod_noop_right(c as int, a * y, qi);
        lemma_mul_basics(c as int);
        lemma_small_mod(0, q);
        assert((c * (a * y)) % qi == 0);
        lemma_mul_is_associative(c as int, a as int, y);
        lemma_mul_is_commutative(c as int, a as int);
        lemma_mul_mod_noop_left((a * c) as int, y, qi);
        lemma_mul_basics(y);
    }
}

/// An element other than one whose power to a prime `q` is one has no power
/// that is one but those to the multiples of `q`.
pub proof fn lemma_prime_order(b: int, d: int, q: nat, k: nat)
    requires
        is_prime(q),
        d > 1,
        pow_mod(b, q, d) == 1,
        b % d != 1,
        k % q != 0,
    ensures
        pow_mod(b, k, d) != 1,
{
    reveal(pow_mod);
    if pow_mod(b, k, d) == 1 {
        let c = lemma_inverse_mod_prime(q, k);
        let m = ((k * c) / q) as nat;
        lemma_fundamental_div_mod((k * c) as int, q as int);
        assert(k * c == q * m + 1);
        lemma_pow_mod_multiplies(b, k, c, d);
        lemma_pow_mod_of_one(c, d);
        lemma_pow_mod_multiplies(b, q, m, d);
        lemma_pow_mod_of_one(m, d);
        lemma_pow_mod_adds(b, q * m, 1, d);
        lemma_pow1(b);
        lemma_mul_basics(b % d);
        lemma_small_mod((b % d) as nat, d as nat);
        assert(false);
    }
}

/// The powers of an element to the exponents below its order differ.
pub proof fn lemma_powers_distinct(b: int, d: int, f: nat, i: nat, j: nat)
    requires
        d > 1,
        has_order(b, d, f),
        i < j < f,
    ensures
        pow_mod(b, i, d) != pow_mod(b, j, d),
{
    reveal(pow_mod);
    if pow_mod(b, i, d) == pow_mod(b, j, d) {
        let up = (f - i) as nat;
        let gap = (j - i) as nat;
        lemma_pow_mod_adds(b, i, up, d);
        lemma_pow_mod_adds(b, j, up, d);
        assert(j + up == f + gap);
        lemma_pow_mod_adds(b, f, gap, d);
        lemma_mul_basics(pow_mod(b, gap, d));
        lemma_small_mod(pow_mod(b, gap, d) as nat, d as nat);
        assert(pow_mod(b, gap, d) == 1);
        assert(false);
    }
}

/// No function takes the numbers below `q` to different numbers below `d`
/// unless `q` is at most `d`.
pub proof fn lemma_pigeonhole(q: nat, d: nat, f: spec_fn(int) -> int)
    requires
        forall|i: int| 0 <= i < q ==> 0 <= #[trigger] f(i) < d,
        forall|i: int, j: int| 0 <= i < j < q ==> #[trigger] f(i) != #[trigger] f(j),
    ensures
        q <= d,
    decreases q,
{
    reveal(pow_mod);
    if q > 0 {
        let last = f(q - 1);
        let g = |i: int|
            if f(i) > last {
                f(i) - 1
            } else {
                f(i)
            };
        assert forall|i: int| 0 <= i < q - 1 implies 0 <= #[trigger] g(i) < d - 1 by {
            assert(f(i) != f(q - 1));
        }
        assert forall|i: int, j: int| 0 <= i < j < q - 1 implies #[trigger] g(i) != #[trigger] g(
            j,
        ) by {
            assert(f(i) != f(j));
        }
        lemma_pigeonhole((q - 1) as nat, (d - 1) as nat, g);
    }
}

/// The order of an element modulo `d` is at most `d`.
pub proof fn lemma_order_at_most_modulus(b: int, d: int, f: nat)
    requires
        d > 1,
        has_order(b, d, f),
    ensures
        f <= d,
{
    reveal(pow_mod);
    let powers = |i: int| pow_mod(b, i as nat, d);
    assert forall|i: int, j: int| 0 <= i < j < f implies #[trigger] powers(i) != #[trigger] powers(
        j,
    ) by {
        lemma_powers_distinct(b, d, f, i as nat, j as nat);
    }
    lemma_pigeonhole(f, d as nat, powers);
}

/// A number at least two is prime where each of its divisors but one is at
/// least `f`, and `f * f` is above the number.
pub proof fn lemma_prime_by_large_divisors(n: nat, f: nat)
    requires
        n >= 2,
        f * f > n,
        forall|d: nat| d > 1 && #[trigger] divides(d, n) ==> d >= f,
    ensures
        is_prime(n),
{
    reveal(pow_mod);
    assert forall|d: nat| 1 < d < n implies !#[trigger] divides(d, n) by {
        if divides(d, n) {
            let e = n / d;
            lemma_fundamental_div_mod(n as int, d as int);
            assert(n == d * e);
            assert(e > 1) by (nonlinear_arith)
                requires
                    n == d * e,
                    d < n,
                    d > 1,
                    n >= 2,
            ;
            lemma_mul_is_commutative(d as int, e as int);
            vstd::arithmetic::div_mod::lemma_mod_multiples_basic(d as int, e as int);
            assert(divides(e, n));
            assert(d * e >= f * f) by (nonlinear_arith)
                requires
                    d >= f,
                    e >= f,
            ;
        }
    }
}

/// Modulo a divisor of `n` above one, a residue `b` modulo `n` is not one
/// where `b - 1` and `n` have no common divisor: where `x * (b - 1) + y * n`
/// is one.
pub proof fn lemma_not_one_modulo_divisor(n: nat, d: nat, b: int, x: int, y: int)
    requires
        d > 1,
        divides(d, n),
        x * (b - 1) + y * n == 1,
    ensures
        b % (d as int) != 1,
{
    reveal(pow_mod);
    let di = d as int;
    if b % di == 1 {
        vstd::arithmetic::div_mod::lemma_mod_equivalence(b, 1, di);
        lemma_small_mod(1, d);
        lemma_mul_mod_noop_right(x, b - 1, di);
        lemma_mul_mod_noop_right(y, n as int, di);
        lemma_mul_basics(x);
        lemma_mul_basics(y);
        lemma_small_mod(0, d);
        lemma_add_mod_noop(x * (b - 1), y * n, di);
        assert(false);
    }
}

/// A power that is one modulo `n` is one modulo each divisor of `n` above
/// one.
pub proof fn lemma_one_modulo_divisor(n: nat, d: nat, b: int, e: nat)
    requires
        n >= 2,
        d > 1,
        divides(d, n),
        pow_mod(b, e, n as int) == 1,
    ensures
        pow_mod(b, e, d as int) == 1,
{
    reveal(pow_mod);
    let c = n / d;
    lemma_fundamental_div_mod(n as int, d as int);
    assert(n == d * c);
    assert(c > 0) by (nonlinear_arith)
        requires
            n == d * c,
            n > 0,
            d > 0,
    ;
    lemma_mod_mod(pow(b, e), d as int, c as int);
    lemma_small_mod(1, d);
}

/// A number `n` is prime where `b` to a prime `q` is one modulo `n`, `b - 1`
/// and `n` have no common divisor, and `q * q` is above `n`.
pub proof fn lemma_prime_by_order(n: nat, q: nat, b: int, x: int, y: int)
    requires
        n >= 2,
        is_prime(q),
        q * q > n,
        pow_mod(b, q, n as int) == 1,
        x * (b - 1) + y * n == 1,
    ensures
        is_prime(n),
{
    reveal(pow_mod);
    assert forall|d: nat| d > 1 && #[trigger] divides(d, n) implies d >= q by {
        let di = d as int;
        lemma_one_modulo_divisor(n, d, b, q);
        lemma_not_one_modulo_divisor(n, d, b, x, y);
        assert forall|k: nat| 0 < k < q implies #[trigger] pow_mod(b, k, di) != 1 by {
            lemma_small_mod(k, q);
            lemma_prime_order(b, di, q, k);
        }
        lemma_order_at_most_modulus(b, di, q);
    }
    lemma_prime_by_large_divisors(n, q);
}

/// Two different primes do not divide each other.
proof fn lemma_primes_apart(q1: nat, q2: nat)
    requires
        is_prime(q1),
        is_prime(q2),
        q1 != q2,
    ensures
        q1 % q2 != 0,
{
    reveal(pow_mod);
    if q1 % q2 == 0 {
        if q2 < q1 {
            assert(divides(q2, q1));
        } else {
            lemma_small_mod(q1, q2);
        }
    }
}

/// An element whose powers to the primes `q1` and `q2` are not one, and
/// whose power to their product is, has no smaller positive power that is
/// one.
proof fn lemma_order_of_two_primes(g: int, d: int, q1: nat, q2: nat, k: nat)
    requires
        is_prime(q1),
        is_prime(q2),
        q1 != q2,
        d > 1,
        pow_mod(g, q1 * q2, d) == 1,
        pow_mod(g, q1, d) != 1,
        pow_mod(g, q2, d) != 1,
        0 < k < q1 * q2,
    ensures
        pow_mod(g, k, d) != 1,
{
    reveal(pow_mod);
    if pow_mod(g, k, d) == 1 {
        lemma_mul_is_commutative(q1 as int, q2 as int);
        if k % q1 != 0 {
            // The power to `q2` has order `q1`.
            let u = pow_mod(g, q2, d);
            lemma_pow_mod_multiplies(g, q2, q1, d);
            lemma_small_mod(u as nat, d as nat);
            lemma_pow_mod_multiplies(g, q2, k, d);
            lemma_mul_is_commutative(q2 as int, k as int);
            lemma_pow_mod_multiplies(g, k, q2, d);
            lemma_pow_mod_of_one(q2, d);
            lemma_prime_order(u, d, q1, k);
        } else if k % q2 != 0 {
            // The power to `q1` has order `q2`.
            let v = pow_mod(g, q1, d);
            lemma_pow_mod_multiplies(g, q1, q2, d);
            lemma_small_mod(v as nat, d as nat);
            lemma_pow_mod_multiplies(g, q1, k, d);
            lemma_mul_is_commutative(q1 as int, k as int);
            lemma_pow_mod_multiplies(g, k, q1, d);
            lemma_pow_mod_of_one(q1, d);
            lemma_prime_order(v, d, q2, k);
        } else {
            // Both primes divide `k`, and so does their product.
            let k1 = k / q1;
            lemma_fundamental_div_mod(k as int, q1 as int);
            assert(k == q1 * k1);
            lemma_prime_divides_factor(q2, q1 as int, k1 as int);
            lemma_primes_apart(q1, q2);
            let k2 = k1 / q2;
            lemma_fundamental_div_mod(k1 as int, q2 as int);
            assert(k1 == q2 * k2);
            assert(k == (q1 * q2) * k2) by (nonlinear_arith)
                requires
                    k == q1 * k1,
                    k1 == q2 * k2,
            ;
            assert(k2 >= 1) by (nonlinear_arith)
                requires
                    k == (q1 * q2) * k2,
                    k > 0,
            ;
            assert((q1 * q2) * k2 >= q1 * q2) by (nonlinear_arith)
                requires
                    k2 >= 1,
            ;
        }
        assert(false);
    }
}

/// A number `n` is prime where `g` to the product of two different primes
/// is one modulo `n`, the powers `h1` of `g` to the second and `h2` of `g` to
/// the first are such that neither `h1 - 1` nor `h2 - 1` has a common
/// divisor with `n`, and the square of the product is above `n`.
pub proof fn lemma_prime_by_order_of_two(
    n: nat,
    q1: nat,
    q2: nat,
    g: int,
    h1: int,
    x1: int,
    y1: int,
    h2: int,
    x2: int,
    y2: int,
)
    requires
        n >= 2,
        is_prime(q1),
        is_prime(q2),
        q1 != q2,
        (q1 * q2) * (q1 * q2) > n,
        pow_mod(g, q1 * q2, n as int) == 1,
        pow_mod(g, q2, n as int) == h1,
        pow_mod(g, q1, n as int) == h2,
        x1 * (h1 - 1) + y1 * n == 1,
        x2 * (h2 - 1) + y2 * n == 1,
    ensures
        is_prime(n),
{
    reveal(pow_mod);
    let f = q1 * q2;
    assert forall|d: nat| d > 1 && #[trigger] divides(d, n) implies d >= f by {
        let di = d as int;
        let c = n / d;
        lemma_fundamental_div_mod(n as int, di);
        assert(n == d * c);
        assert(c > 0) by (nonlinear_arith)
            requires
                n == d * c,
                n > 0,
                d > 0,
        ;
        lemma_one_modulo_divisor(n, d, g, f);
        lemma_not_one_modulo_divisor(n, d, h1, x1, y1);
        lemma_not_one_modulo_divisor(n, d, h2, x2, y2);
        lemma_mod_mod(pow(g, q2), di, c as int);
        lemma_mod_mod(pow(g, q1), di, c as int);
        assert forall|k: nat| 0 < k < f implies #[trigger] pow_mod(g, k, di) != 1 by {
            lemma_order_of_two_primes(g, di, q1, q2, k);
        }
        lemma_order_at_most_modulus(g, di, f);
    }
    lemma_prime_by_large_divisors(n, f);
}

/// The power to the exponent zero is one.
pub proof fn lemma_power_zero(b: int, n: int)
    requires
        n > 1,
    ensures
        pow_mod(b, 0, n) == 1,
{
    reveal(pow_mod);
    lemma_pow0(b);
    lemma_small_mod(1, n as nat);
}

/// One step of square and multiply for a bit that is zero: the power to
/// twice the exponent is the square of the power.
pub proof fn lemma_power_doubled(b: int, n: int, x: int, e: nat, x_next: int)
    requires
        n > 1,
        pow_mod(b, e, n) == x,
        x_next == (x * x) % n,
    ensures
        pow_mod(b, 2 * e, n) == x_next,
{
    reveal(pow_mod);
    lemma_pow_mod_adds(b, e, e, n);
}

/// One step of square and multiply for a bit that is one: the power to
/// twice the exponent plus one is the square of the power times the base.
pub proof fn lemma_power_doubled_plus_one(b: int, n: int, x: int, e: nat, x_next: int)
    requires
        n > 1,
        pow_mod(b, e, n) == x,
        x_next == (((x * x) % n) * b) % n,
    ensures
        pow_mod(b, 2 * e + 1, n) == x_next,
{
    reveal(pow_mod);
    lemma_pow_mod_adds(b, e, e, n);
    lemma_pow_mod_adds(b, 2 * e, 1, n);
    lemma_pow1(b);
    lemma_mul_mod_noop_right((x * x) % n, b, n);
}

/// The primes 67, 103 and 113.
pub proof fn lemma_small_primes()
    ensures
        is_prime(67),
        is_prime(103),
        is_prime(113),
{
    reveal(pow_mod);
    assert forall|d: nat| d > 1 && #[trigger] divides(d, 67) implies d >= 9 by {
        if d == 2 {
        } else if d == 3 {
        } else if d == 4 {
        } else if d == 5 {
        } else if d == 6 {
        } else if d == 7 {
        } else if d == 8 {
        }
    }
    lemma_prime_by_large_divisors(67, 9);
    assert forall|d: nat| d > 1 && #[trigger] divides(d, 103) implies d >= 11 by {
        if d == 2 {
        } else if d == 3 {
        } else if d == 4 {
        } else if d == 5 {
        } else if d == 6 {
        } else if d == 7 {
        } else if d == 8 {
        } else if d == 9 {
        } else if d == 10 {
        }
    }
    lemma_prime_by_large_divisors(103, 11);
    assert forall|d: nat| d > 1 && #[trigger] divides(d, 113) implies d >= 11 by {
        if d == 2 {
        } else if d == 3 {
        } else if d == 4 {
        } else if d == 5 {
        } else if d == 6 {
        } else if d == 7 {
        } else if d == 8 {
        } else if d == 9 {
        } else if d == 10 {
        }
    }
    lemma_prime_by_large_divisors(113, 11);
}

} // verus!
