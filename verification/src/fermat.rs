//! Fermat's little theorem: modulo a prime `q`, a number that `q` does not
//! divide, raised to `q - 1`, is one.
//!
//! The multiples of the number by one up to `q - 1`, reduced modulo `q`, are
//! the numbers from one to `q - 1` in another order. Their product is the
//! factorial of `q - 1` on the one hand, and congruent to that factorial
//! times the power on the other.

use crate::pocklington::{is_prime, lemma_pigeonhole, lemma_prime_divides_factor};
use vstd::arithmetic::div_mod::{
    lemma_mod_equivalence, lemma_mul_mod_noop, lemma_mul_mod_noop_right, lemma_small_mod,
};
use vstd::arithmetic::mul::{lemma_mul_is_associative, lemma_mul_is_commutative};
use vstd::arithmetic::power::{lemma_pow0, pow};
use vstd::prelude::*;

verus! {

/// The product of the numbers of a sequence.
pub open spec fn product(s: Seq<int>) -> int
    decreases s.len(),
{
    if s.len() == 0 {
        1
    } else {
        product(s.drop_last()) * s.last()
    }
}

/// The product of the numbers from one to `n`.
pub open spec fn factorial(n: nat) -> int
    decreases n,
{
    if n == 0 {
        1
    } else {
        factorial((n - 1) as nat) * n
    }
}

/// The multiples of `a` by one up to `n`, reduced modulo `q`.
pub open spec fn multiples(a: int, q: int, n: nat) -> Seq<int> {
    Seq::new(n, |i: int| (a * (i + 1)) % q)
}

/// The product of a sequence is one of its numbers times the product of the
/// others.
pub proof fn lemma_product_remove(s: Seq<int>, j: int)
    requires
        0 <= j < s.len(),
    ensures
        product(s) == s[j] * product(s.remove(j)),
    decreases s.len(),
{
    let front = s.drop_last();
    if j == s.len() - 1 {
        assert(s.remove(j) =~= front);
        lemma_mul_is_commutative(product(front), s.last());
    } else {
        lemma_product_remove(front, j);
        let rest = s.remove(j);
        assert(rest.drop_last() =~= front.remove(j));
        assert(rest.last() == s.last());
        lemma_mul_is_associative(s[j], product(front.remove(j)), s.last());
    }
}

/// The product of `n` different numbers from one to `n` is the factorial
/// of `n`.
pub proof fn lemma_product_of_arrangement(n: nat, t: Seq<int>)
    requires
        t.len() == n,
        forall|i: int| 0 <= i < n ==> 1 <= #[trigger] t[i] <= n,
        forall|i: int, j: int| 0 <= i < j < n ==> #[trigger] t[i] != #[trigger] t[j],
    ensures
        product(t) == factorial(n),
    decreases n,
{
    if n > 0 {
        if !exists|j: int| 0 <= j < n && #[trigger] t[j] == n {
            let shifted = |i: int| t[i] - 1;
            assert forall|i: int| 0 <= i < n implies 0 <= #[trigger] shifted(i) < n - 1 by {
                assert(t[i] != n);
            }
            assert forall|i: int, j: int| 0 <= i < j < n implies #[trigger] shifted(i)
                != #[trigger] shifted(j) by {
                assert(t[i] != t[j]);
            }
            lemma_pigeonhole(n, (n - 1) as nat, shifted);
            assert(false);
        }
        let j = choose|j: int| 0 <= j < n && #[trigger] t[j] == n;
        let rest = t.remove(j);
        assert forall|i: int| 0 <= i < n - 1 implies 1 <= #[trigger] rest[i] <= n - 1 by {
            if i < j {
                assert(rest[i] == t[i]);
                assert(t[i] != t[j]);
            } else {
                assert(rest[i] == t[i + 1]);
                assert(t[j] != t[i + 1]);
            }
        }
        assert forall|i: int, k: int| 0 <= i < k < n - 1 implies #[trigger] rest[i]
            != #[trigger] rest[k] by {
            let si = if i < j {
                i
            } else {
                i + 1
            };
            let sk = if k < j {
                k
            } else {
                k + 1
            };
            assert(rest[i] == t[si]);
            assert(rest[k] == t[sk]);
            assert(t[si] != t[sk]);
        }
        lemma_product_of_arrangement((n - 1) as nat, rest);
        lemma_product_remove(t, j);
        lemma_mul_is_commutative(n as int, factorial((n - 1) as nat));
    }
}

/// The product of the multiples of `a` by one up to `n` is congruent to the
/// power of `a` to `n` times the factorial of `n`.
pub proof fn lemma_product_of_multiples(a: int, q: int, n: nat)
    requires
        q > 0,
    ensures
        product(multiples(a, q, n)) % q == (pow(a, n) * factorial(n)) % q,
    decreases n,
{
    if n == 0 {
        lemma_pow0(a);
    } else {
        let m = (n - 1) as nat;
        let s = multiples(a, q, n);
        lemma_product_of_multiples(a, q, m);
        assert(s.drop_last() =~= multiples(a, q, m));
        assert(s.last() == (a * n) % q);
        let front = product(multiples(a, q, m));
        lemma_mul_mod_noop_right(front, a * n, q);
        lemma_mul_mod_noop(front, a * n, q);
        lemma_mul_mod_noop(pow(a, m) * factorial(m), a * n, q);
        reveal(pow);
        assert((pow(a, m) * factorial(m)) * (a * n) == (a * pow(a, m)) * (factorial(m) * n))
            by (nonlinear_arith);
    }
}

/// A prime does not divide the factorial of a smaller number.
pub proof fn lemma_factorial_apart(q: nat, n: nat)
    requires
        is_prime(q),
        n < q,
    ensures
        factorial(n) % (q as int) != 0,
    decreases n,
{
    if n == 0 {
        lemma_small_mod(1, q);
    } else {
        lemma_factorial_apart(q, (n - 1) as nat);
        if factorial(n) % (q as int) == 0 {
            lemma_prime_divides_factor(q, factorial((n - 1) as nat), n as int);
            lemma_small_mod(n, q);
            assert(false);
        }
    }
}

/// Fermat's little theorem.
pub proof fn lemma_fermat(q: nat, a: nat)
    requires
        is_prime(q),
        a % q != 0,
    ensures
        pow(a as int, (q - 1) as nat) % (q as int) == 1,
{
    let n = (q - 1) as nat;
    let qi = q as int;
    let ai = a as int;
    let t = multiples(ai, qi, n);
    assert forall|i: int| 0 <= i < n implies 1 <= #[trigger] t[i] <= n by {
        if t[i] == 0 {
            lemma_prime_divides_factor(q, ai, i + 1);
            lemma_small_mod((i + 1) as nat, q);
            assert(false);
        }
    }
    assert forall|i: int, j: int| 0 <= i < j < n implies #[trigger] t[i] != #[trigger] t[j] by {
        if t[i] == t[j] {
            lemma_mod_equivalence(ai * (j + 1), ai * (i + 1), qi);
            assert(ai * (j + 1) - ai * (i + 1) == ai * (j - i)) by (nonlinear_arith);
            lemma_prime_divides_factor(q, ai, j - i);
            lemma_small_mod((j - i) as nat, q);
            assert(false);
        }
    }
    lemma_product_of_arrangement(n, t);
    lemma_product_of_multiples(ai, qi, n);
    lemma_factorial_apart(q, n);
    let f = factorial(n);
    let w = pow(ai, n);
    lemma_mod_equivalence(w * f, f, qi);
    assert(w * f - f == (w - 1) * f) by (nonlinear_arith);
    lemma_prime_divides_factor(q, w - 1, f);
    lemma_mod_equivalence(w, 1, qi);
    lemma_small_mod(1, q);
}

} // verus!
