//! Primality by trial division, and counting the primes below a bound.

use vstd::prelude::*;

verus! {

/// `d` is a positive divisor of `n`.
pub open spec fn divides(d: nat, n: nat) -> bool {
    d != 0 && n % d == 0
}

/// A prime is a number from 2 upwards that nothing between 2 and itself divides.
pub open spec fn is_prime_number(n: nat) -> bool {
    n >= 2 && forall|d: nat| 2 <= d < n ==> !#[trigger] divides(d, n)
}

/// The primes that lie strictly below `bound`.
pub open spec fn primes_below(bound: nat) -> Set<nat> {
    Set::new(|p: nat| p < bound && is_prime_number(p))
}

/// How many primes lie strictly below `bound`.
pub open spec fn prime_count(bound: nat) -> nat {
    primes_below(bound).len()
}

/// A divisor of a divisor is a divisor.
pub proof fn lemma_divides_transitive(a: nat, b: nat, n: nat)
    requires
        divides(a, b),
        divides(b, n),
    ensures
        divides(a, n),
{
    let k: nat = b / a;
    let m: nat = n / b;
    assert(b == a * k) by (nonlinear_arith)
        requires
            a != 0,
            b % a == 0,
            k == b / a,
    ;
    assert(n == b * m) by (nonlinear_arith)
        requires
            b != 0,
            n % b == 0,
            m == n / b,
    ;
    assert(n == (k * m) * a) by (nonlinear_arith)
        requires
            b == a * k,
            n == b * m,
    ;
    vstd::arithmetic::div_mod::lemma_mod_multiples_basic((k * m) as int, a as int);
}

/// A number with a proper divisor has one whose square does not exceed it.
pub proof fn lemma_small_divisor(d: nat, n: nat) -> (e: nat)
    requires
        2 <= d < n,
        divides(d, n),
    ensures
        2 <= e < n,
        divides(e, n),
        e * e <= n,
{
    let q: nat = n / d;
    assert(n == d * q && n == q * d) by (nonlinear_arith)
        requires
            d != 0,
            n % d == 0,
            q == n / d,
    ;
    assert(2 <= q < n) by (nonlinear_arith)
        requires
            n == d * q,
            2 <= d < n,
    ;
    assert(n % q == 0) by (nonlinear_arith)
        requires
            n == q * d,
            q != 0,
    ;
    if d <= q {
        assert(d * d <= n) by (nonlinear_arith)
            requires
                n == d * q,
                d <= q,
        ;
        d
    } else {
        assert(q * q <= n) by (nonlinear_arith)
            requires
                n == d * q,
                q <= d,
        ;
        q
    }
}

/// Whether `n` is prime, by trial division: after 2 and 3, only the candidates
/// `i` and `i + 2` for `i = 5, 11, 17, ...` are tried, as long as `i * i <= n`.
pub fn is_prime(n: u32) -> (prime: bool)
    ensures
        prime == is_prime_number(n as nat),
{
    if n <= 1 {
        return false;
    }
    if n <= 3 {
        assert(is_prime_number(n as nat)) by {
            assert(!divides(2, 3));
        }
        return true;
    }
    if n % 2 == 0 || n % 3 == 0 {
        assert(divides(2, n as nat) || divides(3, n as nat));
        return false;
    }
    proof {
        if divides(4, n as nat) {
            assert(divides(2, 4));
            lemma_divides_transitive(2, 4, n as nat);
        }
    }
    let mut i: u32 = 5;
    let mut square: u64 = 25;
    while square <= n as u64
        invariant
            n > 3,
            5 <= i <= 65541,
            i % 6 == 5,
            square == i * i,
            forall|d: nat| 2 <= d < i ==> !#[trigger] divides(d, n as nat),
        decreases 65541 - i,
    {
        assert(i <= 65535 && i + 2 < n) by (nonlinear_arith)
            requires
                i * i <= n,
                n <= 0xffff_ffff,
                5 <= i,
        ;
        if n % i == 0 || n % (i + 2) == 0 {
            assert(divides(i as nat, n as nat) || divides((i + 2) as nat, n as nat));
            return false;
        }
        proof {
            let m = n as nat;
            assert(!divides(2, m));
            assert(!divides(3, m));
            assert forall|d: nat| 2 <= d < i + 6 implies !#[trigger] divides(d, m) by {
                if d >= i && divides(d, m) {
                    if d == i + 4 {
                        assert(divides(3, d));
                        lemma_divides_transitive(3, d, m);
                    } else if d != i && d != i + 2 {
                        assert(divides(2, d));
                        lemma_divides_transitive(2, d, m);
                    }
                }
            }
        }
        i += 6;
        assert(i * i <= 0xffff_ffff_ffff) by (nonlinear_arith)
            requires
                i <= 65541,
        ;
        square = (i as u64) * (i as u64);
    }
    proof {
        let m = n as nat;
        assert forall|d: nat| 2 <= d < m implies !#[trigger] divides(d, m) by {
            if divides(d, m) {
                let e = lemma_small_divisor(d, m);
                assert(e < i) by (nonlinear_arith)
                    requires
                        e * e <= m,
                        m < i * i,
                ;
            }
        }
    }
    true
}

/// The primes below a bound form a finite set, one that grows by the bound
/// itself when the bound is prime and not at all otherwise.
pub proof fn lemma_primes_below_step(bound: nat)
    ensures
        primes_below(bound).finite(),
        prime_count(bound) <= bound,
        bound <= 2 ==> prime_count(bound) == 0,
        prime_count(bound + 1) == prime_count(bound) + if is_prime_number(bound) {
            1nat
        } else {
            0nat
        },
    decreases bound,
{
    if bound == 0 {
        assert(primes_below(0) =~= Set::<nat>::empty());
        assert(primes_below(1) =~= Set::<nat>::empty());
    } else {
        lemma_primes_below_step((bound - 1) as nat);
        if is_prime_number((bound - 1) as nat) {
            assert(primes_below(bound) =~= primes_below((bound - 1) as nat).insert(
                (bound - 1) as nat,
            ));
        } else {
            assert(primes_below(bound) =~= primes_below((bound - 1) as nat));
        }
        if is_prime_number(bound) {
            assert(primes_below(bound + 1) =~= primes_below(bound).insert(bound));
        } else {
            assert(primes_below(bound + 1) =~= primes_below(bound));
        }
    }
}

/// Counts the primes strictly below `bound`, testing each candidate from 2 on.
pub fn count_primes_below(bound: u32) -> (count: u32)
    ensures
        count == prime_count(bound as nat),
{
    let mut count: u32 = 0;
    let mut n: u32 = 2;
    proof {
        lemma_primes_below_step(2);
    }
    while n < bound
        invariant
            2 <= n,
            n <= bound || n == 2,
            count <= n,
            count == prime_count(n as nat),
        decreases bound - n,
    {
        proof {
            lemma_primes_below_step(n as nat);
        }
        if is_prime(n) {
            count += 1;
        }
        n += 1;
    }
    proof {
        lemma_primes_below_step(2);
        lemma_primes_below_step(bound as nat);
    }
    count
}

} // verus!
