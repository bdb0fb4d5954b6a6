use benchmark_bot::primes::{count_primes_below, is_prime};

fn has_no_divisor(n: u32) -> bool {
    if n < 2 {
        return false;
    }
    let mut d: u32 = 2;
    while d < n {
        if n % d == 0 {
            return false;
        }
        d += 1;
    }
    true
}

#[test]
fn zero_and_one_are_not_prime() {
    assert!(!is_prime(0));
    assert!(!is_prime(1));
}

#[test]
fn two_and_three_are_prime() {
    assert!(is_prime(2));
    assert!(is_prime(3));
}

#[test]
fn four_is_not_prime() {
    assert!(!is_prime(4));
}

#[test]
fn nine_is_not_prime() {
    assert!(!is_prime(9));
}

#[test]
fn twenty_five_is_not_prime() {
    assert!(!is_prime(25));
}

#[test]
fn twenty_nine_is_prime() {
    assert!(is_prime(29));
}

#[test]
fn squares_of_primes_are_not_prime() {
    assert!(!is_prime(49));
    assert!(!is_prime(121));
    assert!(!is_prime(169));
    assert!(!is_prime(65521 * 65521));
}

#[test]
fn products_of_candidate_pairs_are_not_prime() {
    assert!(!is_prime(5 * 7));
    assert!(!is_prime(11 * 13));
    assert!(!is_prime(7 * 11));
    assert!(!is_prime(65519 * 65521));
}

#[test]
fn primality_at_the_top_of_the_range() {
    assert!(is_prime(4_294_967_291));
    assert!(!is_prime(4_294_967_293));
    assert!(!is_prime(4_294_967_295));
    assert!(is_prime(2_147_483_647));
}

#[test]
fn trial_division_agrees_with_the_definition() {
    for n in 0..3000u32 {
        assert_eq!(is_prime(n), has_no_divisor(n), "at {}", n);
    }
}

#[test]
fn the_primes_below_one_hundred_thousand() {
    assert_eq!(count_primes_below(100_000), 9592);
}

#[test]
fn the_primes_below_small_bounds() {
    assert_eq!(count_primes_below(0), 0);
    assert_eq!(count_primes_below(1), 0);
    assert_eq!(count_primes_below(2), 0);
    assert_eq!(count_primes_below(3), 1);
    assert_eq!(count_primes_below(4), 2);
    assert_eq!(count_primes_below(10), 4);
    assert_eq!(count_primes_below(100), 25);
    assert_eq!(count_primes_below(1000), 168);
}

#[test]
fn the_bound_itself_is_not_counted() {
    assert_eq!(count_primes_below(29), 9);
    assert_eq!(count_primes_below(30), 10);
}
