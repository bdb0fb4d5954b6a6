//! The memory workload: a large map from integers to their decimal notation,
//! and a checksum over a part of it.

use crate::decimal::{decimal_digits, decimal_string, lemma_decimal_digits};
use std::collections::HashMap;
use vstd::prelude::*;

verus! {

/// The number of digits that it takes to write down every integer below `n`.
pub open spec fn digits_total(n: nat) -> nat
    decreases n,
{
    if n == 0 {
        0
    } else {
        digits_total((n - 1) as nat) + decimal_digits((n - 1) as nat).len()
    }
}

/// The smaller of two numbers.
pub open spec fn smaller(a: nat, b: nat) -> nat {
    if a <= b {
        a
    } else {
        b
    }
}

/// `digits_total` in closed form up to 10,000, and bounded as long as the
/// integers fit in 64 bits.
pub proof fn lemma_digits_total(n: nat)
    ensures
        n <= 10 ==> digits_total(n) == n,
        10 <= n <= 100 ==> digits_total(n) == 2 * n - 10,
        100 <= n <= 1000 ==> digits_total(n) == 3 * n - 110,
        1000 <= n <= 10000 ==> digits_total(n) == 4 * n - 1110,
        n <= u64::MAX ==> digits_total(n) <= 20 * n,
    decreases n,
{
    if n > 0 {
        lemma_digits_total((n - 1) as nat);
        lemma_decimal_digits((n - 1) as nat);
    }
}

/// Fills a map with the keys `0 .. inserts`, each with its decimal notation
/// as the value, then looks up the keys `0 .. probes` and adds up the byte
/// lengths of the values found.
pub fn memory_checksum(inserts: u32, probes: u32) -> (checksum: u64)
    ensures
        checksum == digits_total(smaller(inserts as nat, probes as nat)),
{
    let mut map: HashMap<u32, String> = HashMap::new();
    for i in 0..inserts
        invariant
            forall|k: u32| k < i ==> #[trigger] map@.contains_key(k),
            forall|k: u32| #[trigger] map@.contains_key(k) ==> k < i && map@[k]@ == decimal_digits(k as nat),
    {
        map.insert(i, decimal_string(i as u64));
    }
    let mut checksum: u64 = 0;
    for i in 0..probes
        invariant
            forall|k: u32| k < inserts ==> #[trigger] map@.contains_key(k),
            forall|k: u32| #[trigger] map@.contains_key(k) ==> k < inserts && map@[k]@ == decimal_digits(k as nat),
            checksum == digits_total(smaller(inserts as nat, i as nat)),
    {
        if let Some(value) = map.get(&i) {
            let text = value.as_str();
            proof {
                lemma_decimal_digits(i as nat);
                lemma_digits_total(i as nat);
                vstd::string::is_ascii_spec_bytes(text);
            }
            checksum += text.len() as u64;
        }
    }
    checksum
}

} // verus!
