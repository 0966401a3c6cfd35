//! Powers of ten, by which whole tokens become base units.

use vstd::prelude::*;
use vstd::arithmetic::power::{pow, lemma_pow_increases};

verus! {

/// The largest exponent `e` for which `10^e` fits in a `u64`.
pub const MAX_POW10_EXP: u32 = 19;

/// `10^exp` as an integer.
pub open spec fn pow10_spec(exp: nat) -> int {
    pow(10, exp)
}

/// `10^exp`, as `10u64.pow(exp)` computes it.
pub fn pow10(exp: u32) -> (r: u64)
    requires
        exp <= MAX_POW10_EXP,
    ensures
        r == pow10_spec(exp as nat),
{
    proof {
        reveal_with_fuel(pow, 20);
        assert(pow(10, 19) == 10_000_000_000_000_000_000int);
    }
    let mut r: u64 = 1;
    let mut i: u32 = 0;
    while i < exp
        invariant
            i <= exp <= MAX_POW10_EXP,
            r == pow(10, i as nat),
            pow(10, 19) == 10_000_000_000_000_000_000int,
        decreases exp - i,
    {
        proof {
            lemma_pow_increases(10, (i + 1) as nat, 19);
            reveal_with_fuel(pow, 2);
        }
        r = r * 10;
        i = i + 1;
    }
    r
}

/// Powers of ten start at one and grow tenfold with each step of the
/// exponent.
pub proof fn lemma_pow10_steps(exp: nat)
    ensures
        pow10_spec(0) == 1,
        pow10_spec(exp + 1) == 10 * pow10_spec(exp),
        pow10_spec(exp) == pow(10, exp),
{
    reveal_with_fuel(pow, 2);
}

} // verus!
