//! Bisection root finding, split into its verified decisions and the
//! floating-point arithmetic that a caller drives them with.
use vstd::prelude::*;

pub mod bisection;
pub mod exact;

verus! {

/// The value one past the largest `u64`: sums of two `u64`s wrap around it.
pub open spec fn u64_modulus() -> int {
    u64::MAX as int + 1
}

/// The sum of two unsigned 64-bit integers, wrapping around at `u64::MAX`.
pub fn add(left: u64, right: u64) -> (r: u64)
    ensures
        r == (left as int + right as int) % u64_modulus(),
{
    let r = left.wrapping_add(right);
    assert(r == (left as int + right as int) % u64_modulus()) by {
        if left as int + right as int > u64::MAX as int {
            assert((left as int + right as int) % u64_modulus() == left as int + right as int
                - u64_modulus()) by {
                vstd::arithmetic::div_mod::lemma_fundamental_div_mod_converse(
                    left as int + right as int,
                    u64_modulus(),
                    1,
                    left as int + right as int - u64_modulus(),
                );
            }
        } else {
            vstd::arithmetic::div_mod::lemma_small_mod(
                (left as int + right as int) as nat,
                u64_modulus() as nat,
            );
        }
    }
    r
}

} // verus!
