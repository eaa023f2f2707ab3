//! Modular stepping of grid coordinates.

use vstd::arithmetic::div_mod::{lemma_mod_add_multiples_vanish, lemma_small_mod};
use vstd::prelude::*;

verus! {

/// Relies on num's `Integer::mod_floor` for `usize`: on unsigned integers it
/// is the remainder `a % b`. It panics when `b` is zero.
#[verifier::external_body]
pub(crate) fn mod_floor_usize(a: usize, b: usize) -> (r: usize)
    requires
        b > 0,
    ensures
        r == a % b,
{
    num::Integer::mod_floor(&a, &b)
}

/// Relies on num's `Integer::mod_floor` for `u64`: on unsigned integers it
/// is the remainder `a % b`. It panics when `b` is zero.
#[verifier::external_body]
pub(crate) fn mod_floor_u64(a: u64, b: u64) -> (r: u64)
    requires
        b > 0,
    ensures
        r == a % b,
{
    num::Integer::mod_floor(&a, &b)
}

/// `(a + b) mod LIMIT`.
pub fn safe_add<const LIMIT: usize>(a: usize, b: usize) -> (r: usize)
    requires
        LIMIT > 0,
        a + b <= usize::MAX,
    ensures
        r == (a + b) % (LIMIT as int),
        r < LIMIT,
{
    mod_floor_usize(a + b, LIMIT)
}

/// One step forward on a ring of `LIMIT` positions.
pub fn add1<const LIMIT: usize>(value: usize) -> (r: usize)
    requires
        LIMIT > 0,
        value < LIMIT,
    ensures
        r == (value + 1) % (LIMIT as int),
        r == if value + 1 == LIMIT { 0 } else { value + 1 },
{
    proof {
        if value + 1 == LIMIT {
            lemma_mod_add_multiples_vanish(0, LIMIT as int);
            lemma_small_mod(0, LIMIT as nat);
        } else {
            lemma_small_mod((value + 1) as nat, LIMIT as nat);
        }
    }
    safe_add::<LIMIT>(value, 1)
}

/// One step backward on a ring of `LIMIT` positions.
pub fn sub1<const LIMIT: usize>(value: usize) -> (r: usize)
    requires
        LIMIT > 0,
        value < LIMIT,
        value + (LIMIT - 1) <= usize::MAX,
    ensures
        r == (value + LIMIT - 1) % (LIMIT as int),
        r == if value == 0 { LIMIT - 1 } else { value - 1 },
{
    proof {
        if value == 0 {
            lemma_small_mod((LIMIT - 1) as nat, LIMIT as nat);
        } else {
            lemma_mod_add_multiples_vanish(value - 1, LIMIT as int);
            lemma_small_mod((value - 1) as nat, LIMIT as nat);
        }
    }
    safe_add::<LIMIT>(value, LIMIT - 1)
}

} // verus!
