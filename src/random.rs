//! The seeded pseudo-random generator used to place apples.

use crate::arith::mod_floor_u64;
use crate::driver::SnakeDriver;
use vstd::arithmetic::div_mod::lemma_mul_mod_noop_left;
use vstd::arithmetic::power::pow;
use vstd::prelude::*;

verus! {

/// The seed after one stirring step.
pub open spec fn stir(s: u32) -> u32 {
    ((s as int + s as int * (s as int % 256)) % 0x1_0000_0000) as u32
}

/// Stirs a seed once.
pub fn stir_seed(s: u32) -> (r: u32)
    ensures
        r == stir(s),
{
    let w = s as u64;
    assert(w * (w % 256) <= 0xffff_ffff * 255) by (nonlinear_arith)
        requires
            w <= 0xffff_ffff,
            w % 256 < 256,
    ;
    ((w + w * (w % 256)) % 0x1_0000_0000) as u32
}

/// The largest value of a 32-bit word, the modulus of the fallback step.
pub const WORD_MAX: u64 = 0xffff_ffff;

/// `base` to the power `e`, or `None` when that does not fit in 64 bits.
pub fn checked_power(base: u64, e: u32) -> (r: Option<u64>)
    ensures
        r == if pow(base as int, e as nat) <= u64::MAX {
            Some(pow(base as int, e as nat) as u64)
        } else {
            None::<u64>
        },
{
    let mut acc: Option<u64> = Some(1);
    let mut k: u32 = 0;
    proof {
        reveal(pow);
    }
    while k < e
        invariant
            k <= e,
            acc == if pow(base as int, k as nat) <= u64::MAX {
                Some(pow(base as int, k as nat) as u64)
            } else {
                None::<u64>
            },
        decreases e - k,
    {
        proof {
            reveal(pow);
            assert(pow(base as int, (k + 1) as nat) == base * pow(base as int, k as nat));
            lemma_pow_nonneg(base as int, k as nat);
            if pow(base as int, k as nat) > u64::MAX {
                assert(base >= 2) by {
                    if base == 0 {
                        lemma_pow_zero_base(k as nat);
                    } else if base == 1 {
                        lemma_pow_one_base(k as nat);
                    }
                }
                assert(base * pow(base as int, k as nat) >= pow(base as int, k as nat)) by (nonlinear_arith)
                    requires
                        base >= 2,
                        pow(base as int, k as nat) >= 0,
                ;
            }
        }
        acc = match acc {
            Some(v) => {
                proof {
                    assert(v * base == base * v) by (nonlinear_arith);
                }
                v.checked_mul(base)
            },
            None => None,
        };
        k = k + 1;
    }
    acc
}

/// `0` to a power is at most `1`.
proof fn lemma_pow_zero_base(k: nat)
    ensures
        pow(0, k) <= 1,
    decreases k,
{
    reveal(pow);
    if k > 0 {
        lemma_pow_zero_base((k - 1) as nat);
    }
}

/// `1` to any power is `1`.
proof fn lemma_pow_one_base(k: nat)
    ensures
        pow(1, k) == 1,
    decreases k,
{
    reveal(pow);
    if k > 0 {
        lemma_pow_one_base((k - 1) as nat);
    }
}

/// A power of a natural number is natural.
proof fn lemma_pow_nonneg(b: int, k: nat)
    requires
        b >= 0,
    ensures
        pow(b, k) >= 0,
    decreases k,
{
    reveal(pow);
    if k > 0 {
        lemma_pow_nonneg(b, (k - 1) as nat);
        assert(b * pow(b, (k - 1) as nat) >= 0) by (nonlinear_arith)
            requires
                b >= 0,
                pow(b, (k - 1) as nat) >= 0,
        ;
    }
}

/// One mixing step of the generator: `a` to the power `i`, plus the head
/// column, or where that overflows, `a * i` reduced modulo `WORD_MAX`.
pub open spec fn mix_step(a: u64, i: nat, col: u64) -> u64 {
    if pow(a as int, i) + col <= u64::MAX {
        (pow(a as int, i) + col) as u64
    } else {
        ((a as int * i) % (WORD_MAX as int)) as u64
    }
}

/// The mixing steps `i`, `i + 1`, ..., `n - 1` applied to `a`.
pub open spec fn mix(a: u64, i: nat, n: nat, col: u64) -> u64
    decreases n - i,
{
    if i >= n {
        a
    } else {
        mix(mix_step(a, i, col), i + 1, n, col)
    }
}

/// The seed after a draw, and the value drawn, from a seed, the snake's
/// length and the head column.
pub open spec fn draw(seed: u32, length: usize, col: usize) -> (u32, u32) {
    let s = stir(stir(seed));
    (s, (mix(s as u64, 0, (length as int % 0x1_0000_0000) as nat, col as u64) % 0x1_0000_0000) as u32)
}

impl SnakeDriver {
    /// Draws a pseudo-random value: the seed is stirred twice, then mixed
    /// once per unit of length with the head column.
    pub fn do_a_random(&mut self) -> (r: u32)
        requires
            old(self).wf(),
        ensures
            final(self).wf(),
            (final(self).seed, r) == draw(old(self).seed, old(self).length, old(self).col),
            final(self).keeps_position(old(self)),
            final(self).keeps_velocity(old(self)),
            final(self).keeps_tail(old(self)),
            final(self).keeps_counters(old(self)),
            final(self).keeps_apple(old(self)),
            final(self).keeps_screen(old(self)),
            final(self).status == old(self).status,
            final(self).input_buffer == old(self).input_buffer,
    {
        self.seed = stir_seed(stir_seed(self.seed));
        let n = ((self.length as u64) % 0x1_0000_0000) as u32;
        let col = self.col as u64;
        let mut i: u32 = 0;
        let mut a: u64 = self.seed as u64;
        let ghost start = a;
        while i < n
            invariant
                i <= n,
                start == stir(stir(old(self).seed)) as u64,
                col == old(self).col as u64,
                n as int == self.length as int % 0x1_0000_0000,
                mix(a, i as nat, n as nat, col) == mix(start, 0, n as nat, col),
            decreases n - i,
        {
            let ghost prev = a;
            let powered = checked_power(a, i);
            proof {
                lemma_pow_nonneg(prev as int, i as nat);
            }
            let direct: Option<u64> = match powered {
                Some(p) => if p <= u64::MAX - col {
                    Some(p + col)
                } else {
                    None
                },
                None => None,
            };
            a = match direct {
                Some(v) => v,
                None => {
                    let m = mod_floor_u64(a, WORD_MAX);
                    proof {
                        lemma_mul_mod_noop_left(a as int, i as int, WORD_MAX as int);
                        assert(m * (i as u64) <= WORD_MAX * WORD_MAX) by (nonlinear_arith)
                            requires
                                m < WORD_MAX,
                                i <= WORD_MAX,
                        ;
                        assert(pow(prev as int, i as nat) + col > u64::MAX);
                    }
                    let folded = mod_floor_u64(m * (i as u64), WORD_MAX);
                    assert(folded == (prev as int * i) % (WORD_MAX as int));
                    folded
                },
            };
            assert(a == mix_step(prev, i as nat, col));
            i = i + 1;
        }
        (a % 0x1_0000_0000) as u32
    }
}

} // verus!
