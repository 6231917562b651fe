//! Positions in a cycle: the remainder that is never negative.

use vstd::prelude::*;
use vstd::arithmetic::div_mod::{
    lemma_fundamental_div_mod,
    lemma_fundamental_div_mod_converse,
    lemma_mod_bound,
};

verus! {

/// The Euclidean remainder of `x` by a positive `m`: the position of `x` in a
/// cycle of length `m`, also for a negative `x`.
pub fn rem_euclid(x: i64, m: i64) -> (r: i64)
    requires
        m > 0,
    ensures
        r == x % m,
        0 <= r < m,
{
    proof {
        lemma_mod_bound(x as int, m as int);
    }
    let t: i64 = x % m;
    if t < 0 {
        proof {
            // x = -a with a = q * m + r and r > 0, so x = -(q + 1) * m + (m - r).
            let a = -(x as int);
            let q = a / (m as int);
            let r = a % (m as int);
            lemma_fundamental_div_mod(a, m as int);
            lemma_mod_bound(a, m as int);
            assert((-(q + 1)) * m + (m - r) == x) by (nonlinear_arith)
                requires
                    a == m * q + r,
                    x == -a,
            ;
            lemma_fundamental_div_mod_converse(x as int, m as int, -(q + 1), m - r);
        }
        t + m
    } else {
        proof {
            if x < 0 {
                // x = -a with a = q * m, so x = (-q) * m.
                let a = -(x as int);
                let q = a / (m as int);
                lemma_fundamental_div_mod(a, m as int);
                assert((-q) * m + 0 == x) by (nonlinear_arith)
                    requires
                        a == m * q + 0,
                        x == -a,
                ;
                lemma_fundamental_div_mod_converse(x as int, m as int, -q, 0);
            }
        }
        t
    }
}

} // verus!
