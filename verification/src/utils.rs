use vstd::prelude::*;
use vstd::arithmetic::div_mod::{
    lemma_add_mod_noop_right, lemma_fundamental_div_mod, lemma_fundamental_div_mod_converse_mod,
    lemma_mod_bound,
};
use crate::is_perm_table;

verus! {

/// Euclidean remainder of `x` by a positive divisor, matching the spec-level
/// `%` operator: a truncating remainder whose negative results are shifted up
/// by the divisor lands on the same value.
pub fn rem_euclid64(x: i64, d: i64) -> (r: i64)
    requires
        1 <= d,
    ensures
        r == (x as int) % (d as int),
        0 <= r < d,
{
    proof {
        lemma_mod_bound(x as int, d as int);
    }
    if x >= 0 {
        x % d
    } else {
        let y = -(x + 1);
        let m = y % d;
        proof {
            let xi = x as int;
            let di = d as int;
            let yi = y as int;
            lemma_mod_bound(yi, di);
            lemma_fundamental_div_mod(yi, di);
            let q = yi / di;
            let mm = yi % di;
            assert((-q - 1) * di + (di - 1 - mm) == -(di * q + mm) - 1) by (nonlinear_arith);
            lemma_fundamental_div_mod_converse_mod(xi, di, -q - 1, di - 1 - mm);
        }
        d - 1 - m
    }
}

/// The next link of a gradient-extrapolation index chain: the previous table
/// entry plus the next integer coordinate, modulo 256.
pub open spec fn chain_index(prev: int, coord: int) -> int {
    (prev + coord) % 256
}

/// One chained permutation-table lookup keyed by an integer lattice
/// coordinate modulo 256.
pub fn chain_lookup(perm: &Vec<i64>, prev: i64, coord: i64) -> (r: i64)
    requires
        is_perm_table(perm@),
        0 <= prev < 2048,
    ensures
        r == perm@[chain_index(prev as int, coord as int)],
        0 <= r < 2048,
{
    let c = rem_euclid64(coord, 256);
    let idx = (prev + c) % 256;
    proof {
        lemma_add_mod_noop_right(prev as int, coord as int, 256);
        lemma_mod_bound(prev as int + c as int, 256);
        assert(0 <= perm@[idx as int] < 2048);
    }
    perm[idx as usize]
}

} // verus!
