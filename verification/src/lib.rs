pub mod open_simplex_noise_2d;
pub mod open_simplex_noise_3d;
pub mod open_simplex_noise_4d;
pub mod point;
pub mod utils;
pub mod vector;

use vstd::prelude::*;
use vstd::arithmetic::div_mod::{
    lemma_fundamental_div_mod, lemma_fundamental_div_mod_converse_mod, lemma_mod_bound,
};

verus! {

/// Number of entries in a permutation table.
pub const PSIZE: i64 = 2048;

pub const DEFAULT_SEED: i64 = 0;

/// Multiplier of the linear-congruential recurrence that drives the shuffle.
pub const LCG_MULT: i128 = 6364136223846793005;

/// Increment of the linear-congruential recurrence that drives the shuffle.
pub const LCG_INC: i128 = 1442695040888963407;

/// Truncation of an unbounded integer to the range of a 64-bit signed word.
pub open spec fn wrap64(x: int) -> int {
    let m = x % 0x1_0000_0000_0000_0000;
    if m >= 0x8000_0000_0000_0000 {
        m - 0x1_0000_0000_0000_0000
    } else {
        m
    }
}

/// One advance of the generator state, before truncation back to 64 bits.
pub open spec fn lcg_next(s: int) -> int {
    s * (LCG_MULT as int) + (LCG_INC as int)
}

/// Generator state after `k` advances from `seed`, truncated to 64 bits.
pub open spec fn lcg_state(seed: i64, k: nat) -> int
    decreases k,
{
    if k == 0 {
        seed as int
    } else {
        wrap64(lcg_next(lcg_state(seed, (k - 1) as nat)))
    }
}

/// Index drawn by step `k` (1-based) of the shuffle, which fills table slot
/// `2048 - k`: the untruncated generator value plus 31, reduced modulo the
/// number of slots still unfilled.
pub open spec fn step_draw(seed: i64, k: nat) -> int {
    (lcg_next(lcg_state(seed, (k - 1) as nat)) + 31) % (2049 - k as int)
}

/// Scratch array of the shuffle after `k` steps.
pub open spec fn shuffle_source(seed: i64, k: nat) -> Seq<i64>
    decreases k,
{
    if k == 0 {
        Seq::new(2048, |j: int| j as i64)
    } else {
        let prev = shuffle_source(seed, (k - 1) as nat);
        let i = 2048 - k as int;
        prev.update(step_draw(seed, k), prev[i])
    }
}

/// Permutation table after `k` steps of the shuffle.
pub open spec fn shuffle_table(seed: i64, k: nat) -> Seq<i64>
    decreases k,
{
    if k == 0 {
        Seq::new(2048, |j: int| 0i64)
    } else {
        let prev_source = shuffle_source(seed, (k - 1) as nat);
        let prev = shuffle_table(seed, (k - 1) as nat);
        let i = 2048 - k as int;
        prev.update(i, prev_source[step_draw(seed, k)])
    }
}

/// The permutation table generated from `seed`: the shuffle run to completion.
pub open spec fn spec_perm_table(seed: i64) -> Seq<i64> {
    shuffle_table(seed, 2048)
}

/// A bijection on `[0, 2047]`: 2048 in-range entries with no repetition.
pub open spec fn is_perm_table(s: Seq<i64>) -> bool {
    &&& s.len() == 2048
    &&& forall|i: int| 0 <= i < 2048 ==> 0 <= #[trigger] s[i] < 2048
    &&& forall|i: int, j: int| 0 <= i < 2048 && 0 <= j < 2048 && i != j ==> s[i] != s[j]
}

/// The set of values stored in the first `n` slots of a table.
pub open spec fn table_prefix_values(s: Seq<i64>, n: nat) -> Set<int>
    decreases n,
{
    if n == 0 {
        Set::empty()
    } else {
        table_prefix_values(s, (n - 1) as nat).insert(s[n - 1] as int)
    }
}

/// A prefix of a permutation table holds as many distinct values as slots.
proof fn lemma_prefix_values(s: Seq<i64>, n: nat)
    requires
        is_perm_table(s),
        n <= 2048,
    ensures
        table_prefix_values(s, n).finite(),
        table_prefix_values(s, n).len() == n,
        forall|v: int|
            table_prefix_values(s, n).contains(v) <==> exists|i: int| 0 <= i < n && s[i] == v,
    decreases n,
{
    if n > 0 {
        lemma_prefix_values(s, (n - 1) as nat);
        let prev = table_prefix_values(s, (n - 1) as nat);
        assert(!prev.contains(s[n - 1] as int)) by {
            if prev.contains(s[n - 1] as int) {
                let i = choose|i: int| 0 <= i < n - 1 && #[trigger] s[i] == s[n - 1] as int;
                assert(s[i] != s[n - 1]);
            }
        }
    }
}

/// Pigeonhole half of the bijection: a permutation table not only never
/// repeats a value, it also reaches every value of `[0, 2047]` somewhere.
pub proof fn lemma_perm_table_onto(s: Seq<i64>, v: i64)
    requires
        is_perm_table(s),
        0 <= v < 2048,
    ensures
        exists|i: int| 0 <= i < 2048 && s[i] == v,
{
    let img = table_prefix_values(s, 2048);
    lemma_prefix_values(s, 2048);
    let rng = vstd::set_lib::set_int_range(0, 2048);
    vstd::set_lib::lemma_int_range(0, 2048);
    if !(exists|i: int| 0 <= i < 2048 && s[i] == v) {
        assert(!img.contains(v as int));
        assert forall|w: int| img.contains(w) implies rng.contains(w) by {
            let i = choose|i: int| 0 <= i < 2048 && #[trigger] s[i] == w;
            assert(0 <= s[i] < 2048);
        }
        img.lemma_subset_not_in_lt(rng, v as int);
    }
}

/// Euclidean remainder of `x` by a positive divisor, matching the spec-level
/// `%` operator: a truncating remainder whose negative results are shifted up
/// by the divisor lands on the same value.
fn euclid_rem_i128(x: i128, d: i128) -> (r: i128)
    requires
        1 <= d,
    ensures
        r == (x as int) % (d as int),
{
    if x >= 0 {
        x % d
    } else {
        let y = -(x + 1);
        let m = y % d;
        proof {
            let xi = x as int;
            let di = d as int;
            let yi = y as int;
            lemma_mod_bound(yi, di);
            lemma_fundamental_div_mod(yi, di);
            let q = yi / di;
            let mm = yi % di;
            assert((-q - 1) * di + (di - 1 - mm) == -(di * q + mm) - 1) by (nonlinear_arith);
            lemma_fundamental_div_mod_converse_mod(xi, di, -q - 1, di - 1 - mm);
        }
        d - 1 - m
    }
}

/// The still-unfilled scratch prefix and the already-filled table suffix,
/// glued at `boundary`: the values that together always form a permutation
/// while the shuffle runs.
pub open spec fn mix(source: Seq<i64>, table: Seq<i64>, boundary: int) -> Seq<i64> {
    source.subrange(0, boundary) + table.subrange(boundary, 2048)
}

/// One shuffle step swaps two entries of the mixed sequence, so in-range
/// entries and injectivity survive the step.
proof fn lemma_step_keeps_perm(source: Seq<i64>, table: Seq<i64>, i: int, r: int)
    requires
        source.len() == 2048,
        table.len() == 2048,
        0 <= i < 2048,
        0 <= r <= i,
        is_perm_table(mix(source, table, i + 1)),
    ensures
        is_perm_table(mix(source.update(r, source[i]), table.update(i, source[r]), i)),
{
    let c0 = mix(source, table, i + 1);
    let c1 = mix(source.update(r, source[i]), table.update(i, source[r]), i);
    assert(c1 =~= c0.update(r, c0[i]).update(i, c0[r]));
    assert forall|t: int| 0 <= t < 2048 implies 0 <= #[trigger] c1[t] < 2048 by {
        assert(c1[t] == c0[t] || c1[t] == c0[i] || c1[t] == c0[r]);
    }
    assert forall|a: int, b: int|
        0 <= a < 2048 && 0 <= b < 2048 && a != b implies c1[a] != c1[b] by {
        let a0 = if a == i { r } else if a == r { i } else { a };
        let b0 = if b == i { r } else if b == r { i } else { b };
        assert(c1[a] == c0[a0]);
        assert(c1[b] == c0[b0]);
        assert(a0 != b0);
    }
}

/// Seeded deterministic shuffle producing the lookup table: slot `i` is
/// filled from slot `draw` of the scratch array, whose entry then moves to
/// slot `i`, walking `i` from the top down.
fn generate_perm_array(seed: i64) -> (perm: Vec<i64>)
    ensures
        perm@ == spec_perm_table(seed),
        is_perm_table(perm@),
{
    let mut perm: Vec<i64> = Vec::new();
    let mut j: usize = 0;
    while j < 2048
        invariant
            j <= 2048,
            perm@.len() == j,
            forall|t: int| 0 <= t < j ==> #[trigger] perm@[t] == 0i64,
        decreases 2048 - j,
    {
        perm.push(0);
        j += 1;
    }
    let mut source: Vec<i64> = Vec::new();
    let mut j: usize = 0;
    while j < 2048
        invariant
            j <= 2048,
            source@.len() == j,
            forall|t: int| 0 <= t < j ==> #[trigger] source@[t] == t as i64,
        decreases 2048 - j,
    {
        source.push(j as i64);
        j += 1;
    }
    proof {
        assert(source@ =~= shuffle_source(seed, 0));
        assert(perm@ =~= shuffle_table(seed, 0));
        let c = mix(source@, perm@, 2048);
        assert(forall|t: int| 0 <= t < 2048 ==> #[trigger] c[t] == t as i64);
        assert(is_perm_table(c));
    }
    let mut state: i64 = seed;
    let mut k: usize = 0;
    while k < 2048
        invariant
            k <= 2048,
            perm@.len() == 2048,
            source@.len() == 2048,
            state as int == lcg_state(seed, k as nat),
            source@ == shuffle_source(seed, k as nat),
            perm@ == shuffle_table(seed, k as nat),
            is_perm_table(mix(source@, perm@, 2048 - k)),
        decreases 2048 - k,
    {
        let i: usize = 2047 - k;
        let wide: i128 = (state as i128) * LCG_MULT + LCG_INC;
        state = wrap_to_i64(wide);
        let rem: i128 = euclid_rem_i128(wide + 31, (i as i128) + 1);
        proof {
            lemma_mod_bound(wide as int + 31, i as int + 1);
        }
        let r: usize = rem as usize;
        let ghost old_source = source@;
        let ghost old_perm = perm@;
        let drawn: i64 = source[r];
        let moved: i64 = source[i];
        perm[i] = drawn;
        source[r] = moved;
        proof {
            let kn = (k + 1) as nat;
            assert(wide as int == lcg_next(lcg_state(seed, k as nat)));
            assert(state as int == lcg_state(seed, kn));
            assert(r as int == step_draw(seed, kn));
            assert(source@ == shuffle_source(seed, kn));
            assert(perm@ == shuffle_table(seed, kn));
            lemma_step_keeps_perm(old_source, old_perm, i as int, r as int);
        }
        k += 1;
    }
    proof {
        assert(perm@ == spec_perm_table(seed));
        let c = mix(source@, perm@, 0);
        assert(c =~= perm@);
    }
    perm
}

/// Truncation of an `i128` to 64 bits, as an `i64`.
fn wrap_to_i64(x: i128) -> (r: i64)
    ensures
        r as int == wrap64(x as int),
{
    proof {
        lemma_mod_bound(x as int, 0x1_0000_0000_0000_0000);
    }
    let m = euclid_rem_i128(x, 0x1_0000_0000_0000_0000);
    if m >= 0x8000_0000_0000_0000 {
        (m - 0x1_0000_0000_0000_0000) as i64
    } else {
        m as i64
    }
}

/// The seed actually used: the caller's, or the fixed default.
pub open spec fn seed_or_default(custom_seed: Option<i64>) -> i64 {
    match custom_seed {
        Some(value) => value,
        None => DEFAULT_SEED,
    }
}

/// A noise generator: one permutation table, built once from the seed and
/// read-only afterwards.
pub struct OpenSimplexNoise {
    perm: Vec<i64>,
}

impl View for OpenSimplexNoise {
    type V = Seq<i64>;

    closed spec fn view(&self) -> Seq<i64> {
        self.perm@
    }
}

impl OpenSimplexNoise {
    /// Builds the permutation table for the given seed; any seed is valid,
    /// and an absent seed means seed 0.
    pub fn new(custom_seed: Option<i64>) -> (result: Self)
        ensures
            result@ == spec_perm_table(seed_or_default(custom_seed)),
            is_perm_table(result@),
    {
        let seed = match custom_seed {
            Some(value) => value,
            None => DEFAULT_SEED,
        };
        Self { perm: generate_perm_array(seed) }
    }

    /// Read-only access to the permutation table.
    pub fn table(&self) -> (t: &Vec<i64>)
        ensures
            t@ == self@,
    {
        &self.perm
    }
}

/// Determinism: two generators built from the same seed hold bit-identical
/// tables, so every evaluation drawn from them agrees as well.
pub proof fn lemma_same_seed_same_table(
    a: OpenSimplexNoise,
    b: OpenSimplexNoise,
    custom_seed: Option<i64>,
)
    requires
        a@ == spec_perm_table(seed_or_default(custom_seed)),
        b@ == spec_perm_table(seed_or_default(custom_seed)),
    ensures
        a@ == b@,
{
}

} // verus!
