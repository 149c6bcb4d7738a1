use vstd::prelude::*;
use crate::codec::le64_val;

verus! {

/// The tier the scan lands on from boundary `i` on: the 1-based index of the
/// first cumulative boundary that `value` is strictly below, or the number
/// of boundaries when none is above it.
pub open spec fn tier_from(value: u64, ranges: Seq<u32>, i: int) -> int
    recommends
        0 <= i <= ranges.len(),
    decreases ranges.len() - i,
{
    if i < 0 || i >= ranges.len() {
        ranges.len() as int
    } else if value < ranges[i] {
        i + 1
    } else {
        tier_from(value, ranges, i + 1)
    }
}

/// The weighted tier of a reduced value: the first boundary exceeding the
/// value wins, so a value of 0 lands on tier 1 and a value equal to a
/// boundary lands past it.
pub open spec fn tier_of(value: u64, ranges: Seq<u32>) -> int {
    tier_from(value, ranges, 0)
}

/// The tier scan lands between 1 and the number of boundaries.
pub proof fn lemma_tier_from_bounds(value: u64, ranges: Seq<u32>, i: int)
    requires
        0 <= i <= ranges.len(),
        ranges.len() >= 1,
    ensures
        1 <= tier_from(value, ranges, i) <= ranges.len(),
    decreases ranges.len() - i,
{
    if i < ranges.len() && value >= ranges[i] {
        lemma_tier_from_bounds(value, ranges, i + 1);
    }
}

/// Locates `random` among the five cumulative weight boundaries: the result
/// is the 1-based index of the first boundary strictly above `random`, and 5
/// when no boundary is above it.
pub fn get_number(random: u64, weight_ranges: &[u32; 5]) -> (r: u8)
    ensures
        r as int == tier_of(random, weight_ranges@),
        1 <= r <= 5,
{
    proof {
        lemma_tier_from_bounds(random, weight_ranges@, 0);
    }
    let mut i: usize = 0;
    while i < 5
        invariant
            0 <= i <= 5,
            weight_ranges@.len() == 5,
            tier_of(random, weight_ranges@) == tier_from(random, weight_ranges@, i as int),
        decreases 5 - i,
    {
        if random < weight_ranges[i] as u64 {
            return (i + 1) as u8;
        }
        i = i + 1;
    }
    5
}

/// The reduced value for digest slot `i` of the instant variant: the 8-byte
/// little-endian slice starting at byte `8 * i`, reduced modulo the total
/// weight.
pub open spec fn reduced_value(digest: Seq<u8>, i: int, total_weight: u32) -> u64
    recommends
        digest.len() >= 8 * i + 8,
        total_weight > 0,
{
    (le64_val(digest.subrange(8 * i, 8 * i + 8)) % (total_weight as int)) as u64
}

/// The instant-variant number for digest slot `i`: the weighted tier of the
/// reduced value.
pub open spec fn instant_number(digest: Seq<u8>, i: int, total_weight: u32, ranges: Seq<u32>) -> int {
    tier_of(reduced_value(digest, i, total_weight), ranges)
}

/// The instant-variant multiplier: the configured multiplier of the common
/// tier when all three slots agree, and 0 otherwise.
pub open spec fn instant_win_multiplier(
    digest: Seq<u8>,
    total_weight: u32,
    ranges: Seq<u32>,
    multipliers: Seq<u8>,
) -> int
    recommends
        ranges.len() == 5,
        multipliers.len() == 5,
{
    let n0 = instant_number(digest, 0, total_weight, ranges);
    let n1 = instant_number(digest, 1, total_weight, ranges);
    let n2 = instant_number(digest, 2, total_weight, ranges);
    if n0 == n1 && n1 == n2 {
        multipliers[n0 - 1] as int
    } else {
        0
    }
}

/// The instant-variant prize for a winning play: the bet times the
/// multiplier, times 101, divided by 100 with the remainder discarded — a
/// fixed 1% bonus on the nominal multiplier, truncated in exactly this
/// order.
pub open spec fn instant_prize(amount: u64, multiplier: int) -> int {
    amount * multiplier * 101 / 100
}

/// The three-digit draw numbers: one digest byte per slot, reduced modulo 33
/// and shifted to the 1-based range.
pub open spec fn three_d_numbers(digest: Seq<u8>) -> Seq<u8>
    recommends
        digest.len() >= 3,
{
    seq![
        ((digest[0] % 33) + 1) as u8,
        ((digest[1] % 33) + 1) as u8,
        ((digest[2] % 33) + 1) as u8,
    ]
}

/// Maps a draw digest to the three numbers of the three-digit variant, each
/// in `[1, 33]`.
pub fn convert_random_to_3d_numbers(digest: &Vec<u8>) -> (r: Vec<u8>)
    requires
        digest@.len() == 32,
    ensures
        r@ == three_d_numbers(digest@),
        r@.len() == 3,
        forall|i: int| 0 <= i < 3 ==> 1 <= #[trigger] r@[i] <= 33,
{
    let mut r: Vec<u8> = Vec::new();
    r.push((digest[0] % 33) + 1);
    r.push((digest[1] % 33) + 1);
    r.push((digest[2] % 33) + 1);
    proof {
        assert(r@ =~= three_d_numbers(digest@));
    }
    r
}

/// The candidate that follows `v` after a collision: the next value up,
/// wrapping from 33 back to 1.
pub open spec fn wrap_next(v: u8) -> u8 {
    (((v % 33) + 1) as u8)
}

/// The candidate reached after `k` collision steps from `c`.
pub open spec fn chain(c: u8, k: nat) -> u8
    decreases k,
{
    if k == 0 {
        c
    } else {
        chain(wrap_next(c), (k - 1) as nat)
    }
}

/// The first candidate on the chain from `c` that is not yet taken, walking
/// at most `fuel` collision steps.
pub open spec fn resolve(c: u8, taken: Seq<u8>, fuel: nat) -> u8
    decreases fuel,
{
    if fuel == 0 {
        c
    } else if taken.contains(c) {
        resolve(wrap_next(c), taken, (fuel - 1) as nat)
    } else {
        c
    }
}

/// The first candidate for red slot `i`: its digest byte, reduced modulo 33
/// and shifted to the 1-based range.
pub open spec fn red_candidate(digest: Seq<u8>, i: int) -> u8
    recommends
        0 <= i < digest.len(),
{
    ((digest[i] % 33) + 1) as u8
}

/// The first `count` red numbers of the weekly draw: slots are filled
/// strictly left to right, and a colliding candidate is incremented (with
/// wrap-around) until it is free of the previously assigned slots.
pub open spec fn red_numbers(digest: Seq<u8>, count: nat) -> Seq<u8>
    recommends
        count <= digest.len(),
    decreases count,
{
    if count == 0 {
        Seq::empty()
    } else {
        let prev = red_numbers(digest, (count - 1) as nat);
        prev.push(resolve(red_candidate(digest, count - 1), prev, 33))
    }
}

/// The full seven-number weekly draw: six unique red numbers followed by the
/// blue number taken from digest byte 6, reduced to `[1, 16]`.
pub open spec fn weekly_numbers(digest: Seq<u8>) -> Seq<u8>
    recommends
        digest.len() >= 7,
{
    red_numbers(digest, 6).push(((digest[6] % 16) + 1) as u8)
}

/// Closed form of the collision chain: after `k` steps the candidate has
/// advanced `k` places around the 33-value cycle.
proof fn lemma_chain_closed(c: u8, k: nat)
    requires
        1 <= c <= 33,
    ensures
        1 <= chain(c, k) <= 33,
        chain(c, k) - 1 == ((c - 1) + k) % 33,
    decreases k,
{
    if k == 0 {
        vstd::arithmetic::div_mod::lemma_small_mod((c - 1) as nat, 33);
    } else {
        let w = wrap_next(c);
        assert(1 <= w <= 33);
        lemma_chain_closed(w, (k - 1) as nat);
        if c == 33 {
            assert(w == 1);
            vstd::arithmetic::div_mod::lemma_mod_multiples_vanish(1, k - 1, 33);
            assert((33 + (k - 1)) % 33 == (k - 1) % 33);
        } else {
            assert(w == c + 1);
        }
    }
}

/// Every value of the cycle is reached within 33 collision steps.
proof fn lemma_chain_covers(c: u8, v: u8)
    requires
        1 <= c <= 33,
        1 <= v <= 33,
    ensures
        exists|k: nat| k < 33 && #[trigger] chain(c, k) == v,
{
    let a = (c - 1) as int;
    let b = (v - 1) as int;
    let k = ((b - a) % 33) as nat;
    vstd::arithmetic::div_mod::lemma_mod_bound(b - a, 33);
    lemma_chain_closed(c, k);
    let q = (b - a) / 33;
    vstd::arithmetic::div_mod::lemma_fundamental_div_mod(b - a, 33);
    assert(a + k == b - 33 * q);
    vstd::arithmetic::div_mod::lemma_mod_multiples_vanish(-q, b, 33);
    vstd::arithmetic::div_mod::lemma_small_mod(b as nat, 33);
    assert(chain(c, k) == v);
}

/// Fewer than 33 taken values leave some value of `[1, 33]` free.
proof fn lemma_free_value_exists(taken: Seq<u8>)
    requires
        taken.len() < 33,
    ensures
        exists|v: u8| 1 <= v <= 33 && !#[trigger] taken.contains(v),
{
    broadcast use vstd::seq_lib::seq_to_set_is_finite;

    let ints = taken.map_values(|x: u8| x as int);
    let range = vstd::set_lib::set_int_range(1, 34);
    vstd::set_lib::lemma_int_range(1, 34);
    ints.lemma_cardinality_of_set();
    assert(ints.to_set().len() < 33);
    if forall|v: u8| 1 <= v <= 33 ==> #[trigger] taken.contains(v) {
        assert forall|x: int| range.contains(x) implies ints.to_set().contains(x) by {
            let v = x as u8;
            assert(taken.contains(v));
            let i = choose|i: int| 0 <= i < taken.len() && taken[i] == v;
            assert(ints[i] == x);
            assert(ints.contains(x));
        }
        vstd::set_lib::lemma_len_subset(range, ints.to_set());
        assert(false);
    }
}

/// Walking the chain with 33 steps of fuel from any starting candidate
/// lands on a value that is free of the taken ones and still on the cycle.
proof fn lemma_resolve_free(c: u8, taken: Seq<u8>, fuel: nat)
    requires
        1 <= c <= 33,
        exists|k: nat| k <= fuel && !taken.contains(#[trigger] chain(c, k)),
    ensures
        !taken.contains(resolve(c, taken, fuel)),
        1 <= resolve(c, taken, fuel) <= 33,
    decreases fuel,
{
    lemma_chain_closed(c, 0);
    if !taken.contains(c) {
        assert(resolve(c, taken, fuel) == c);
    } else {
        let k = choose|k: nat| k <= fuel && !taken.contains(#[trigger] chain(c, k));
        assert(chain(c, 0) == c);
        assert(k >= 1);
        assert(fuel >= 1);
        let w = wrap_next(c);
        assert(chain(c, k) == chain(w, (k - 1) as nat));
        assert((k - 1) as nat <= (fuel - 1) as nat && !taken.contains(chain(
            w,
            (k - 1) as nat,
        )));
        lemma_resolve_free(w, taken, (fuel - 1) as nat);
    }
}

/// A fresh red slot resolves to a value in `[1, 33]` that none of the
/// previously assigned slots holds.
proof fn lemma_resolve_picks_free(c: u8, taken: Seq<u8>)
    requires
        1 <= c <= 33,
        taken.len() < 33,
    ensures
        !taken.contains(resolve(c, taken, 33)),
        1 <= resolve(c, taken, 33) <= 33,
{
    lemma_free_value_exists(taken);
    let v = choose|v: u8| 1 <= v <= 33 && !#[trigger] taken.contains(v);
    lemma_chain_covers(c, v);
    let k = choose|k: nat| k < 33 && #[trigger] chain(c, k) == v;
    assert(k <= 33 && !taken.contains(chain(c, k)));
    lemma_resolve_free(c, taken, 33);
}

/// The first `count` red numbers are pairwise distinct and each lies in
/// `[1, 33]`.
pub proof fn lemma_red_numbers_props(digest: Seq<u8>, count: nat)
    requires
        count <= 6,
        digest.len() >= count,
    ensures
        red_numbers(digest, count).len() == count,
        forall|i: int| 0 <= i < count ==> 1 <= #[trigger] red_numbers(digest, count)[i] <= 33,
        forall|i: int, j: int|
            0 <= i < j < count ==> red_numbers(digest, count)[i] != red_numbers(digest, count)[j],
    decreases count,
{
    if count > 0 {
        lemma_red_numbers_props(digest, (count - 1) as nat);
        let prev = red_numbers(digest, (count - 1) as nat);
        let c = red_candidate(digest, count - 1);
        assert(0 <= digest[count - 1] % 33 < 33) by {
            vstd::arithmetic::div_mod::lemma_mod_bound(digest[count - 1] as int, 33);
        }
        lemma_resolve_picks_free(c, prev);
        let picked = resolve(c, prev, 33);
        let cur = red_numbers(digest, count);
        assert(cur == prev.push(picked));
        assert forall|i: int, j: int| 0 <= i < j < count implies cur[i] != cur[j] by {
            if j == count - 1 {
                assert(cur[i] == prev[i]);
                assert(prev.contains(prev[i]));
            }
        }
    }
}

/// Maps a draw digest to the seven numbers of the weekly variant: six
/// pairwise-distinct red numbers in `[1, 33]`, filled left to right with
/// wrap-around collision resolution, then one blue number in `[1, 16]`.
pub fn convert_random_to_numbers(digest: &Vec<u8>) -> (r: Vec<u8>)
    requires
        digest@.len() == 32,
    ensures
        r@ == weekly_numbers(digest@),
        r@.len() == 7,
        forall|i: int| 0 <= i < 6 ==> 1 <= #[trigger] r@[i] <= 33,
        forall|i: int, j: int| 0 <= i < j < 6 ==> r@[i] != r@[j],
        1 <= r@[6] <= 16,
{
    let mut numbers: Vec<u8> = Vec::new();
    for i in 0..6usize
        invariant
            digest@.len() == 32,
            numbers@ == red_numbers(digest@, i as nat),
            numbers@.len() == i,
    {
        proof {
            lemma_red_numbers_props(digest@, i as nat);
        }
        let ghost prev = numbers@;
        let mut val: u8 = digest[i] % 33 + 1;
        let ghost start = val;
        proof {
            assert(0 <= digest@[i as int] % 33 < 33) by {
                vstd::arithmetic::div_mod::lemma_mod_bound(digest@[i as int] as int, 33);
            }
            assert(start == red_candidate(digest@, i as int));
            lemma_free_value_exists(prev);
            let v = choose|v: u8| 1 <= v <= 33 && !#[trigger] prev.contains(v);
            lemma_chain_covers(start, v);
            let k0 = choose|k: nat| k < 33 && #[trigger] chain(start, k) == v;
            assert(k0 <= 33 && !prev.contains(chain(start, k0)));
        }
        let mut fuel: u8 = 33;
        while vec_contains(&numbers, val)
            invariant
                numbers@ == prev,
                1 <= val <= 33,
                0 <= fuel <= 33,
                resolve(start, prev, 33) == resolve(val, prev, fuel as nat),
                exists|k: nat| k <= fuel && !prev.contains(#[trigger] chain(val, k)),
            decreases fuel,
        {
            proof {
                let k = choose|k: nat| k <= fuel && !prev.contains(#[trigger] chain(val, k));
                assert(chain(val, 0) == val);
                assert(k >= 1);
                assert(fuel >= 1);
                let w = wrap_next(val);
                assert(chain(val, k) == chain(w, (k - 1) as nat));
                assert((k - 1) as nat <= (fuel - 1) as nat && !prev.contains(chain(
                    w,
                    (k - 1) as nat,
                )));
            }
            val = val % 33 + 1;
            fuel = fuel - 1;
        }
        proof {
            assert(resolve(val, prev, fuel as nat) == val);
            assert(red_numbers(digest@, (i + 1) as nat) == prev.push(resolve(start, prev, 33)));
        }
        numbers.push(val);
    }
    proof {
        lemma_red_numbers_props(digest@, 6);
    }
    let blue: u8 = digest[6] % 16 + 1;
    numbers.push(blue);
    proof {
        assert(numbers@ == weekly_numbers(digest@));
    }
    numbers
}

/// Whether the vector holds `x`.
fn vec_contains(v: &Vec<u8>, x: u8) -> (b: bool)
    ensures
        b == v@.contains(x),
{
    let n = v.len();
    for i in 0..n
        invariant
            n == v@.len(),
            forall|j: int| 0 <= j < i ==> v@[j] != x,
    {
        if v[i] == x {
            return true;
        }
    }
    false
}

} // verus!
