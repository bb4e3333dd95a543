//! Fallback search orders for structure offsets that drift between game builds.

use vstd::arithmetic::div_mod::{lemma_fundamental_div_mod, lemma_mod_multiples_basic};
use vstd::prelude::*;

verus! {

/// Distance of `x` from `center`.
pub open spec fn dist(x: int, center: int) -> int {
    if x >= center {
        x - center
    } else {
        center - x
    }
}

/// An offset the search tries: inside `[start, end]` and a whole number of steps from `center`.
pub open spec fn offset_candidate(x: int, center: int, step: int, start: int, end: int) -> bool {
    start <= x <= end && (x - center) % step == 0
}

/// The search order: nearer to `center` first, and of two at the same distance the lower first.
pub open spec fn tried_before(a: int, b: int, center: int) -> bool {
    dist(a, center) < dist(b, center) || (dist(a, center) == dist(b, center) && a < b)
}

/// The candidates in search order.
pub open spec fn is_search_order(r: Seq<usize>, center: int, step: int, start: int, end: int) -> bool {
    &&& forall|i: int|
        0 <= i < r.len() ==> offset_candidate(#[trigger] r[i] as int, center, step, start, end)
    &&& forall|x: usize| offset_candidate(x as int, center, step, start, end) ==> #[trigger] r.contains(x)
    &&& forall|i: int, j: int|
        0 <= i < j < r.len() ==> tried_before(#[trigger] r[i] as int, #[trigger] r[j] as int, center)
}

proof fn lemma_multiple_below(m: int, s: int, k: int)
    requires
        s > 0,
        k >= 0,
        m >= 0,
        m % s == 0,
        m < (k + 1) * s,
    ensures
        m <= k * s,
{
    lemma_fundamental_div_mod(m, s);
    let q = m / s;
    assert(m == q * s) by (nonlinear_arith)
        requires
            m == s * q + m % s,
            m % s == 0,
    ;
    assert(q <= k) by (nonlinear_arith)
        requires
            m == q * s,
            m < (k + 1) * s,
            s > 0,
    ;
    assert(m <= k * s) by (nonlinear_arith)
        requires
            m == q * s,
            q <= k,
            s > 0,
    ;
}

proof fn lemma_negated_multiple(m: int, s: int)
    requires
        s > 0,
        m % s == 0,
    ensures
        (-m) % s == 0,
{
    lemma_fundamental_div_mod(m, s);
    let q = m / s;
    assert(-m == (-q) * s) by (nonlinear_arith)
        requires
            m == s * q + m % s,
            m % s == 0,
    ;
    lemma_mod_multiples_basic(-q, s);
}

proof fn lemma_candidate_distance(x: int, center: int, step: int, start: int, end: int, k: int)
    requires
        step > 0,
        k >= 0,
        offset_candidate(x, center, step, start, end),
        dist(x, center) < (k + 1) * step,
    ensures
        dist(x, center) <= k * step,
{
    if x >= center {
        lemma_multiple_below(x - center, step, k);
    } else {
        lemma_negated_multiple(x - center, step);
        lemma_multiple_below(center - x, step, k);
    }
}

/// Offsets from `start` to `end` in steps of `step` around `center`: `center` first, then
/// outward, the lower one first at each distance; none when `center` lies strictly between an
/// `end` below it and a `start` above it. (A zero step is only meaningful in that case: any
/// other would never finish.)
pub fn prioritized_offsets(center: usize, start: usize, end: usize, step: usize) -> (offsets: Vec<
    usize,
>)
    requires
        step > 0 || (end < center && center < start),
    ensures
        step > 0 ==> is_search_order(offsets@, center as int, step as int, start as int, end as int),
        step > 0 ==> forall|i: int, j: int| 0 <= i < j < offsets@.len() ==> offsets@[i] != offsets@[j],
        end < center && center < start ==> offsets@.len() == 0,
{
    if step == 0 || (end < center && center < start) {
        return Vec::new();
    }
    let offsets = order_offsets(center, start, end, step);
    proof {
        assert forall|i: int, j: int| 0 <= i < j < offsets@.len() implies offsets@[i] != offsets@[j] by {
            assert(tried_before(offsets@[i] as int, offsets@[j] as int, center as int));
        }
    }
    offsets
}

fn order_offsets(center: usize, start: usize, end: usize, step: usize) -> (offsets: Vec<usize>)
    requires
        step > 0,
    ensures
        is_search_order(offsets@, center as int, step as int, start as int, end as int),
{
    let ghost c = center as int;
    let ghost s = step as int;
    let mut offsets: Vec<usize> = Vec::new();
    if center >= start && center <= end {
        offsets.push(center);
        proof {
            assert(((center - center) as int) % s == 0) by {
                lemma_mod_multiples_basic(0, s);
            }
        }
    }
    assert forall|x: usize|
        offset_candidate(x as int, c, s, start as int, end as int) && dist(x as int, c) < 1 * s
        implies #[trigger] offsets@.contains(x) by {
        lemma_candidate_distance(x as int, c, s, start as int, end as int, 0);
        assert(offsets@[0] == x);
    }
    let mut distance = step;
    let ghost mut k: int = 1;
    while center.saturating_sub(distance) >= start || center.saturating_add(distance) <= end
        invariant_except_break
            k >= 1,
            distance >= step,
            distance as int == k * s,
            s > 0,
            c == center,
            s == step,
            forall|i: int|
                0 <= i < offsets@.len() ==> offset_candidate(
                    #[trigger] offsets@[i] as int,
                    c,
                    s,
                    start as int,
                    end as int,
                ) && dist(offsets@[i] as int, c) < distance,
            forall|x: usize|
                offset_candidate(x as int, c, s, start as int, end as int) && dist(x as int, c)
                    < distance ==> #[trigger] offsets@.contains(x),
            forall|i: int, j: int|
                0 <= i < j < offsets@.len() ==> tried_before(
                    #[trigger] offsets@[i] as int,
                    #[trigger] offsets@[j] as int,
                    c,
                ),
        ensures
            is_search_order(offsets@, c, s, start as int, end as int),
        decreases usize::MAX - distance,
    {
        let ghost before = offsets@;
        let ghost mut n_lower: int = 0;
        if let Some(lower) = center.checked_sub(distance) {
            if lower >= start && lower <= end {
                offsets.push(lower);
                proof {
                    n_lower = 1;
                }
                proof {
                    assert((lower as int - c) == (-k) * s) by (nonlinear_arith)
                        requires
                            lower as int == c - distance,
                            distance as int == k * s,
                    ;
                    lemma_mod_multiples_basic(-k, s);
                }
            }
        }
        assert(offsets@.len() == before.len() + n_lower);
        assert(n_lower == 1 ==> offsets@[before.len() as int] as int == c - distance);
        let ghost mid = offsets@;
        let ghost mut n_upper: int = 0;
        if let Some(upper) = center.checked_add(distance) {
            if upper >= start && upper <= end {
                offsets.push(upper);
                proof {
                    n_upper = 1;
                    lemma_mod_multiples_basic(k, s);
                }
            }
        }
        assert forall|i: int| before.len() <= i < offsets@.len() implies dist(
            #[trigger] offsets@[i] as int,
            c,
        ) == distance by {}
        assert(offsets@.len() == mid.len() + n_upper);
        assert(n_upper == 1 ==> offsets@[mid.len() as int] as int == c + distance);
        assert(offsets@.len() == before.len() + 2 ==> offsets@[before.len() as int] == mid[before.len() as int]);
        assert(offsets@.len() == before.len() + 2 ==> offsets@[before.len() as int]
            < offsets@[before.len() + 1int]);
        assert forall|i: int, j: int| 0 <= i < j < offsets@.len() implies tried_before(
            #[trigger] offsets@[i] as int,
            #[trigger] offsets@[j] as int,
            c,
        ) by {
            if j < before.len() {
                assert(offsets@[i] == before[i] && offsets@[j] == before[j]);
            } else if i < before.len() {
                assert(offsets@[i] == before[i]);
            }
        }
        assert forall|x: usize|
            offset_candidate(x as int, c, s, start as int, end as int) && dist(x as int, c)
                <= distance implies #[trigger] offsets@.contains(x) by {
            if dist(x as int, c) < distance {
                assert(before.contains(x));
                let w = choose|w: int| 0 <= w < before.len() && before[w] == x;
                assert(offsets@[w] == x);
            } else if x < center {
                assert(offsets@[before.len() as int] == x);
            } else {
                let w = offsets@.len() - 1;
                assert(offsets@[w] == x);
            }
        }
        match distance.checked_add(step) {
            Some(next) => {
                proof {
                    assert(next as int == (k + 1) * s) by (nonlinear_arith)
                        requires
                            next as int == distance + s,
                            distance as int == k * s,
                    ;
                    assert forall|x: usize|
                        offset_candidate(x as int, c, s, start as int, end as int) && dist(
                            x as int,
                            c,
                        ) < next implies #[trigger] offsets@.contains(x) by {
                        lemma_candidate_distance(x as int, c, s, start as int, end as int, k);
                    }
                    k = k + 1;
                }
                distance = next;
            },
            None => {
                proof {
                    assert forall|x: usize|
                        offset_candidate(
                            x as int,
                            c,
                            s,
                            start as int,
                            end as int,
                        ) implies #[trigger] offsets@.contains(x) by {
                        if dist(x as int, c) > distance {
                            assert(dist(x as int, c) < (k + 1) * s) by (nonlinear_arith)
                                requires
                                    distance as int == k * s,
                                    distance + s > usize::MAX,
                                    0 <= x <= usize::MAX,
                                    0 <= c <= usize::MAX,
                            ;
                            lemma_candidate_distance(x as int, c, s, start as int, end as int, k);
                        }
                    }
                }
                break ;
            },
        }
    }
    offsets
}

} // verus!
