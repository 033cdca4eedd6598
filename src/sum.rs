//! Finite sums of integer-valued spec functions, and the facts about them
//! that the neighbour-count law needs.
use vstd::prelude::*;

verus! {

/// `f(0) + f(1) + ... + f(n - 1)`; zero when `n <= 0`.
pub open spec fn sum_to(n: int, f: spec_fn(int) -> int) -> int
    decreases n,
{
    if n <= 0 {
        0
    } else {
        sum_to(n - 1, f) + f(n - 1)
    }
}

/// Two functions that agree on `[0, n)` have the same sum there.
pub proof fn lemma_sum_ext(n: int, f: spec_fn(int) -> int, g: spec_fn(int) -> int)
    requires
        forall|i: int| 0 <= i < n ==> #[trigger] f(i) == g(i),
    ensures
        sum_to(n, f) == sum_to(n, g),
    decreases n,
{
    if n > 0 {
        lemma_sum_ext(n - 1, f, g);
    }
}

/// The sum of a pointwise sum is the sum of the sums.
pub proof fn lemma_sum_add(n: int, f: spec_fn(int) -> int, g: spec_fn(int) -> int)
    ensures
        sum_to(n, |i: int| f(i) + g(i)) == sum_to(n, f) + sum_to(n, g),
    decreases n,
{
    if n > 0 {
        lemma_sum_add(n - 1, f, g);
    }
}

/// A sum of zeros is zero.
pub proof fn lemma_sum_zero(n: int, f: spec_fn(int) -> int)
    requires
        forall|i: int| 0 <= i < n ==> #[trigger] f(i) == 0,
    ensures
        sum_to(n, f) == 0,
    decreases n,
{
    if n > 0 {
        lemma_sum_zero(n - 1, f);
    }
}

/// Each term lies in `[0, 1]`, so the sum lies in `[0, n]`.
pub proof fn lemma_sum_of_bits(n: int, f: spec_fn(int) -> int)
    requires
        n >= 0,
        forall|i: int| 0 <= i < n ==> 0 <= #[trigger] f(i) <= 1,
    ensures
        0 <= sum_to(n, f) <= n,
    decreases n,
{
    if n > 0 {
        lemma_sum_of_bits(n - 1, f);
    }
}

/// A double sum may be taken in either order.
pub proof fn lemma_sum_swap(n: int, m: int, f: spec_fn(int, int) -> int)
    ensures
        sum_to(n, |i: int| sum_to(m, |j: int| f(i, j))) == sum_to(
            m,
            |j: int| sum_to(n, |i: int| f(i, j)),
        ),
    decreases n,
{
    if n <= 0 {
        lemma_sum_zero(m, |j: int| sum_to(n, |i: int| f(i, j)));
    } else {
        lemma_sum_swap(n - 1, m, f);
        let outer = |i: int| sum_to(m, |j: int| f(i, j));
        assert(sum_to(n, outer) == sum_to(n - 1, outer) + outer(n - 1));
        let prev = |j: int| sum_to(n - 1, |i: int| f(i, j));
        let last = |j: int| f(n - 1, j);
        lemma_sum_add(m, prev, last);
        let cur = |j: int| sum_to(n, |i: int| f(i, j));
        assert forall|j: int| 0 <= j < m implies #[trigger] cur(j) == prev(j) + last(j) by {
            let col = |i: int| f(i, j);
            assert(sum_to(n, col) == sum_to(n - 1, col) + col(n - 1));
        }
        lemma_sum_ext(m, |j: int| prev(j) + last(j), cur);
    }
}

/// Splits a sum after its first `a` terms.
pub proof fn lemma_sum_split(a: int, b: int, f: spec_fn(int) -> int)
    requires
        a >= 0,
        b >= 0,
    ensures
        sum_to(a + b, f) == sum_to(a, f) + sum_to(b, |i: int| f(a + i)),
    decreases b,
{
    if b > 0 {
        lemma_sum_split(a, b - 1, f);
    }
}

/// A sum over `[0, h * w)` is a sum over `h` rows of `w` terms each.
pub proof fn lemma_sum_rows(h: int, w: int, f: spec_fn(int) -> int)
    requires
        h >= 0,
        w >= 0,
    ensures
        sum_to(h * w, f) == sum_to(h, |r: int| sum_to(w, |c: int| f(r * w + c))),
    decreases h,
{
    if h > 0 {
        let row = |r: int| sum_to(w, |c: int| f(r * w + c));
        lemma_sum_rows(h - 1, w, f);
        assert(sum_to(h, row) == sum_to(h - 1, row) + row(h - 1));
        assert(h * w == (h - 1) * w + w) by (nonlinear_arith);
        assert((h - 1) * w >= 0) by (nonlinear_arith)
            requires
                h >= 1,
                w >= 0,
        ;
        lemma_sum_split((h - 1) * w, w, f);
        lemma_sum_ext(w, |i: int| f((h - 1) * w + i), |c: int| f((h - 1) * w + c));
        assert(sum_to(h * w, f) == sum_to((h - 1) * w, f) + row(h - 1));
    } else {
        assert(h * w == 0) by (nonlinear_arith)
            requires
                h == 0,
        ;
    }
}

/// Splits off the first term of a sum.
pub proof fn lemma_sum_first(n: int, f: spec_fn(int) -> int)
    requires
        n >= 1,
    ensures
        sum_to(n, f) == f(0) + sum_to(n - 1, |i: int| f(i + 1)),
    decreases n,
{
    let g = |i: int| f(i + 1);
    if n > 1 {
        lemma_sum_first(n - 1, f);
        assert(sum_to(n - 1, g) == sum_to(n - 2, g) + g(n - 2));
    } else {
        assert(sum_to(n - 1, g) == 0);
        assert(sum_to(n, f) == sum_to(0, f) + f(0));
    }
}

/// Summing `f` over `[0, n)` read cyclically from any offset `d` in
/// `{-1, 0, 1}` gives the plain sum.
pub proof fn lemma_sum_rotate(n: int, d: int, f: spec_fn(int) -> int)
    requires
        n > 0,
        -1 <= d <= 1,
    ensures
        sum_to(n, |i: int| f((i + d) % n)) == sum_to(n, f),
{
    if d == 1 {
        lemma_sum_rotate_one(n, f);
    } else if d == 0 {
        assert forall|i: int| 0 <= i < n implies #[trigger] f((i + d) % n) == f(i) by {
            vstd::arithmetic::div_mod::lemma_small_mod(i as nat, n as nat);
        }
        lemma_sum_ext(n, |i: int| f((i + d) % n), f);
    } else {
        let g = |i: int| f((i - 1) % n);
        lemma_sum_rotate_one(n, g);
        assert forall|i: int| 0 <= i < n implies #[trigger] g((i + 1) % n) == f(i) by {
            if i < n - 1 {
                vstd::arithmetic::div_mod::lemma_small_mod((i + 1) as nat, n as nat);
                vstd::arithmetic::div_mod::lemma_small_mod(i as nat, n as nat);
            } else {
                vstd::arithmetic::div_mod::lemma_mod_self_0(n);
                vstd::arithmetic::div_mod::lemma_mod_add_multiples_vanish(-1, n);
                vstd::arithmetic::div_mod::lemma_small_mod((n - 1) as nat, n as nat);
            }
        }
        lemma_sum_ext(n, |i: int| g((i + 1) % n), f);
        lemma_sum_ext(n, |i: int| f((i + d) % n), g);
    }
}

proof fn lemma_sum_rotate_one(n: int, f: spec_fn(int) -> int)
    requires
        n > 0,
    ensures
        sum_to(n, |i: int| f((i + 1) % n)) == sum_to(n, f),
{
    let rot = |i: int| f((i + 1) % n);
    assert forall|i: int| 0 <= i < n - 1 implies #[trigger] rot(i) == f(i + 1) by {
        vstd::arithmetic::div_mod::lemma_small_mod((i + 1) as nat, n as nat);
    }
    lemma_sum_ext(n - 1, rot, |i: int| f(i + 1));
    vstd::arithmetic::div_mod::lemma_mod_self_0(n);
    lemma_sum_first(n, f);
}

} // verus!
