//! Counting and summing over regularly spaced sample points, the shape of
//! every pixel scan in the pipeline.

use vstd::prelude::*;

verus! {

/// Number of sample points `start, start + step, ...` below `end` at which
/// `p` holds.
pub open spec fn tally(start: int, end: int, step: int, p: spec_fn(int) -> bool) -> nat
    decreases if start < end { end - start } else { 0 },
{
    if step <= 0 || start >= end {
        0
    } else {
        (if p(start) { 1nat } else { 0nat }) + tally(start + step, end, step, p)
    }
}

/// Sum of `f` over the sample points `start, start + step, ...` below `end`.
pub open spec fn sum_over(start: int, end: int, step: int, f: spec_fn(int) -> int) -> int
    decreases if start < end { end - start } else { 0 },
{
    if step <= 0 || start >= end {
        0
    } else {
        f(start) + sum_over(start + step, end, step, f)
    }
}

/// The row `y` of a two-dimensional predicate.
pub open spec fn row_of(p: spec_fn(int, int) -> bool, y: int) -> spec_fn(int) -> bool {
    |x: int| p(x, y)
}

/// Number of grid points (x, y), x from `x0` by `xs` below `x1`, y from `y0`
/// by `ys` below `y1`, at which `p` holds.
pub open spec fn tally2(
    y0: int,
    y1: int,
    ys: int,
    x0: int,
    x1: int,
    xs: int,
    p: spec_fn(int, int) -> bool,
) -> nat
    decreases if y0 < y1 { y1 - y0 } else { 0 },
{
    if ys <= 0 || y0 >= y1 {
        0
    } else {
        tally(x0, x1, xs, row_of(p, y0)) + tally2(y0 + ys, y1, ys, x0, x1, xs, p)
    }
}

/// Number of sample points below `end`: the length of `(start..end).step_by(step)`.
pub open spec fn sample_count(start: int, end: int, step: int) -> nat
    decreases if start < end { end - start } else { 0 },
{
    if step <= 0 || start >= end {
        0
    } else {
        1 + sample_count(start + step, end, step)
    }
}

pub proof fn lemma_tally_bound(start: int, end: int, step: int, p: spec_fn(int) -> bool)
    ensures
        tally(start, end, step, p) <= sample_count(start, end, step),
    decreases if start < end { end - start } else { 0 },
{
    if step > 0 && start < end {
        lemma_tally_bound(start + step, end, step, p);
    }
}

pub proof fn lemma_sample_count_bound(start: int, end: int, step: int)
    requires
        step > 0,
        start <= end,
    ensures
        sample_count(start, end, step) <= end - start,
        start < end ==> sample_count(start, end, step) >= 1,
    decreases if start < end { end - start } else { 0 },
{
    if start < end {
        if start + step < end {
            lemma_sample_count_bound(start + step, end, step);
        } else {
            assert(sample_count(start + step, end, step) == 0);
        }
    }
}

pub proof fn lemma_tally2_bound(y0: int, y1: int, ys: int, x0: int, x1: int, xs: int, p: spec_fn(int, int) -> bool)
    requires
        ys > 0,
        xs > 0,
    ensures
        tally2(y0, y1, ys, x0, x1, xs, p) <= (if y1 > y0 { y1 - y0 } else { 0 }) * (if x1 > x0 { x1 - x0 } else { 0 }),
    decreases if y0 < y1 { y1 - y0 } else { 0 },
{
    if y0 < y1 {
        lemma_tally2_bound(y0 + ys, y1, ys, x0, x1, xs, p);
        lemma_tally_bound(x0, x1, xs, row_of(p, y0));
        if x0 < x1 {
            lemma_sample_count_bound(x0, x1, xs);
        }
        let a = if y1 > y0 + ys { y1 - (y0 + ys) } else { 0 };
        let b = if x1 > x0 { x1 - x0 } else { 0 };
        assert(a * b + b <= (y1 - y0) * b) by (nonlinear_arith)
            requires a <= y1 - y0 - 1 || a == 0, y1 - y0 >= 1, b >= 0, ys >= 1, a == (if y1 > y0 + ys { y1 - (y0 + ys) } else { 0 });
    }
}

/// Number of sample points `start, start + step, ...` below `end` of a
/// row of `p`, as a loop over `u64` coordinates driven by `f`.
fn count_row<F: Fn(u64, u64) -> bool>(y: u64, x0: u64, x1: u64, xs: u64, f: &F, Ghost(p): Ghost<spec_fn(int, int) -> bool>) -> (r: u64)
    requires
        xs > 0,
        xs <= u32::MAX,
        x1 <= u32::MAX,
        forall|x: u64| x0 <= x < x1 ==> #[trigger] f.requires((x, y)),
        forall|x: u64, b: bool| x0 <= x < x1 && f.ensures((x, y), b) ==> b == p(x as int, y as int),
    ensures
        r == tally(x0 as int, x1 as int, xs as int, row_of(p, y as int)),
        r <= u32::MAX,
{
    let mut n: u64 = 0;
    let mut x: u64 = x0;
    proof {
        lemma_tally_bound(x0 as int, x1 as int, xs as int, row_of(p, y as int));
        if x0 < x1 { lemma_sample_count_bound(x0 as int, x1 as int, xs as int); }
    }
    while x < x1
        invariant
            xs > 0,
            xs <= u32::MAX,
            x1 <= u32::MAX,
            x <= x1 + xs || x == x0,
            x0 <= x,
            forall|x: u64| x0 <= x < x1 ==> #[trigger] f.requires((x, y)),
            forall|x: u64, b: bool| x0 <= x < x1 && f.ensures((x, y), b) ==> b == p(x as int, y as int),
            n + tally(x as int, x1 as int, xs as int, row_of(p, y as int)) == tally(x0 as int, x1 as int, xs as int, row_of(p, y as int)),
            n <= x - x0,
        decreases x1 + xs - x,
    {
        let hit = f(x, y);
        proof {
            assert(hit == row_of(p, y as int)(x as int));
            lemma_tally_bound(x + xs, x1 as int, xs as int, row_of(p, y as int));
        }
        if hit {
            n = n + 1;
        }
        x = x + xs;
    }
    proof {
        assert(tally(x as int, x1 as int, xs as int, row_of(p, y as int)) == 0);
    }
    n
}

/// Number of grid points (x, y), x from `x0` by `xs` below `x1`, y from
/// `y0` by `ys` below `y1`, at which `f` answers true; `f` answers as `p`.
pub fn count_grid<F: Fn(u64, u64) -> bool>(
    y0: u64,
    y1: u64,
    ys: u64,
    x0: u64,
    x1: u64,
    xs: u64,
    f: &F,
    Ghost(p): Ghost<spec_fn(int, int) -> bool>,
) -> (r: u64)
    requires
        ys > 0,
        xs > 0,
        ys <= u32::MAX,
        xs <= u32::MAX,
        y1 <= u32::MAX,
        x1 <= u32::MAX,
        forall|x: u64, y: u64| x0 <= x < x1 && y0 <= y < y1 ==> #[trigger] f.requires((x, y)),
        forall|x: u64, y: u64, b: bool| x0 <= x < x1 && y0 <= y < y1 && f.ensures((x, y), b) ==> b == p(x as int, y as int),
    ensures
        r == tally2(y0 as int, y1 as int, ys as int, x0 as int, x1 as int, xs as int, p),
{
    let mut n: u64 = 0;
    let mut y: u64 = y0;
    while y < y1
        invariant
            ys > 0,
            xs > 0,
            ys <= u32::MAX,
            xs <= u32::MAX,
            y1 <= u32::MAX,
            x1 <= u32::MAX,
            y <= y1 + ys || y == y0,
            y0 <= y,
            forall|x: u64, y: u64| x0 <= x < x1 && y0 <= y < y1 ==> #[trigger] f.requires((x, y)),
            forall|x: u64, y: u64, b: bool| x0 <= x < x1 && y0 <= y < y1 && f.ensures((x, y), b) ==> b == p(x as int, y as int),
            n + tally2(y as int, y1 as int, ys as int, x0 as int, x1 as int, xs as int, p)
                == tally2(y0 as int, y1 as int, ys as int, x0 as int, x1 as int, xs as int, p),
            y < y1 ==> n <= y * 0x1_0000_0000,
        decreases y1 + ys - y,
    {
        let k = count_row(y, x0, x1, xs, f, Ghost(p));
        n = n + k;
        y = y + ys;
    }
    proof {
        assert(tally2(y as int, y1 as int, ys as int, x0 as int, x1 as int, xs as int, p) == 0);
    }
    n
}

/// Number of sample points `x0, x0 + xs, ...` below `x1` at which `f`
/// answers true; `f` answers as `p`.
pub fn count_1d<F: Fn(u64) -> bool>(x0: u64, x1: u64, xs: u64, f: &F, Ghost(p): Ghost<spec_fn(int) -> bool>) -> (r: u64)
    requires
        xs > 0,
        xs <= u32::MAX,
        x1 <= u32::MAX,
        forall|x: u64| x0 <= x < x1 ==> #[trigger] f.requires((x,)),
        forall|x: u64, b: bool| x0 <= x < x1 && f.ensures((x,), b) ==> b == p(x as int),
    ensures
        r == tally(x0 as int, x1 as int, xs as int, p),
        r <= u32::MAX,
{
    let mut n: u64 = 0;
    let mut x: u64 = x0;
    proof {
        lemma_tally_bound(x0 as int, x1 as int, xs as int, p);
        if x0 < x1 { lemma_sample_count_bound(x0 as int, x1 as int, xs as int); }
    }
    while x < x1
        invariant
            xs > 0,
            xs <= u32::MAX,
            x1 <= u32::MAX,
            x <= x1 + xs || x == x0,
            x0 <= x,
            forall|x: u64| x0 <= x < x1 ==> #[trigger] f.requires((x,)),
            forall|x: u64, b: bool| x0 <= x < x1 && f.ensures((x,), b) ==> b == p(x as int),
            n + tally(x as int, x1 as int, xs as int, p) == tally(x0 as int, x1 as int, xs as int, p),
            n <= x - x0,
        decreases x1 + xs - x,
    {
        let hit = f(x);
        proof { lemma_tally_bound(x + xs, x1 as int, xs as int, p); }
        if hit {
            n = n + 1;
        }
        x = x + xs;
    }
    proof {
        assert(tally(x as int, x1 as int, xs as int, p) == 0);
    }
    n
}

} // verus!
