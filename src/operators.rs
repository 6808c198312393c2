//! The finite-difference second derivative on a grid of `len` samples, in two
//! forms: a three-point stencil read row by row, and a dense matrix with `-2`
//! on the diagonal and `1` beside it. Samples outside the grid are taken as
//! zero, so the first and last rows have only two terms.
//!
//! Both forms hold the integer weights only; the physical prefactor
//! `-ħ²/(2mΔx²)` is applied by whoever multiplies them with sample values.
use vstd::prelude::*;

verus! {

/// One term of a stencil row: the sample it reads and the weight it gives it.
#[derive(Debug, Clone, Copy, PartialEq, Eq, Structural)]
pub struct Tap {
    pub index: usize,
    pub weight: i64,
}

/// Entry `(row, col)` of the derivative matrix.
pub open spec fn derivative_coefficient(row: int, col: int) -> int {
    if row == col {
        -2
    } else if row == col + 1 || col == row + 1 {
        1
    } else {
        0
    }
}

/// The terms of row `row` of the stencil on `len` samples, in increasing
/// order of index.
pub open spec fn stencil_taps(len: nat, row: nat) -> Seq<Tap> {
    if row == 0 {
        seq![Tap { index: 0, weight: -2i64 }, Tap { index: 1, weight: 1 }]
    } else if row == len - 1 {
        seq![
            Tap { index: (row - 1) as usize, weight: 1 },
            Tap { index: row as usize, weight: -2i64 },
        ]
    } else {
        seq![
            Tap { index: (row - 1) as usize, weight: 1 },
            Tap { index: row as usize, weight: -2i64 },
            Tap { index: (row + 1) as usize, weight: 1 },
        ]
    }
}

/// What a list of terms makes of the samples `f`.
pub open spec fn tap_sum(taps: Seq<Tap>, f: Seq<int>) -> int
    decreases taps.len(),
{
    if taps.len() == 0 {
        0
    } else {
        tap_sum(taps.drop_last(), f) + taps.last().weight * f[taps.last().index as int]
    }
}

/// The product of row `row` of the derivative matrix with the first `upto`
/// samples of `f`.
pub open spec fn matrix_row_sum(row: int, f: Seq<int>, upto: nat) -> int
    decreases upto,
{
    if upto == 0 {
        0
    } else {
        matrix_row_sum(row, f, (upto - 1) as nat) + derivative_coefficient(row, upto - 1) * f[upto
            - 1]
    }
}

/// The terms of row `row` of the stencil on `len` samples. Only samples of
/// the grid are read: the first and the last row have the one-sided form
/// of two terms, every other row three.
pub fn stencil_row(len: usize, row: usize) -> (r: Vec<Tap>)
    requires
        2 <= len,
        row < len,
    ensures
        r@ == stencil_taps(len as nat, row as nat),
        forall|k: int| 0 <= k < r@.len() ==> #[trigger] r@[k].index < len,
        forall|k: int|
            0 <= k < r@.len() ==> #[trigger] r@[k].weight == derivative_coefficient(
                row as int,
                r@[k].index as int,
            ),
        r@.len() == 2 <==> (row == 0 || row == len - 1),
{
    let mut r: Vec<Tap> = Vec::new();
    if row == 0 {
        r.push(Tap { index: 0, weight: -2 });
        r.push(Tap { index: 1, weight: 1 });
    } else if row == len - 1 {
        r.push(Tap { index: row - 1, weight: 1 });
        r.push(Tap { index: row, weight: -2 });
    } else {
        r.push(Tap { index: row - 1, weight: 1 });
        r.push(Tap { index: row, weight: -2 });
        r.push(Tap { index: row + 1, weight: 1 });
    }
    assert(r@ =~= stencil_taps(len as nat, row as nat));
    r
}

/// The `size × size` derivative matrix, row by row: `-2` on the diagonal,
/// `1` directly above and below it, `0` elsewhere.
pub fn derivative_pattern(size: usize) -> (m: Vec<Vec<i64>>)
    ensures
        m@.len() == size,
        forall|r: int| 0 <= r < size ==> (#[trigger] m@[r])@.len() == size,
        forall|r: int, c: int|
            0 <= r < size && 0 <= c < size ==> (#[trigger] m@[r]@[c]) == derivative_coefficient(
                r,
                c,
            ),
{
    let mut m: Vec<Vec<i64>> = Vec::new();
    for r in 0..size
        invariant
            m@.len() == r,
            forall|i: int| 0 <= i < r ==> (#[trigger] m@[i])@.len() == size,
            forall|i: int, c: int|
                0 <= i < r && 0 <= c < size ==> (#[trigger] m@[i]@[c]) == derivative_coefficient(
                    i,
                    c,
                ),
    {
        let mut line: Vec<i64> = Vec::new();
        for c in 0..size
            invariant
                r < size,
                line@.len() == c,
                forall|j: int|
                    0 <= j < c ==> (#[trigger] line@[j]) == derivative_coefficient(r as int, j),
        {
            let w: i64 = if r == c {
                -2
            } else if r == c + 1 || c == r + 1 {
                1
            } else {
                0
            };
            line.push(w);
        }
        m.push(line);
    }
    m
}

proof fn lemma_row_sum_before_band(row: int, f: Seq<int>, upto: nat)
    requires
        upto <= row - 1,
    ensures
        matrix_row_sum(row, f, upto) == 0,
    decreases upto,
{
    if upto > 0 {
        lemma_row_sum_before_band(row, f, (upto - 1) as nat);
    }
}

proof fn lemma_row_sum_after_band(row: int, f: Seq<int>, upto: nat)
    requires
        0 <= row,
        upto >= row + 2,
    ensures
        matrix_row_sum(row, f, upto) == matrix_row_sum(row, f, (row + 2) as nat),
    decreases upto,
{
    if upto > row + 2 {
        lemma_row_sum_after_band(row, f, (upto - 1) as nat);
    }
}

/// The stencil and the matrix are the same operator: for every row and every
/// vector of samples, the stencil's terms sum to the matrix row's product with
/// the vector.
pub proof fn lemma_stencil_matches_matrix(len: nat, row: nat, f: Seq<int>)
    requires
        2 <= len <= usize::MAX,
        row < len,
        f.len() == len,
    ensures
        tap_sum(stencil_taps(len, row), f) == matrix_row_sum(row as int, f, len),
{
    let taps = stencil_taps(len, row);
    let r = row as int;
    let t1 = taps.drop_last();
    let t0 = t1.drop_last();
    assert(matrix_row_sum(r, f, 0) == 0);
    if row == 0 {
        assert(t0 =~= Seq::<Tap>::empty());
        assert(tap_sum(t0, f) == 0);
        assert(t1.last() == Tap { index: 0, weight: -2i64 });
        assert(tap_sum(t1, f) == -2 * f[0]);
        lemma_row_sum_after_band(r, f, len);
        assert(matrix_row_sum(r, f, 1) == -2 * f[0]);
    } else {
        lemma_row_sum_before_band(r, f, (row - 1) as nat);
        assert(matrix_row_sum(r, f, row) == f[r - 1]);
        assert(matrix_row_sum(r, f, row + 1) == f[r - 1] - 2 * f[r]);
        if row == len - 1 {
            assert(t0 =~= Seq::<Tap>::empty());
            assert(tap_sum(t0, f) == 0);
            assert(t1.last().index == r - 1);
            assert(tap_sum(t1, f) == f[r - 1]);
        } else {
            lemma_row_sum_after_band(r, f, len);
            assert(t0.drop_last() =~= Seq::<Tap>::empty());
            assert(tap_sum(t0.drop_last(), f) == 0);
            assert(t0.last().index == r - 1);
            assert(tap_sum(t0, f) == f[r - 1]);
            assert(t1.last().index == r);
            assert(tap_sum(t1, f) == f[r - 1] - 2 * f[r]);
        }
    }
}

} // verus!
