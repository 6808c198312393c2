use schrodinger::lattice::Lattice;
use schrodinger::operators::{derivative_pattern, stencil_row, Tap};
use schrodinger::quadrature::simpson_weights;

fn tap(index: usize, weight: i64) -> Tap {
    Tap { index, weight }
}

#[test]
fn stencil_boundary_rows_are_one_sided() {
    let n = 801;
    assert_eq!(stencil_row(n, 0), vec![tap(0, -2), tap(1, 1)]);
    assert_eq!(stencil_row(n, n - 1), vec![tap(n - 2, 1), tap(n - 1, -2)]);
    assert_eq!(stencil_row(n, 400), vec![tap(399, 1), tap(400, -2), tap(401, 1)]);
    for row in 0..n {
        for t in stencil_row(n, row) {
            assert!(t.index < n);
        }
    }
}

#[test]
fn stencil_on_two_points() {
    assert_eq!(stencil_row(2, 0), vec![tap(0, -2), tap(1, 1)]);
    assert_eq!(stencil_row(2, 1), vec![tap(0, 1), tap(1, -2)]);
}

#[test]
fn derivative_matrix_entries() {
    assert_eq!(derivative_pattern(0), Vec::<Vec<i64>>::new());
    assert_eq!(derivative_pattern(1), vec![vec![-2]]);
    assert_eq!(
        derivative_pattern(4),
        vec![vec![-2, 1, 0, 0], vec![1, -2, 1, 0], vec![0, 1, -2, 1], vec![0, 0, 1, -2]]
    );
}

#[test]
fn stencil_and_matrix_agree() {
    let f: Vec<i64> = vec![3, -1, 4, 1, -5, 9, 2, -6];
    let n = f.len();
    let m = derivative_pattern(n);
    for row in 0..n {
        let by_matrix: i64 = (0..n).map(|c| m[row][c] * f[c]).sum();
        let by_stencil: i64 = stencil_row(n, row).iter().map(|t| t.weight * f[t.index]).sum();
        assert_eq!(by_matrix, by_stencil);
    }
    let first: i64 = stencil_row(n, 0).iter().map(|t| t.weight * f[t.index]).sum();
    assert_eq!(first, -2 * 3 + -1);
}

#[test]
fn quadrature_weights() {
    assert_eq!(simpson_weights(1), vec![2]);
    assert_eq!(simpson_weights(2), vec![1, 4]);
    assert_eq!(simpson_weights(4), vec![1, 3, 3, 3]);
    assert_eq!(simpson_weights(7), vec![1, 3, 3, 2, 3, 3, 3]);
}

#[test]
fn quadrature_of_a_constant() {
    // 3Δx/8 · Σw over 7 unit samples on [0, 7]: Δx = 1, Σw = 18
    let w = simpson_weights(7);
    let sum: u64 = w.iter().sum();
    let integral = sum as f64 * 3.0 * (7.0 / 7.0) / 8.0;
    assert_eq!(integral, 54.0 / 8.0);
}

#[test]
fn lattices() {
    let x = Lattice::symmetric(400);
    assert_eq!(x.len(), 801);
    assert_eq!(x.offset(0), -400);
    assert_eq!(x.offset(800), 400);
    let k = Lattice::centered(10, 10);
    assert_eq!(k.offsets(), (0..=20).collect::<Vec<i64>>());
    assert_eq!(Lattice::symmetric(0).offsets(), vec![0]);
    assert_eq!(Lattice::centered(-3, 1).offsets(), vec![-4, -3, -2]);
}
