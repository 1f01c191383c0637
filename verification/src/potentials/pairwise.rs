//! Pairwise potentials: per-edge, per-label-pair log-weights, built from a
//! validated symmetric weight matrix.

use vstd::prelude::*;
use vstd::arithmetic::div_mod::lemma_fundamental_div_mod_converse;
use crate::error::MrfError;
use crate::state::{StateIndex, StateSpace};
use crate::weight::{weight_is_negative, LogWeight, WeightCell};

verus! {

/// A function from an edge and the labels of its endpoints to a log-weight.
pub trait PairwisePotential<S: StateSpace> {
    /// The number of labels the potential is defined over.
    spec fn num_labels_spec(&self) -> int;

    /// The label pairs the potential is defined on.
    spec fn valid_labels(&self, a: int, b: int) -> bool;

    /// The log-weight assigned to the label pair `(a, b)`.
    spec fn log_potential_spec(&self, a: int, b: int) -> LogWeight;

    /// Returns the log-weight for the edge `(i, j)` with states `i_state`
    /// and `j_state`.
    fn log_potential(&self, i: usize, j: usize, i_state: &S::State, j_state: &S::State) -> (r:
        LogWeight)
        requires
            self.valid_labels(i_state.index_spec(), j_state.index_spec()),
        ensures
            r == self.log_potential_spec(i_state.index_spec(), j_state.index_spec()),
    ;

    /// Returns the number of labels.
    fn num_labels(&self) -> (r: usize)
        ensures
            r as int == self.num_labels_spec(),
    ;
}

/// The sequence-of-rows view of a raw weight matrix.
pub open spec fn matrix_view(rows: Seq<Vec<WeightCell>>) -> Seq<Seq<WeightCell>> {
    rows.map_values(|row: Vec<WeightCell>| row@)
}

/// Every row is as long as the matrix is high.
pub open spec fn dims_ok(m: Seq<Seq<WeightCell>>) -> bool {
    forall|i: int| 0 <= i < m.len() ==> (#[trigger] m[i]).len() == m.len()
}

/// The upper-triangle cell `(i, j)` passes validation: its weight is not
/// negative, and off the diagonal it agrees with its transpose within
/// tolerance.
pub open spec fn cell_ok(m: Seq<Seq<WeightCell>>, i: int, j: int) -> bool {
    &&& !weight_is_negative(m[i][j].raw)
    &&& (i < j ==> m[i][j].matches_transpose)
}

/// Every upper-triangle cell passes validation.
pub open spec fn cells_ok(m: Seq<Seq<WeightCell>>) -> bool {
    forall|i: int, j: int| 0 <= i <= j < m.len() ==> #[trigger] cell_ok(m, i, j)
}

/// The matrix is accepted: nonempty, square, and every upper-triangle
/// cell passes validation.
pub open spec fn accepts(m: Seq<Seq<WeightCell>>) -> bool {
    m.len() > 0 && dims_ok(m) && cells_ok(m)
}

/// The upper-triangle scan visits `(i1, j1)` before `(i2, j2)`: row by
/// row, and within a row by column.
pub open spec fn scanned_before(i1: int, j1: int, i2: int, j2: int) -> bool {
    i1 < i2 || (i1 == i2 && j1 < j2)
}

/// Every upper-triangle cell the scan visits before `(i, j)` passes
/// validation.
pub open spec fn earlier_cells_ok(m: Seq<Seq<WeightCell>>, i: int, j: int) -> bool {
    forall|a: int, b: int|
        0 <= a <= b < m.len() && scanned_before(a, b, i, j) ==> #[trigger] cell_ok(m, a, b)
}

/// The flattened table holds the log transform of the upper-triangle cell
/// `(a, b)` at both of the positions for the pair.
spec fn pair_filled(t: Seq<LogWeight>, m: Seq<Seq<WeightCell>>, n: int, a: int, b: int) -> bool {
    &&& t[a * n + b] == m[a][b].log
    &&& t[b * n + a] == m[a][b].log
}

/// A flat row-major position of a cell of an `n`-by-`n` table is in range.
proof fn lemma_flat_bounds(n: int, a: int, b: int)
    by (nonlinear_arith)
    requires
        0 <= a < n,
        0 <= b < n,
    ensures
        0 <= a * n + b < n * n,
{
}

/// Distinct cells of an `n`-by-`n` table have distinct flat positions.
proof fn lemma_flat_distinct(n: int, a: int, b: int, c: int, d: int)
    requires
        0 <= a < n,
        0 <= b < n,
        0 <= c < n,
        0 <= d < n,
        !(a == c && b == d),
    ensures
        a * n + b != c * n + d,
{
    lemma_fundamental_div_mod_converse(a * n + b, n, a, b);
    lemma_fundamental_div_mod_converse(c * n + d, n, c, d);
}

/// A pairwise potential backed by a validated, symmetric, flattened table
/// of log-weights, indexed by label pair; the edge itself is ignored.
#[derive(Debug)]
pub struct MatrixPairwise {
    log_potentials: Vec<LogWeight>,
    num_labels: usize,
}

impl MatrixPairwise {
    /// The number of labels the table covers.
    pub closed spec fn label_count(&self) -> int {
        self.num_labels as int
    }

    /// The table entry for the label pair `(a, b)`.
    pub closed spec fn entry(&self, a: int, b: int) -> LogWeight {
        self.log_potentials@[a * self.label_count() + b]
    }

    /// The table is a full square and symmetric in the label pair.
    #[verifier::type_invariant]
    pub closed spec fn well_formed(&self) -> bool {
        &&& self.log_potentials@.len() == self.label_count() * self.label_count()
        &&& self.label_count() * self.label_count() <= usize::MAX
        &&& forall|a: int, b: int|
            0 <= a < self.label_count() && 0 <= b < self.label_count() ==> #[trigger] self.entry(
                a,
                b,
            ) == self.entry(b, a)
    }

    /// Validates a raw weight matrix and builds the symmetric table of its
    /// log transforms.
    ///
    /// The matrix must be nonempty and square, every upper-triangle weight
    /// must be non-negative, and every strict upper-triangle cell must
    /// agree with its transpose within tolerance; the first violation in
    /// row-major upper-triangle order is reported. On success, the entry
    /// for a label pair is the log transform of the cell at the sorted
    /// pair, so the table is symmetric by construction.
    pub fn new(raw_weights: &Vec<Vec<WeightCell>>) -> (r: Result<MatrixPairwise, MrfError>)
        requires
            raw_weights@.len() * raw_weights@.len() <= usize::MAX,
        ensures
            ({
                let m = matrix_view(raw_weights@);
                let n = m.len() as int;
                &&& (r is Ok <==> accepts(m))
                &&& (r matches Ok(mp) ==> mp.well_formed())
                &&& (r matches Ok(mp) ==> mp.label_count() == n && forall|a: int, b: int|
                    0 <= a < n && 0 <= b < n ==> #[trigger] mp.entry(a, b) == m[if a <= b {
                        a
                    } else {
                        b
                    }][if a <= b {
                        b
                    } else {
                        a
                    }].log)
                &&& (n == 0 ==> r matches Err(MrfError::EmptyStateSpace))
                &&& (r matches Err(MrfError::EmptyStateSpace) ==> n == 0)
                &&& (r matches Err(MrfError::DimensionMismatch { expected, got }) ==> expected
                    == n && exists|i: int|
                    0 <= i < n && (#[trigger] m[i]).len() != n && got == m[i].len() && (forall|
                        k: int,
                    |
                        0 <= k < i ==> (#[trigger] m[k]).len() == n))
                &&& (n > 0 && !dims_ok(m) ==> r matches Err(MrfError::DimensionMismatch { .. }))
                &&& (r matches Err(MrfError::NegativeWeight { row, col, value }) ==> dims_ok(m)
                    && 0 <= row <= col && (col as int) < n && weight_is_negative(
                    m[row as int][col as int].raw,
                ) && value == m[row as int][col as int].raw && earlier_cells_ok(
                    m,
                    row as int,
                    col as int,
                ))
                &&& (r matches Err(MrfError::AsymmetricMatrix { row, col }) ==> dims_ok(m) && 0
                    <= row < col && (col as int) < n && !m[row as int][col as int].matches_transpose
                    && !weight_is_negative(m[row as int][col as int].raw) && earlier_cells_ok(
                    m,
                    row as int,
                    col as int,
                ))
            }),
    {
        let ghost m = matrix_view(raw_weights@);
        let n = raw_weights.len();
        if n == 0 {
            return Err(MrfError::EmptyStateSpace);
        }
        let mut i: usize = 0;
        while i < n
            invariant
                n == raw_weights@.len(),
                m == matrix_view(raw_weights@),
                i <= n,
                forall|k: int| 0 <= k < i ==> (#[trigger] m[k]).len() == n,
            decreases n - i,
        {
            proof {
                assert(m[i as int] == raw_weights@[i as int]@);
            }
            if raw_weights[i].len() != n {
                return Err(MrfError::DimensionMismatch { expected: n, got: raw_weights[i].len() });
            }
            i = i + 1;
        }
        let mut table: Vec<LogWeight> = vec![LogWeight { bits: 0 };n * n];
        let mut i: usize = 0;
        while i < n
            invariant
                n == raw_weights@.len(),
                m == matrix_view(raw_weights@),
                n > 0,
                n * n <= usize::MAX,
                dims_ok(m),
                i <= n,
                table@.len() == n * n,
                forall|a: int, b: int| 0 <= a <= b < n && a < i ==> #[trigger] cell_ok(m, a, b),
                forall|a: int, b: int|
                    0 <= a <= b < n && a < i ==> #[trigger] pair_filled(table@, m, n as int, a, b),
            decreases n - i,
        {
            let mut j: usize = i;
            while j < n
                invariant
                    n == raw_weights@.len(),
                    m == matrix_view(raw_weights@),
                    n > 0,
                    n * n <= usize::MAX,
                    dims_ok(m),
                    i < n,
                    i <= j <= n,
                    table@.len() == n * n,
                    forall|a: int, b: int| 0 <= a <= b < n && a < i ==> #[trigger] cell_ok(m, a, b),
                    forall|b: int| i <= b < j ==> #[trigger] cell_ok(m, i as int, b),
                    forall|a: int, b: int|
                        0 <= a <= b < n && a < i ==> #[trigger] pair_filled(
                            table@,
                            m,
                            n as int,
                            a,
                            b,
                        ),
                    forall|b: int|
                        i <= b < j ==> #[trigger] pair_filled(table@, m, n as int, i as int, b),
                decreases n - j,
            {
                proof {
                    assert(m[i as int] == raw_weights@[i as int]@);
                    assert(m[i as int].len() == n);
                }
                let cell = raw_weights[i][j];
                if cell.raw.is_negative() {
                    proof {
                        assert(!cell_ok(m, i as int, j as int));
                    }
                    return Err(MrfError::NegativeWeight { row: i, col: j, value: cell.raw });
                }
                if j > i && !cell.matches_transpose {
                    proof {
                        assert(!cell_ok(m, i as int, j as int));
                    }
                    return Err(MrfError::AsymmetricMatrix { row: i, col: j });
                }
                proof {
                    lemma_flat_bounds(n as int, i as int, j as int);
                    lemma_flat_bounds(n as int, j as int, i as int);
                }
                let ghost table_before = table@;
                table.set(i * n + j, cell.log);
                table.set(j * n + i, cell.log);
                proof {
                    let gi = i as int;
                    let gj = j as int;
                    let gn = n as int;
                    assert(cell_ok(m, gi, gj));
                    if gi != gj {
                        lemma_flat_distinct(gn, gi, gj, gj, gi);
                    }
                    assert(pair_filled(table@, m, gn, gi, gj));
                    assert forall|a: int, b: int|
                        0 <= a <= b < gn && (a < gi || (a == gi && b < gj)) implies #[trigger] pair_filled(
                        table@,
                        m,
                        gn,
                        a,
                        b,
                    ) by {
                        assert(pair_filled(table_before, m, gn, a, b));
                        lemma_flat_bounds(gn, a, b);
                        lemma_flat_bounds(gn, b, a);
                        lemma_flat_distinct(gn, a, b, gi, gj);
                        lemma_flat_distinct(gn, b, a, gi, gj);
                        if !(a == gj && b == gi) {
                            lemma_flat_distinct(gn, a, b, gj, gi);
                        }
                        if !(b == gj && a == gi) {
                            lemma_flat_distinct(gn, b, a, gj, gi);
                        }
                    }
                }
                j = j + 1;
            }
            i = i + 1;
        }
        let ghost candidate = (MatrixPairwise { log_potentials: table, num_labels: n });
        proof {
            let gn = n as int;
            assert forall|a: int, b: int|
                0 <= a < gn && 0 <= b < gn implies #[trigger] candidate.entry(a, b) == m[if a <= b {
                a
            } else {
                b
            }][if a <= b {
                b
            } else {
                a
            }].log by {
                if a <= b {
                    assert(pair_filled(table@, m, gn, a, b));
                } else {
                    assert(pair_filled(table@, m, gn, b, a));
                }
            }
            assert(candidate.well_formed());
        }
        let result = MatrixPairwise { log_potentials: table, num_labels: n };
        proof {
            assert(result == candidate);
        }
        Ok(result)
    }
}

impl<S: StateSpace> PairwisePotential<S> for MatrixPairwise {
    closed spec fn num_labels_spec(&self) -> int {
        self.label_count()
    }

    open spec fn valid_labels(&self, a: int, b: int) -> bool {
        0 <= a < self.label_count() && 0 <= b < self.label_count()
    }

    closed spec fn log_potential_spec(&self, a: int, b: int) -> LogWeight {
        self.entry(a, b)
    }

    fn log_potential(&self, _i: usize, _j: usize, i_state: &S::State, j_state: &S::State) -> (r:
        LogWeight) {
        proof {
            use_type_invariant(self);
        }
        let a = i_state.as_index();
        let b = j_state.as_index();
        proof {
            lemma_flat_bounds(self.num_labels as int, a as int, b as int);
        }
        self.log_potentials[a * self.num_labels + b]
    }

    fn num_labels(&self) -> (r: usize) {
        self.num_labels
    }
}

/// The pairwise table is symmetric: the label pairs `(a, b)` and `(b, a)`
/// always carry the same log-weight.
pub proof fn lemma_log_potential_symmetric(mp: &MatrixPairwise, a: int, b: int)
    requires
        mp.well_formed(),
        0 <= a < mp.label_count(),
        0 <= b < mp.label_count(),
    ensures
        mp.entry(a, b) == mp.entry(b, a),
{
}

/// For any state space, the potential a [`MatrixPairwise`] exposes through
/// the [`PairwisePotential`] contract is its table entry for the label
/// pair, independent of the edge.
pub proof fn lemma_matrix_log_potential_spec<S: StateSpace>(mp: &MatrixPairwise, a: int, b: int)
    ensures
        <MatrixPairwise as PairwisePotential<S>>::log_potential_spec(mp, a, b) == mp.entry(a, b),
        <MatrixPairwise as PairwisePotential<S>>::num_labels_spec(mp) == mp.label_count(),
{
}

} // verus!
