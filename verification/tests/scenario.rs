//! An end-to-end scenario and the error descriptions.

use mrf::error::MrfError;
use mrf::model::MRF;
use mrf::neighborhood::{Connectivity, Grid2D};
use mrf::potentials::pairwise::MatrixPairwise;
use mrf::potentials::unary::UniformUnary;
use mrf::state::{DiscreteLabels, StateSpace};
use mrf::weight::{LogWeight, Weight, WeightCell};

const EPSILON: f64 = 1e-10;

fn cells(raw: &[Vec<f64>]) -> Vec<Vec<WeightCell>> {
    let mut out: Vec<Vec<WeightCell>> = Vec::new();
    for (i, row) in raw.iter().enumerate() {
        let mut r: Vec<WeightCell> = Vec::new();
        for (j, &w) in row.iter().enumerate() {
            let matches_transpose = match raw.get(j).and_then(|t| t.get(i)) {
                Some(&t) => (w - t).abs() <= EPSILON,
                None => true,
            };
            r.push(WeightCell {
                raw: Weight { bits: w.to_bits() },
                log: LogWeight { bits: (w + EPSILON).ln().to_bits() },
                matches_transpose,
            });
        }
        out.push(r);
    }
    out
}

fn lw(x: f64) -> LogWeight {
    LogWeight { bits: x.to_bits() }
}

#[test]
fn four_by_four_grid_scenario() {
    let grid = Grid2D::new(4, 4, Connectivity::Four);
    let labels = DiscreteLabels::new(3);
    let state0 = labels.states()[0];
    let state1 = labels.states()[1];
    let pairwise = MatrixPairwise::new(&cells(&vec![
        vec![1.0, 0.5, 0.1],
        vec![0.5, 1.0, 0.3],
        vec![0.1, 0.3, 1.0],
    ]))
    .unwrap();
    let unary = UniformUnary::new(&[lw(1.0), lw(1.0), lw(1.0)]);

    let corner = grid.index(0, 0);
    let mrf = MRF::builder()
        .state_space(labels)
        .neighborhood(grid)
        .unary(unary)
        .pairwise(pairwise)
        .build();

    assert_eq!(mrf.num_nodes(), 16);
    assert_eq!(mrf.num_labels(), 3);

    let mut n = mrf.neighbors(corner).into_vec();
    assert_eq!(n.len(), 2);
    n.sort();
    assert_eq!(n, vec![1, 4]);

    let same = f64::from_bits(mrf.pairwise_log_potential(0, 1, &state0, &state0).bits);
    let diff = f64::from_bits(mrf.pairwise_log_potential(0, 1, &state0, &state1).bits);
    assert!(same > diff);

    assert_eq!(mrf.unary_log_potential(5, &state1), lw(1.0));
}

#[test]
fn error_messages_describe_the_failure() {
    assert_eq!(
        MrfError::EmptyStateSpace.message(),
        "Empty StateSpace Error"
    );
    assert_eq!(
        MrfError::AsymmetricMatrix { row: 0, col: 1 }.message(),
        "Asymmetric Matrix Error"
    );
    assert_eq!(
        MrfError::DimensionMismatch { expected: 2, got: 3 }.message(),
        "Dimension Mismatch Error"
    );
    assert_eq!(
        MrfError::NegativeWeight { row: 0, col: 0, value: Weight { bits: (-1.0f64).to_bits() } }
            .message(),
        "Negative Weight Error"
    );
}
