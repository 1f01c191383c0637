use mrf::error::MrfError;
use mrf::potentials::pairwise::{MatrixPairwise, PairwisePotential};
use mrf::state::{DiscreteLabels, StateSpace};
use mrf::weight::{LogWeight, Weight, WeightCell};

const EPSILON: f64 = 1e-10;

/// Converts a raw matrix of doubles into the cell form the library
/// validates: each cell carries the weight's bit pattern, the bits of
/// ln(weight + EPSILON), and whether it matches its transpose within
/// EPSILON.
fn cells(raw: &[Vec<f64>]) -> Vec<Vec<WeightCell>> {
    let mut out: Vec<Vec<WeightCell>> = Vec::new();
    for (i, row) in raw.iter().enumerate() {
        let mut r: Vec<WeightCell> = Vec::new();
        for (j, &w) in row.iter().enumerate() {
            let matches_transpose = match raw.get(j).and_then(|t| t.get(i)) {
                Some(&t) => (w - t).abs() <= EPSILON,
                None => true,
            };
            r.push(WeightCell {
                raw: Weight { bits: w.to_bits() },
                log: LogWeight { bits: (w + EPSILON).ln().to_bits() },
                matches_transpose,
            });
        }
        out.push(r);
    }
    out
}

fn val(l: LogWeight) -> f64 {
    f64::from_bits(l.bits)
}

// --- Construction: valid inputs ---

#[test]
fn new_symmetric_matrix() {
    let result = MatrixPairwise::new(&cells(&vec![vec![1.0, 0.5], vec![0.5, 1.0]]));
    assert!(result.is_ok());
}

#[test]
fn new_single_label() {
    let result = MatrixPairwise::new(&cells(&vec![vec![1.0]]));
    assert!(result.is_ok());
}

#[test]
fn new_with_zeros() {
    let result = MatrixPairwise::new(&cells(&vec![vec![1.0, 0.0], vec![0.0, 1.0]]));
    assert!(result.is_ok());
}

#[test]
fn num_labels_matches() {
    let mp = MatrixPairwise::new(&cells(&vec![
        vec![1.0, 0.5, 0.1],
        vec![0.5, 1.0, 0.3],
        vec![0.1, 0.3, 1.0],
    ]))
    .unwrap();
    assert_eq!(
        <MatrixPairwise as PairwisePotential<DiscreteLabels>>::num_labels(&mp),
        3
    );
}

// --- Construction: invalid inputs ---

#[test]
fn empty_matrix_fails() {
    let result = MatrixPairwise::new(&cells(&vec![]));
    assert!(matches!(result, Err(MrfError::EmptyStateSpace)));
}

#[test]
fn non_square_matrix_fails() {
    let result = MatrixPairwise::new(&cells(&vec![vec![1.0, 0.5, 0.1], vec![0.5, 1.0]]));
    assert!(matches!(
        result,
        Err(MrfError::DimensionMismatch { expected: 2, got: 3 })
            | Err(MrfError::DimensionMismatch { expected: 3, got: 2 })
    ));
}

#[test]
fn negative_weight_fails() {
    let result = MatrixPairwise::new(&cells(&vec![vec![1.0, -0.5], vec![-0.5, 1.0]]));
    assert!(matches!(result, Err(MrfError::NegativeWeight { .. })));
}

#[test]
fn asymmetric_matrix_fails() {
    let result = MatrixPairwise::new(&cells(&vec![vec![1.0, 0.8], vec![0.3, 1.0]]));
    assert!(matches!(
        result,
        Err(MrfError::AsymmetricMatrix { row: 0, col: 1 })
    ));
}

#[test]
fn asymmetry_within_epsilon_passes() {
    let tiny = 1e-12;
    let result = MatrixPairwise::new(&cells(&vec![vec![1.0, 0.5 + tiny], vec![0.5, 1.0]]));
    assert!(result.is_ok());
}

#[test]
fn asymmetry_beyond_epsilon_fails() {
    let result = MatrixPairwise::new(&cells(&vec![vec![1.0, 0.5 + 1e-8], vec![0.5, 1.0]]));
    assert!(matches!(result, Err(MrfError::AsymmetricMatrix { .. })));
}

// --- Log potential values ---

#[test]
fn log_potential_is_ln_of_input_plus_epsilon() {
    let mp = MatrixPairwise::new(&cells(&vec![vec![1.0, 0.5], vec![0.5, 1.0]])).unwrap();

    let labels = DiscreteLabels::new(2);
    let states = labels.states();
    let epsilon = 1e-10;

    let v = val(<MatrixPairwise as PairwisePotential<DiscreteLabels>>::log_potential(
        &mp, 0, 1, &states[0], &states[0],
    ));
    assert!((v - (1.0_f64 + epsilon).ln()).abs() < 1e-12);

    let v = val(<MatrixPairwise as PairwisePotential<DiscreteLabels>>::log_potential(
        &mp, 0, 1, &states[0], &states[1],
    ));
    assert!((v - (0.5_f64 + epsilon).ln()).abs() < 1e-12);
}

#[test]
fn log_potential_symmetric() {
    let mp = MatrixPairwise::new(&cells(&vec![vec![1.0, 0.3], vec![0.3, 1.0]])).unwrap();

    let labels = DiscreteLabels::new(2);
    let states = labels.states();

    let ab = val(<MatrixPairwise as PairwisePotential<DiscreteLabels>>::log_potential(
        &mp, 0, 1, &states[0], &states[1],
    ));
    let ba = val(<MatrixPairwise as PairwisePotential<DiscreteLabels>>::log_potential(
        &mp, 0, 1, &states[1], &states[0],
    ));
    assert!((ab - ba).abs() < 1e-12);
}

#[test]
fn log_potential_ignores_node_indices() {
    let mp = MatrixPairwise::new(&cells(&vec![vec![1.0, 0.5], vec![0.5, 1.0]])).unwrap();

    let labels = DiscreteLabels::new(2);
    let states = labels.states();

    let a = <MatrixPairwise as PairwisePotential<DiscreteLabels>>::log_potential(
        &mp, 0, 1, &states[0], &states[1],
    );
    let b = <MatrixPairwise as PairwisePotential<DiscreteLabels>>::log_potential(
        &mp, 99, 1000, &states[0], &states[1],
    );
    assert_eq!(a, b);
}

#[test]
fn zero_weight_produces_very_negative_log() {
    let mp = MatrixPairwise::new(&cells(&vec![vec![1.0, 0.0], vec![0.0, 1.0]])).unwrap();

    let labels = DiscreteLabels::new(2);
    let states = labels.states();

    let v = val(<MatrixPairwise as PairwisePotential<DiscreteLabels>>::log_potential(
        &mp, 0, 1, &states[0], &states[1],
    ));
    // ln(0 + 1e-10) is about -23.03
    assert!(v < -20.0);
}

// --- Diagonal vs off-diagonal ---

#[test]
fn diagonal_higher_than_off_diagonal() {
    let mp = MatrixPairwise::new(&cells(&vec![vec![1.0, 0.1], vec![0.1, 1.0]])).unwrap();

    let labels = DiscreteLabels::new(2);
    let states = labels.states();

    let same = val(<MatrixPairwise as PairwisePotential<DiscreteLabels>>::log_potential(
        &mp, 0, 1, &states[0], &states[0],
    ));
    let diff = val(<MatrixPairwise as PairwisePotential<DiscreteLabels>>::log_potential(
        &mp, 0, 1, &states[0], &states[1],
    ));
    assert!(same > diff);
}

// --- Bit-level negativity ---

#[test]
fn negative_zero_weight_accepted() {
    // Negative zero is not strictly negative, so it passes validation.
    let result = MatrixPairwise::new(&cells(&vec![vec![-0.0]]));
    assert!(result.is_ok());
}

#[test]
fn negative_weight_reports_position_and_value() {
    let result = MatrixPairwise::new(&cells(&vec![
        vec![1.0, 0.5, 0.1],
        vec![0.5, 1.0, -0.3],
        vec![0.1, -0.3, 1.0],
    ]));
    match result {
        Err(MrfError::NegativeWeight { row, col, value }) => {
            assert_eq!((row, col), (1, 2));
            assert_eq!(f64::from_bits(value.bits), -0.3);
        }
        other => panic!("expected a negative-weight error, got {:?}", other),
    }
}

#[test]
fn dimension_mismatch_reports_first_bad_row() {
    let result = MatrixPairwise::new(&cells(&vec![
        vec![1.0, 0.5, 0.1],
        vec![0.5, 1.0],
        vec![0.1],
    ]));
    assert!(matches!(
        result,
        Err(MrfError::DimensionMismatch { expected: 3, got: 2 })
    ));
}
