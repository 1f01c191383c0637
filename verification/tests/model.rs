use mrf::model::MRF;
use mrf::neighborhood::{Connectivity, Grid2D};
use mrf::potentials::pairwise::MatrixPairwise;
use mrf::potentials::unary::UniformUnary;
use mrf::state::{DiscreteLabels, StateSpace};
use mrf::weight::{LogWeight, Weight, WeightCell};

const EPSILON: f64 = 1e-10;

fn cells(raw: &[Vec<f64>]) -> Vec<Vec<WeightCell>> {
    let mut out: Vec<Vec<WeightCell>> = Vec::new();
    for (i, row) in raw.iter().enumerate() {
        let mut r: Vec<WeightCell> = Vec::new();
        for (j, &w) in row.iter().enumerate() {
            let matches_transpose = match raw.get(j).and_then(|t| t.get(i)) {
                Some(&t) => (w - t).abs() <= EPSILON,
                None => true,
            };
            r.push(WeightCell {
                raw: Weight { bits: w.to_bits() },
                log: LogWeight { bits: (w + EPSILON).ln().to_bits() },
                matches_transpose,
            });
        }
        out.push(r);
    }
    out
}

fn lw(x: f64) -> LogWeight {
    LogWeight { bits: x.to_bits() }
}

fn test_labels() -> DiscreteLabels {
    DiscreteLabels::new(3)
}

fn test_grid() -> Grid2D {
    Grid2D::new(4, 4, Connectivity::Four)
}

fn test_pairwise() -> MatrixPairwise {
    MatrixPairwise::new(&cells(&vec![
        vec![1.0, 0.5, 0.1],
        vec![0.5, 1.0, 0.3],
        vec![0.1, 0.3, 1.0],
    ]))
    .unwrap()
}

fn test_unary() -> UniformUnary {
    UniformUnary::new(&[lw(1.0), lw(1.0), lw(1.0)])
}

// --- Build succeeds with all required fields ---

#[test]
fn build_with_all_required() {
    let _mrf = MRF::builder()
        .state_space(test_labels())
        .neighborhood(test_grid())
        .pairwise(test_pairwise())
        .build();
}

// --- Order doesn't matter ---

#[test]
fn build_order_pairwise_state_neighborhood() {
    let _mrf = MRF::builder()
        .pairwise(test_pairwise())
        .state_space(test_labels())
        .neighborhood(test_grid())
        .build();
}

#[test]
fn build_order_neighborhood_pairwise_state() {
    let _mrf = MRF::builder()
        .neighborhood(test_grid())
        .pairwise(test_pairwise())
        .state_space(test_labels())
        .build();
}

#[test]
fn build_order_state_pairwise_neighborhood() {
    let _mrf = MRF::builder()
        .state_space(test_labels())
        .pairwise(test_pairwise())
        .neighborhood(test_grid())
        .build();
}

#[test]
fn build_order_neighborhood_state_pairwise() {
    let _mrf = MRF::builder()
        .neighborhood(test_grid())
        .state_space(test_labels())
        .pairwise(test_pairwise())
        .build();
}

#[test]
fn build_order_pairwise_neighborhood_state() {
    let _mrf = MRF::builder()
        .pairwise(test_pairwise())
        .neighborhood(test_grid())
        .state_space(test_labels())
        .build();
}

// --- Optional unary ---

#[test]
fn build_without_unary_defaults_to_no_unary() {
    let _mrf = MRF::builder()
        .state_space(test_labels())
        .neighborhood(test_grid())
        .pairwise(test_pairwise())
        .build();
}

#[test]
fn build_with_unary() {
    let _mrf = MRF::builder()
        .state_space(test_labels())
        .neighborhood(test_grid())
        .unary(test_unary())
        .pairwise(test_pairwise())
        .build();
}

#[test]
fn unary_at_start() {
    let _mrf = MRF::builder()
        .unary(test_unary())
        .state_space(test_labels())
        .neighborhood(test_grid())
        .pairwise(test_pairwise())
        .build();
}

#[test]
fn unary_at_end() {
    let _mrf = MRF::builder()
        .state_space(test_labels())
        .neighborhood(test_grid())
        .pairwise(test_pairwise())
        .unary(test_unary())
        .build();
}

// --- The built model defaults its unary slot to the neutral potential ---

#[test]
fn default_unary_evaluates_to_zero() {
    let labels = test_labels();
    let state = labels.states()[0];
    let mrf = MRF::builder()
        .state_space(test_labels())
        .neighborhood(test_grid())
        .pairwise(test_pairwise())
        .build();
    assert_eq!(mrf.unary_log_potential(7, &state), lw(0.0));
}
