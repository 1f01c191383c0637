use mrf::potentials::unary::{NoUnary, SpatialUnary, UnaryPotential, UniformUnary};
use mrf::state::{DiscreteLabels, Label, StateIndex, StateSpace};
use mrf::weight::LogWeight;

fn lw(x: f64) -> LogWeight {
    LogWeight { bits: x.to_bits() }
}

fn log_pot<U: UnaryPotential<DiscreteLabels>>(u: &U, index: usize, state: &Label) -> LogWeight {
    u.log_potential(index, state)
}

// --- NoUnary ---

#[test]
fn no_unary_always_zero() {
    let nu = NoUnary {};
    let labels = DiscreteLabels::new(4);
    let states = labels.states();
    for node in 0..100 {
        for state in states {
            assert_eq!(log_pot(&nu, node, state), lw(0.0));
        }
    }
}

// --- UniformUnary ---

#[test]
fn uniform_default_all_zeros() {
    let uu = UniformUnary::default(3);
    let labels = DiscreteLabels::new(3);
    let states = labels.states();
    for state in states {
        assert_eq!(log_pot(&uu, 0, state), lw(0.0));
    }
}

#[test]
fn uniform_returns_correct_values() {
    let uu = UniformUnary::new(&[lw(-1.0), lw(-2.0), lw(-3.0)]);
    let labels = DiscreteLabels::new(3);
    let states = labels.states();
    assert_eq!(log_pot(&uu, 0, &states[0]), lw(-1.0));
    assert_eq!(log_pot(&uu, 0, &states[1]), lw(-2.0));
    assert_eq!(log_pot(&uu, 0, &states[2]), lw(-3.0));
}

#[test]
fn uniform_ignores_node_index() {
    let uu = UniformUnary::new(&[lw(-1.0), lw(-2.0)]);
    let labels = DiscreteLabels::new(2);
    let states = labels.states();
    assert_eq!(log_pot(&uu, 0, &states[0]), log_pot(&uu, 999, &states[0]));
    assert_eq!(log_pot(&uu, 0, &states[1]), log_pot(&uu, 42, &states[1]));
}

// --- SpatialUnary ---

fn test_spatial() -> SpatialUnary {
    // 3 nodes, 2 labels
    // node 0: [-1.0, -2.0]
    // node 1: [-3.0, -4.0]
    // node 2: [-5.0, -6.0]
    SpatialUnary::new(
        &[lw(-1.0), lw(-2.0), lw(-3.0), lw(-4.0), lw(-5.0), lw(-6.0)],
        2,
    )
}

#[test]
fn spatial_returns_correct_per_node_values() {
    let su = test_spatial();
    let labels = DiscreteLabels::new(2);
    let states = labels.states();

    assert_eq!(log_pot(&su, 0, &states[0]), lw(-1.0));
    assert_eq!(log_pot(&su, 0, &states[1]), lw(-2.0));
    assert_eq!(log_pot(&su, 1, &states[0]), lw(-3.0));
    assert_eq!(log_pot(&su, 1, &states[1]), lw(-4.0));
    assert_eq!(log_pot(&su, 2, &states[0]), lw(-5.0));
    assert_eq!(log_pot(&su, 2, &states[1]), lw(-6.0));
}

#[test]
fn spatial_different_nodes_different_values() {
    let su = test_spatial();
    let labels = DiscreteLabels::new(2);
    let states = labels.states();

    assert_ne!(log_pot(&su, 0, &states[0]), log_pot(&su, 1, &states[0]));
    assert_ne!(log_pot(&su, 1, &states[0]), log_pot(&su, 2, &states[0]));
}

// --- NoUnary vs UniformUnary default equivalence ---

#[test]
fn no_unary_equivalent_to_uniform_default() {
    let nu = NoUnary {};
    let uu = UniformUnary::default(3);
    let labels = DiscreteLabels::new(3);
    let states = labels.states();

    for node in 0..10 {
        for state in states {
            assert_eq!(log_pot(&nu, node, state), log_pot(&uu, node, state));
        }
    }
}

// --- Edge case: single label ---

#[test]
fn uniform_single_label() {
    let uu = UniformUnary::new(&[lw(-5.0)]);
    let labels = DiscreteLabels::new(1);
    let states = labels.states();
    assert_eq!(log_pot(&uu, 0, &states[0]), lw(-5.0));
}

#[test]
fn spatial_single_label() {
    let su = SpatialUnary::new(&[lw(-1.0), lw(-2.0), lw(-3.0)], 1);
    let labels = DiscreteLabels::new(1);
    let states = labels.states();
    assert_eq!(log_pot(&su, 0, &states[0]), lw(-1.0));
    assert_eq!(log_pot(&su, 1, &states[0]), lw(-2.0));
    assert_eq!(log_pot(&su, 2, &states[0]), lw(-3.0));
}

// --- Labels ---

#[test]
fn discrete_labels_enumerate_their_indices() {
    let labels = DiscreteLabels::new(4);
    let states = labels.states();
    assert_eq!(states.len(), 4);
    for (k, state) in states.iter().enumerate() {
        assert_eq!(state.as_index(), k);
        assert_eq!(*state, Label(k));
    }
}
