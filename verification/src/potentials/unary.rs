//! Unary potentials: per-node, per-label log-weights.

use vstd::prelude::*;
use crate::state::{StateIndex, StateSpace};
use crate::weight::LogWeight;

verus! {

/// A function from a node index and a state to a log-weight.
pub trait UnaryPotential<S: StateSpace> {
    /// The inputs the potential is defined on.
    spec fn valid_inputs(&self, index: int, label: int) -> bool;

    /// The log-weight assigned to `label` at node `index`.
    spec fn log_potential_spec(&self, index: int, label: int) -> LogWeight;

    /// Returns the log-weight of `state` at node `index`.
    fn log_potential(&self, index: usize, state: &S::State) -> (r: LogWeight)
        requires
            self.valid_inputs(index as int, state.index_spec()),
        ensures
            r == self.log_potential_spec(index as int, state.index_spec()),
    ;
}

/// The neutral unary potential: every node and label gets the log-weight
/// whose bit pattern encodes positive zero.
pub struct NoUnary {}

impl<S: StateSpace> UnaryPotential<S> for NoUnary {
    open spec fn valid_inputs(&self, index: int, label: int) -> bool {
        true
    }

    open spec fn log_potential_spec(&self, index: int, label: int) -> LogWeight {
        LogWeight { bits: 0 }
    }

    fn log_potential(&self, _index: usize, _state: &S::State) -> (r: LogWeight) {
        LogWeight { bits: 0 }
    }
}

/// A unary potential that depends only on the label: label `k` gets the
/// `k`-th entry of a fixed table.
pub struct UniformUnary {
    log_potentials: Vec<LogWeight>,
}

impl UniformUnary {
    /// The per-label table of log-weights.
    pub closed spec fn table_spec(&self) -> Seq<LogWeight> {
        self.log_potentials@
    }

    /// An all-zero table for `num_potentials` labels; behaviorally
    /// identical to [`NoUnary`].
    pub fn default(num_potentials: usize) -> (r: UniformUnary)
        ensures
            r.table_spec().len() == num_potentials,
            forall|k: int|
                0 <= k < num_potentials ==> #[trigger] r.table_spec()[k] == (LogWeight { bits: 0 }),
    {
        UniformUnary { log_potentials: vec![LogWeight { bits: 0 };num_potentials] }
    }

    /// A table read from the given per-label log-weights.
    pub fn new(log_potentials: &[LogWeight]) -> (r: UniformUnary)
        ensures
            r.table_spec() == log_potentials@,
    {
        let mut table: Vec<LogWeight> = Vec::new();
        let mut k: usize = 0;
        while k < log_potentials.len()
            invariant
                k <= log_potentials@.len(),
                table@ == log_potentials@.subrange(0, k as int),
            decreases log_potentials@.len() - k,
        {
            table.push(log_potentials[k]);
            proof {
                assert(table@ == log_potentials@.subrange(0, k + 1));
            }
            k = k + 1;
        }
        proof {
            assert(log_potentials@.subrange(0, log_potentials@.len() as int) == log_potentials@);
        }
        UniformUnary { log_potentials: table }
    }
}

impl<S: StateSpace> UnaryPotential<S> for UniformUnary {
    open spec fn valid_inputs(&self, index: int, label: int) -> bool {
        0 <= label < self.table_spec().len()
    }

    open spec fn log_potential_spec(&self, index: int, label: int) -> LogWeight {
        self.table_spec()[label]
    }

    fn log_potential(&self, _index: usize, state: &S::State) -> (r: LogWeight) {
        self.log_potentials[state.as_index()]
    }
}

/// A unary potential that depends on both the node and the label, read
/// from a flattened node-major table: node `i` and label `k` get entry
/// `i * num_labels + k`.
pub struct SpatialUnary {
    log_potentials: Vec<LogWeight>,
    num_labels: usize,
}

impl SpatialUnary {
    /// The flattened node-major table of log-weights.
    pub closed spec fn table_spec(&self) -> Seq<LogWeight> {
        self.log_potentials@
    }

    /// The number of labels per node.
    pub closed spec fn num_labels_spec(&self) -> int {
        self.num_labels as int
    }

    /// A table read from the given flattened per-node, per-label
    /// log-weights.
    pub fn new(log_potentials: &[LogWeight], num_labels: usize) -> (r: SpatialUnary)
        ensures
            r.table_spec() == log_potentials@,
            r.num_labels_spec() == num_labels,
    {
        let mut table: Vec<LogWeight> = Vec::new();
        let mut k: usize = 0;
        while k < log_potentials.len()
            invariant
                k <= log_potentials@.len(),
                table@ == log_potentials@.subrange(0, k as int),
            decreases log_potentials@.len() - k,
        {
            table.push(log_potentials[k]);
            proof {
                assert(table@ == log_potentials@.subrange(0, k + 1));
            }
            k = k + 1;
        }
        proof {
            assert(log_potentials@.subrange(0, log_potentials@.len() as int) == log_potentials@);
        }
        SpatialUnary { log_potentials: table, num_labels }
    }
}

impl<S: StateSpace> UnaryPotential<S> for SpatialUnary {
    open spec fn valid_inputs(&self, index: int, label: int) -> bool {
        &&& 0 <= index
        &&& 0 <= label < self.num_labels_spec()
        &&& self.num_labels_spec() * index + label < self.table_spec().len()
    }

    open spec fn log_potential_spec(&self, index: int, label: int) -> LogWeight {
        self.table_spec()[self.num_labels_spec() * index + label]
    }

    fn log_potential(&self, index: usize, state: &S::State) -> (r: LogWeight) {
        let label = state.as_index();
        proof {
            vstd::std_specs::vec::axiom_spec_len(&self.log_potentials);
        }
        self.log_potentials[self.num_labels * index + label]
    }
}

/// The neutral default and the all-zero uniform table agree: for every
/// node and every label the table covers, they assign the same zero
/// log-weight.
pub proof fn lemma_uniform_default_matches_no_unary<S: StateSpace>(
    u: &UniformUnary,
    node: int,
    label: int,
)
    requires
        forall|k: int|
            0 <= k < u.table_spec().len() ==> #[trigger] u.table_spec()[k] == (LogWeight {
                bits: 0,
            }),
        0 <= label < u.table_spec().len(),
    ensures
        <UniformUnary as UnaryPotential<S>>::log_potential_spec(u, node, label)
            == <NoUnary as UnaryPotential<S>>::log_potential_spec(&(NoUnary {}), node, label),
{
}

} // verus!
