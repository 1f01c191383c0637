//! Label/state spaces: the finite set of labels a node may take, each
//! mapped to a dense integer index.

use vstd::prelude::*;

verus! {

/// A state that exposes a dense index used for all table lookups.
pub trait StateIndex {
    /// The dense index of this state, as a mathematical integer.
    spec fn index_spec(&self) -> int;

    /// Returns the dense index of this state.
    fn as_index(&self) -> (r: usize)
        ensures
            r as int == self.index_spec(),
    ;
}

/// An ordered, fixed sequence of all valid states for a model.
pub trait StateSpace {
    type State: Clone + PartialEq + StateIndex;

    /// The ordered sequence of all valid states.
    spec fn states_spec(&self) -> Seq<Self::State>;

    /// Returns the ordered sequence of all valid states; stable for the
    /// lifetime of the object.
    fn states(&self) -> (r: &[Self::State])
        ensures
            r@ == self.states_spec(),
    ;
}

/// One discrete label, identified by its dense index.
#[derive(Debug, PartialEq, Eq, Clone, Copy, Structural)]
pub struct Label(pub usize);

impl StateIndex for Label {
    open spec fn index_spec(&self) -> int {
        self.0 as int
    }

    fn as_index(&self) -> (r: usize) {
        self.0
    }
}

/// The canonical state space: the labels `0 .. num_labels`, in order, each
/// with `as_index` equal to its label value.
pub struct DiscreteLabels {
    labels: Vec<Label>,
}

impl DiscreteLabels {
    /// Builds the state space of `num_labels` labels; the index mapping is
    /// a bijection onto the contiguous range `0 .. num_labels`.
    pub fn new(num_labels: usize) -> (r: DiscreteLabels)
        ensures
            r.states_spec().len() == num_labels,
            forall|i: int| 0 <= i < num_labels ==> #[trigger] r.states_spec()[i] == (Label(i as usize)),
    {
        let mut labels: Vec<Label> = Vec::new();
        let mut k: usize = 0;
        while k < num_labels
            invariant
                k <= num_labels,
                labels@.len() == k,
                forall|i: int| 0 <= i < k ==> #[trigger] labels@[i] == (Label(i as usize)),
            decreases num_labels - k,
        {
            labels.push(Label(k));
            k = k + 1;
        }
        DiscreteLabels { labels }
    }
}

impl StateSpace for DiscreteLabels {
    type State = Label;

    closed spec fn states_spec(&self) -> Seq<Label> {
        self.labels@
    }

    fn states(&self) -> (r: &[Label]) {
        self.labels.as_slice()
    }
}

} // verus!
