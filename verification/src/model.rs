//! The model and its builder.
//!
//! An [`MRF`] owns exactly one state space, one neighborhood, one unary
//! potential and one pairwise potential, and is immutable once built. The
//! builder tracks at the type level which of the three required slots have
//! been provided, so `build()` exists only once all three are filled; the
//! unary slot always holds a value and defaults to [`NoUnary`].

use core::marker::PhantomData;
use vstd::prelude::*;
use crate::neighborhood::{neighbor_elems, NeighborList, Neighborhood, represents};
use crate::potentials::pairwise::PairwisePotential;
use crate::potentials::unary::{NoUnary, UnaryPotential};
use crate::state::{StateIndex, StateSpace};
use crate::weight::LogWeight;

verus! {

/// Marker: a required builder slot that has not been provided.
pub struct Missing;

/// Marker: a required builder slot that has been provided.
pub struct Provided;

/// A transient accumulator for the parts of a model. The last three type
/// parameters record which required slots are filled.
pub struct MrfBuilder<S, N, U, P, HasState, HasNeighborhood, HasPairwise> {
    state_space: Option<S>,
    neighborhood: Option<N>,
    unary: U,
    pairwise: Option<P>,
    _marker: PhantomData<(HasState, HasNeighborhood, HasPairwise)>,
}

impl<S, N, U, P, HasState, HasNeighborhood, HasPairwise> MrfBuilder<
    S,
    N,
    U,
    P,
    HasState,
    HasNeighborhood,
    HasPairwise,
> {
    /// The state-space slot.
    pub closed spec fn state_slot(&self) -> Option<S> {
        self.state_space
    }

    /// The neighborhood slot.
    pub closed spec fn neighborhood_slot(&self) -> Option<N> {
        self.neighborhood
    }

    /// The unary slot; always holds a value.
    pub closed spec fn unary_slot(&self) -> U {
        self.unary
    }

    /// The pairwise slot.
    pub closed spec fn pairwise_slot(&self) -> Option<P> {
        self.pairwise
    }

    /// The builder after providing a state space.
    pub closed spec fn with_state_space_spec<NewS>(self, s: NewS) -> MrfBuilder<
        NewS,
        N,
        U,
        P,
        Provided,
        HasNeighborhood,
        HasPairwise,
    > {
        MrfBuilder {
            state_space: Some(s),
            neighborhood: self.neighborhood,
            unary: self.unary,
            pairwise: self.pairwise,
            _marker: PhantomData,
        }
    }

    /// The builder after providing a neighborhood.
    pub closed spec fn with_neighborhood_spec<NewN>(self, n: NewN) -> MrfBuilder<
        S,
        NewN,
        U,
        P,
        HasState,
        Provided,
        HasPairwise,
    > {
        MrfBuilder {
            state_space: self.state_space,
            neighborhood: Some(n),
            unary: self.unary,
            pairwise: self.pairwise,
            _marker: PhantomData,
        }
    }

    /// The builder after providing a unary potential.
    pub closed spec fn with_unary_spec<NewU>(self, u: NewU) -> MrfBuilder<
        S,
        N,
        NewU,
        P,
        HasState,
        HasNeighborhood,
        HasPairwise,
    > {
        MrfBuilder {
            state_space: self.state_space,
            neighborhood: self.neighborhood,
            unary: u,
            pairwise: self.pairwise,
            _marker: PhantomData,
        }
    }

    /// The builder after providing a pairwise potential.
    pub closed spec fn with_pairwise_spec<NewP>(self, p: NewP) -> MrfBuilder<
        S,
        N,
        U,
        NewP,
        HasState,
        HasNeighborhood,
        Provided,
    > {
        MrfBuilder {
            state_space: self.state_space,
            neighborhood: self.neighborhood,
            unary: self.unary,
            pairwise: Some(p),
            _marker: PhantomData,
        }
    }

    /// Provides the unary potential; later calls overwrite earlier ones.
    pub fn unary<NewU>(self, u: NewU) -> (r: MrfBuilder<
        S,
        N,
        NewU,
        P,
        HasState,
        HasNeighborhood,
        HasPairwise,
    >)
        ensures
            r == self.with_unary_spec(u),
            r.unary_slot() == u,
            r.state_slot() == self.state_slot(),
            r.neighborhood_slot() == self.neighborhood_slot(),
            r.pairwise_slot() == self.pairwise_slot(),
    {
        MrfBuilder {
            state_space: self.state_space,
            neighborhood: self.neighborhood,
            unary: u,
            pairwise: self.pairwise,
            _marker: PhantomData,
        }
    }

    /// Provides the state space; later calls overwrite earlier ones.
    pub fn state_space<NewS: StateSpace>(self, s: NewS) -> (r: MrfBuilder<
        NewS,
        N,
        U,
        P,
        Provided,
        HasNeighborhood,
        HasPairwise,
    >)
        ensures
            r == self.with_state_space_spec(s),
            r.state_slot() == Some(s),
            r.unary_slot() == self.unary_slot(),
            r.neighborhood_slot() == self.neighborhood_slot(),
            r.pairwise_slot() == self.pairwise_slot(),
    {
        MrfBuilder {
            state_space: Some(s),
            neighborhood: self.neighborhood,
            unary: self.unary,
            pairwise: self.pairwise,
            _marker: PhantomData,
        }
    }

    /// Provides the neighborhood; later calls overwrite earlier ones.
    pub fn neighborhood<NewN: Neighborhood>(self, n: NewN) -> (r: MrfBuilder<
        S,
        NewN,
        U,
        P,
        HasState,
        Provided,
        HasPairwise,
    >)
        ensures
            r == self.with_neighborhood_spec(n),
            r.neighborhood_slot() == Some(n),
            r.state_slot() == self.state_slot(),
            r.unary_slot() == self.unary_slot(),
            r.pairwise_slot() == self.pairwise_slot(),
    {
        MrfBuilder {
            state_space: self.state_space,
            neighborhood: Some(n),
            unary: self.unary,
            pairwise: self.pairwise,
            _marker: PhantomData,
        }
    }

    /// Provides the pairwise potential; later calls overwrite earlier ones.
    pub fn pairwise<NewP>(self, p: NewP) -> (r: MrfBuilder<
        S,
        N,
        U,
        NewP,
        HasState,
        HasNeighborhood,
        Provided,
    >)
        ensures
            r == self.with_pairwise_spec(p),
            r.pairwise_slot() == Some(p),
            r.state_slot() == self.state_slot(),
            r.neighborhood_slot() == self.neighborhood_slot(),
            r.unary_slot() == self.unary_slot(),
    {
        MrfBuilder {
            state_space: self.state_space,
            neighborhood: self.neighborhood,
            unary: self.unary,
            pairwise: Some(p),
            _marker: PhantomData,
        }
    }
}

impl<S: StateSpace, N: Neighborhood, U: UnaryPotential<S>, P: PairwisePotential<S>> MrfBuilder<
    S,
    N,
    U,
    P,
    Provided,
    Provided,
    Provided,
> {
    /// Consumes the builder and assembles the model. Reachable only once
    /// all three required slots are provided, which the setters guarantee.
    pub fn build(self) -> (r: MRF<S, N, U, P>)
        requires
            self.state_slot() is Some,
            self.neighborhood_slot() is Some,
            self.pairwise_slot() is Some,
        ensures
            r.state_space_spec() == self.state_slot().unwrap(),
            r.neighborhood_spec() == self.neighborhood_slot().unwrap(),
            r.unary_spec() == self.unary_slot(),
            r.pairwise_spec() == self.pairwise_slot().unwrap(),
    {
        MRF {
            state_space: self.state_space.unwrap(),
            neighborhood: self.neighborhood.unwrap(),
            unary: self.unary,
            pairwise: self.pairwise.unwrap(),
        }
    }
}

/// An immutable Markov Random Field model: one state space, one
/// neighborhood, one unary potential and one pairwise potential.
pub struct MRF<S, N, U, P> {
    state_space: S,
    neighborhood: N,
    unary: U,
    pairwise: P,
}

impl<S, N, U, P> MRF<S, N, U, P> {
    /// The model's state space.
    pub closed spec fn state_space_spec(&self) -> S {
        self.state_space
    }

    /// The model's neighborhood.
    pub closed spec fn neighborhood_spec(&self) -> N {
        self.neighborhood
    }

    /// The model's unary potential.
    pub closed spec fn unary_spec(&self) -> U {
        self.unary
    }

    /// The model's pairwise potential.
    pub closed spec fn pairwise_spec(&self) -> P {
        self.pairwise
    }
}

impl MRF<(), (), NoUnary, ()> {
    /// A fresh builder with every required slot missing and the unary slot
    /// holding the neutral default.
    pub fn builder() -> (r: MrfBuilder<(), (), NoUnary, (), Missing, Missing, Missing>)
        ensures
            r.state_slot() is None,
            r.neighborhood_slot() is None,
            r.pairwise_slot() is None,
            r.unary_slot() == (NoUnary {  }),
    {
        MrfBuilder {
            state_space: None,
            neighborhood: None,
            unary: NoUnary {  },
            pairwise: None,
            _marker: PhantomData,
        }
    }
}

impl<S: StateSpace, N: Neighborhood, U: UnaryPotential<S>, P: PairwisePotential<S>> MRF<
    S,
    N,
    U,
    P,
> {
    /// Returns the number of nodes in the model's topology.
    pub fn num_nodes(&self) -> (r: usize)
        ensures
            r as int == self.neighborhood_spec().num_nodes_spec(),
    {
        self.neighborhood.num_nodes()
    }

    /// Returns the indices of the nodes adjacent to `node`.
    pub fn neighbors(&self, node: usize) -> (r: NeighborList)
        requires
            (node as int) < self.neighborhood_spec().num_nodes_spec(),
        ensures
            represents(neighbor_elems(r), self.neighborhood_spec().neighbors_spec(node as int)),
    {
        self.neighborhood.neighbors(node)
    }

    /// Returns the number of labels of the model's pairwise potential.
    pub fn num_labels(&self) -> (r: usize)
        ensures
            r as int == self.pairwise_spec().num_labels_spec(),
    {
        self.pairwise.num_labels()
    }

    /// Returns the unary log-weight of `state` at node `index`.
    pub fn unary_log_potential(&self, index: usize, state: &S::State) -> (r: LogWeight)
        requires
            self.unary_spec().valid_inputs(index as int, state.index_spec()),
        ensures
            r == self.unary_spec().log_potential_spec(index as int, state.index_spec()),
    {
        self.unary.log_potential(index, state)
    }

    /// Returns the pairwise log-weight for the edge `(i, j)` with states
    /// `i_state` and `j_state`.
    pub fn pairwise_log_potential(
        &self,
        i: usize,
        j: usize,
        i_state: &S::State,
        j_state: &S::State,
    ) -> (r: LogWeight)
        requires
            self.pairwise_spec().valid_labels(i_state.index_spec(), j_state.index_spec()),
        ensures
            r == self.pairwise_spec().log_potential_spec(
                i_state.index_spec(),
                j_state.index_spec(),
            ),
    {
        self.pairwise.log_potential(i, j, i_state, j_state)
    }
}

/// The three required setters commute: applied to the same builder with
/// the same values, every order of providing the state space, the
/// neighborhood and the pairwise potential yields the same builder, so
/// any permutation of the three calls followed by `build()` yields the
/// same model.
pub proof fn lemma_required_setters_commute<
    S,
    N,
    U,
    P,
    HasState,
    HasNeighborhood,
    HasPairwise,
    S2,
    N2,
    P2,
>(b: MrfBuilder<S, N, U, P, HasState, HasNeighborhood, HasPairwise>, s: S2, n: N2, p: P2)
    ensures
        b.with_state_space_spec(s).with_neighborhood_spec(n).with_pairwise_spec(p)
            == b.with_state_space_spec(s).with_pairwise_spec(p).with_neighborhood_spec(n),
        b.with_state_space_spec(s).with_neighborhood_spec(n).with_pairwise_spec(p)
            == b.with_neighborhood_spec(n).with_state_space_spec(s).with_pairwise_spec(p),
        b.with_state_space_spec(s).with_neighborhood_spec(n).with_pairwise_spec(p)
            == b.with_neighborhood_spec(n).with_pairwise_spec(p).with_state_space_spec(s),
        b.with_state_space_spec(s).with_neighborhood_spec(n).with_pairwise_spec(p)
            == b.with_pairwise_spec(p).with_state_space_spec(s).with_neighborhood_spec(n),
        b.with_state_space_spec(s).with_neighborhood_spec(n).with_pairwise_spec(p)
            == b.with_pairwise_spec(p).with_neighborhood_spec(n).with_state_space_spec(s),
{
}

/// The unary setter is independent of the required slots: it commutes
/// with each required setter, and providing it changes no other slot.
pub proof fn lemma_unary_setter_independent<
    S,
    N,
    U,
    P,
    HasState,
    HasNeighborhood,
    HasPairwise,
    U2,
    S2,
    N2,
    P2,
>(b: MrfBuilder<S, N, U, P, HasState, HasNeighborhood, HasPairwise>, u: U2, s: S2, n: N2, p: P2)
    ensures
        b.with_unary_spec(u).with_state_space_spec(s) == b.with_state_space_spec(s).with_unary_spec(
            u,
        ),
        b.with_unary_spec(u).with_neighborhood_spec(n) == b.with_neighborhood_spec(
            n,
        ).with_unary_spec(u),
        b.with_unary_spec(u).with_pairwise_spec(p) == b.with_pairwise_spec(p).with_unary_spec(u),
{
}

} // verus!
