//! Neighborhood topology: which nodes of a model are adjacent.
//!
//! The canonical implementation is a 2D lattice with row-major node
//! indices and either Four- or Eight-connectivity. The adjacency relation
//! is symmetric and irreflexive; the lemmas at the end of this module
//! prove these facts, together with the index/coordinate round trip and
//! the exact neighbor counts of corner, boundary and interior nodes.

use vstd::prelude::*;
use vstd::arithmetic::div_mod::{
    lemma_fundamental_div_mod, lemma_fundamental_div_mod_converse, lemma_multiply_divide_lt,
};
use smallvec::SmallVec;

verus! {

/// A list of neighbor indices, backed by smallvec's vector so that the
/// small lists a lattice produces stay free of heap allocation. Verus sees
/// the collection only through [`neighbor_elems`] and the methods below.
#[verifier::external_body]
pub struct NeighborList {
    items: SmallVec<[usize; 8]>,
}

/// The elements held by a neighbor list, in order.
pub uninterp spec fn neighbor_elems(v: NeighborList) -> Seq<usize>;

/// Relies on smallvec::SmallVec::new: a freshly constructed vector is empty.
#[verifier::external_body]
fn neighbor_list_new() -> (r: NeighborList)
    ensures
        neighbor_elems(r) == Seq::<usize>::empty(),
{
    NeighborList { items: SmallVec::new() }
}

/// Relies on smallvec::SmallVec::push: appends the item at the back.
#[verifier::external_body]
fn neighbor_list_push(v: &mut NeighborList, value: usize)
    requires
        neighbor_elems(*old(v)).len() < usize::MAX,
    ensures
        neighbor_elems(*final(v)) == neighbor_elems(*old(v)).push(value),
{
    v.items.push(value)
}

impl NeighborList {
    /// Returns the number of neighbors in the list.
    ///
    /// Relies on smallvec::SmallVec::len: the number of elements held.
    #[verifier::external_body]
    pub fn len(&self) -> (r: usize)
        ensures
            r == neighbor_elems(*self).len(),
    {
        self.items.len()
    }

    /// Returns whether `value` is one of the neighbors in the list.
    ///
    /// Relies on slice::contains, reached through smallvec's deref to a
    /// slice of all elements in order.
    #[verifier::external_body]
    pub fn contains(&self, value: &usize) -> (r: bool)
        ensures
            r == neighbor_elems(*self).contains(*value),
    {
        self.items.contains(value)
    }

    /// Returns the neighbors as a plain vector, in order.
    ///
    /// Relies on smallvec::SmallVec::into_vec: the same elements in the
    /// same order.
    #[verifier::external_body]
    pub fn into_vec(self) -> (r: Vec<usize>)
        ensures
            r@ == neighbor_elems(self),
    {
        self.items.into_vec()
    }
}

/// Whether the executable neighbor list `e` holds exactly the mathematical
/// indices `s`, in order.
pub open spec fn represents(e: Seq<usize>, s: Seq<int>) -> bool {
    &&& e.len() == s.len()
    &&& forall|k: int| #![trigger e[k]] 0 <= k < e.len() ==> e[k] as int == s[k]
}

/// An adjacency relation over a fixed number of nodes.
pub trait Neighborhood {
    /// The number of nodes.
    spec fn num_nodes_spec(&self) -> int;

    /// The neighbor indices of `node`, in the order the lookup yields them.
    spec fn neighbors_spec(&self, node: int) -> Seq<int>;

    /// Returns the indices of the nodes adjacent to `node`.
    fn neighbors(&self, node: usize) -> (r: NeighborList)
        requires
            (node as int) < self.num_nodes_spec(),
        ensures
            represents(neighbor_elems(r), self.neighbors_spec(node as int)),
    ;

    /// Returns the number of nodes.
    fn num_nodes(&self) -> (r: usize)
        ensures
            r as int == self.num_nodes_spec(),
    ;
}

/// Lattice connectivity: orthogonal neighbors only, or orthogonal plus
/// diagonal neighbors.
#[derive(Debug, Clone, Copy, PartialEq, Eq, Structural)]
pub enum Connectivity {
    Four,
    Eight,
}

/// Arithmetic facts about a lattice position `(x, y)` and its row-major
/// index `y * w + x`: the index is in range, the indices one row up and
/// down differ by exactly `w`, and the neighboring indices stay in range.
proof fn lemma_lattice_bounds(w: int, h: int, x: int, y: int)
    by (nonlinear_arith)
    requires
        0 <= x < w,
        0 <= y < h,
    ensures
        0 <= y * w + x < w * h,
        (y - 1) * w == y * w - w,
        (y + 1) * w == y * w + w,
        y >= 1 ==> y * w + x >= w,
        y + 1 < h ==> y * w + x + w < w * h,
        y + 1 < h && x + 1 < w ==> y * w + x + w + 1 < w * h,
{
}

/// Whether lattice positions `(x1, y1)` and `(x2, y2)` are adjacent under
/// the given connectivity: distinct, at most one step apart on each axis,
/// and on a common row or column when the connectivity is Four.
pub open spec fn adjacent(conn: Connectivity, x1: int, y1: int, x2: int, y2: int) -> bool {
    let dx = x2 - x1;
    let dy = y2 - y1;
    &&& !(dx == 0 && dy == 0)
    &&& -1 <= dx <= 1
    &&& -1 <= dy <= 1
    &&& (conn is Four ==> dx == 0 || dy == 0)
}

/// The (zero- or one-element) neighbor list contributed by the offset
/// `(dx, dy)` at position `(x, y)` in a `w`-by-`h` lattice.
pub open spec fn offset_neighbor(w: int, h: int, x: int, y: int, dx: int, dy: int) -> Seq<int> {
    if 0 <= x + dx < w && 0 <= y + dy < h {
        seq![(y + dy) * w + (x + dx)]
    } else {
        Seq::<int>::empty()
    }
}

/// The Four-connected neighbors of `(x, y)`, in lookup order: up, left,
/// right, down.
pub open spec fn four_neighbors_at(w: int, h: int, x: int, y: int) -> Seq<int> {
    offset_neighbor(w, h, x, y, 0, -1) + offset_neighbor(w, h, x, y, -1, 0) + offset_neighbor(
        w,
        h,
        x,
        y,
        1,
        0,
    ) + offset_neighbor(w, h, x, y, 0, 1)
}

/// The Eight-connected neighbors of `(x, y)`, in lookup order: the three
/// positions of the row above, the two row neighbors, the three positions
/// of the row below.
pub open spec fn eight_neighbors_at(w: int, h: int, x: int, y: int) -> Seq<int> {
    offset_neighbor(w, h, x, y, -1, -1) + offset_neighbor(w, h, x, y, 0, -1) + offset_neighbor(
        w,
        h,
        x,
        y,
        1,
        -1,
    ) + offset_neighbor(w, h, x, y, -1, 0) + offset_neighbor(w, h, x, y, 1, 0) + offset_neighbor(
        w,
        h,
        x,
        y,
        -1,
        1,
    ) + offset_neighbor(w, h, x, y, 0, 1) + offset_neighbor(w, h, x, y, 1, 1)
}

/// A 2D lattice of `width * height` nodes; the node at `(x, y)` has the
/// row-major linear index `y * width + x`.
pub struct Grid2D {
    width: usize,
    height: usize,
    connectivity: Connectivity,
}

impl Grid2D {
    /// The node count fits in the index type.
    #[verifier::type_invariant]
    closed spec fn area_fits(&self) -> bool {
        self.width * self.height <= usize::MAX
    }

    /// The lattice width.
    pub closed spec fn width_spec(&self) -> int {
        self.width as int
    }

    /// The lattice height.
    pub closed spec fn height_spec(&self) -> int {
        self.height as int
    }

    /// The lattice connectivity.
    pub closed spec fn connectivity_spec(&self) -> Connectivity {
        self.connectivity
    }

    /// The row-major linear index of `(x, y)`.
    pub open spec fn index_spec(&self, x: int, y: int) -> int {
        y * self.width_spec() + x
    }

    /// The coordinates of the node with linear index `index`.
    pub open spec fn coords_spec(&self, index: int) -> (int, int) {
        (index % self.width_spec(), index / self.width_spec())
    }

    /// Builds a lattice. The node count `width * height` must fit in the
    /// index type.
    pub fn new(width: usize, height: usize, connectivity: Connectivity) -> (r: Grid2D)
        requires
            width * height <= usize::MAX,
        ensures
            r.width_spec() == width,
            r.height_spec() == height,
            r.connectivity_spec() == connectivity,
    {
        Grid2D { width, height, connectivity }
    }

    /// Returns the row-major linear index of `(x, y)`.
    pub fn index(&self, x: usize, y: usize) -> (r: usize)
        requires
            x < self.width_spec(),
            y < self.height_spec(),
        ensures
            r as int == self.index_spec(x as int, y as int),
            r < self.num_nodes_spec(),
    {
        proof {
            use_type_invariant(self);
            assert(y * self.width + x < self.width * self.height) by (nonlinear_arith)
                requires
                    x < self.width,
                    y < self.height,
            ;
        }
        y * self.width + x
    }

    /// Returns the coordinates of the node with linear index `index`.
    pub fn coords(&self, index: usize) -> (r: (usize, usize))
        requires
            (index as int) < self.num_nodes_spec(),
        ensures
            (r.0 as int, r.1 as int) == self.coords_spec(index as int),
            r.0 < self.width_spec(),
            r.1 < self.height_spec(),
    {
        proof {
            use_type_invariant(self);
            lemma_area_positive(self.width as int, self.height as int, index as int);
            lemma_multiply_divide_lt(index as int, self.width as int, self.height as int);
        }
        (index % self.width, index / self.width)
    }
}

impl Neighborhood for Grid2D {
    open spec fn num_nodes_spec(&self) -> int {
        self.width_spec() * self.height_spec()
    }

    open spec fn neighbors_spec(&self, node: int) -> Seq<int> {
        let w = self.width_spec();
        let h = self.height_spec();
        match self.connectivity_spec() {
            Connectivity::Four => four_neighbors_at(w, h, node % w, node / w),
            Connectivity::Eight => eight_neighbors_at(w, h, node % w, node / w),
        }
    }

    #[verifier::rlimit(100)]
    fn neighbors(&self, node: usize) -> (r: NeighborList) {
        proof {
            use_type_invariant(self);
            lemma_area_positive(self.width as int, self.height as int, node as int);
            lemma_multiply_divide_lt(node as int, self.width as int, self.height as int);
            lemma_fundamental_div_mod(node as int, self.width as int);
        }
        let x = node % self.width;
        let y = node / self.width;
        proof {
            assert((y as int) * (self.width as int) == (self.width as int) * (y as int)) by (
            nonlinear_arith);
        }
        let mut result = neighbor_list_new();
        proof {
            lemma_lattice_bounds(
                self.width as int,
                self.height as int,
                x as int,
                y as int,
            );
            assert((y as int) * (self.width as int) + (x as int) == node as int);
        }
        let ghost w = self.width_spec();
        let ghost h = self.height_spec();
        let ghost gx = x as int;
        let ghost gy = y as int;
        match self.connectivity {
            Connectivity::Four => {
                if y > 0 {
                    neighbor_list_push(&mut result, node - self.width);
                }
                proof {
                    let s1 = offset_neighbor(w, h, gx, gy, 0, -1);
                    assert(represents(neighbor_elems(result), s1));
                }
                if x > 0 {
                    neighbor_list_push(&mut result, node - 1);
                }
                proof {
                    let s2 = offset_neighbor(w, h, gx, gy, 0, -1) + offset_neighbor(
                        w,
                        h,
                        gx,
                        gy,
                        -1,
                        0,
                    );
                    assert(represents(neighbor_elems(result), s2));
                }
                if x + 1 < self.width {
                    neighbor_list_push(&mut result, node + 1);
                }
                proof {
                    let s3 = offset_neighbor(w, h, gx, gy, 0, -1) + offset_neighbor(
                        w,
                        h,
                        gx,
                        gy,
                        -1,
                        0,
                    ) + offset_neighbor(w, h, gx, gy, 1, 0);
                    assert(represents(neighbor_elems(result), s3));
                }
                if y + 1 < self.height {
                    neighbor_list_push(&mut result, node + self.width);
                }
                proof {
                    assert(represents(neighbor_elems(result), four_neighbors_at(w, h, gx, gy)));
                    assert(self.neighbors_spec(node as int) == four_neighbors_at(w, h, gx, gy));
                }
            },
            Connectivity::Eight => {
                if y > 0 {
                    if x > 0 {
                        neighbor_list_push(&mut result, node - self.width - 1);
                    }
                    proof {
                        let s1 = offset_neighbor(w, h, gx, gy, -1, -1);
                        assert(represents(neighbor_elems(result), s1));
                    }
                    neighbor_list_push(&mut result, node - self.width);
                    if x + 1 < self.width {
                        neighbor_list_push(&mut result, node - self.width + 1);
                    }
                } else {
                    proof {
                        assert(offset_neighbor(w, h, gx, gy, -1, -1).len() == 0);
                        assert(offset_neighbor(w, h, gx, gy, 0, -1).len() == 0);
                        assert(offset_neighbor(w, h, gx, gy, 1, -1).len() == 0);
                    }
                }
                proof {
                    let s3 = offset_neighbor(w, h, gx, gy, -1, -1) + offset_neighbor(
                        w,
                        h,
                        gx,
                        gy,
                        0,
                        -1,
                    ) + offset_neighbor(w, h, gx, gy, 1, -1);
                    assert(represents(neighbor_elems(result), s3));
                }
                if x > 0 {
                    neighbor_list_push(&mut result, node - 1);
                }
                proof {
                    let s4 = offset_neighbor(w, h, gx, gy, -1, -1) + offset_neighbor(
                        w,
                        h,
                        gx,
                        gy,
                        0,
                        -1,
                    ) + offset_neighbor(w, h, gx, gy, 1, -1) + offset_neighbor(w, h, gx, gy, -1, 0);
                    assert(represents(neighbor_elems(result), s4));
                }
                if x + 1 < self.width {
                    neighbor_list_push(&mut result, node + 1);
                }
                proof {
                    let s5 = offset_neighbor(w, h, gx, gy, -1, -1) + offset_neighbor(
                        w,
                        h,
                        gx,
                        gy,
                        0,
                        -1,
                    ) + offset_neighbor(w, h, gx, gy, 1, -1) + offset_neighbor(w, h, gx, gy, -1, 0)
                        + offset_neighbor(w, h, gx, gy, 1, 0);
                    assert(represents(neighbor_elems(result), s5));
                }
                if y + 1 < self.height {
                    if x > 0 {
                        neighbor_list_push(&mut result, node + self.width - 1);
                    }
                    proof {
                        let s6 = offset_neighbor(w, h, gx, gy, -1, -1) + offset_neighbor(
                            w,
                            h,
                            gx,
                            gy,
                            0,
                            -1,
                        ) + offset_neighbor(w, h, gx, gy, 1, -1) + offset_neighbor(
                            w,
                            h,
                            gx,
                            gy,
                            -1,
                            0,
                        ) + offset_neighbor(w, h, gx, gy, 1, 0) + offset_neighbor(
                            w,
                            h,
                            gx,
                            gy,
                            -1,
                            1,
                        );
                        assert(represents(neighbor_elems(result), s6));
                    }
                    neighbor_list_push(&mut result, node + self.width);
                    if x + 1 < self.width {
                        neighbor_list_push(&mut result, node + self.width + 1);
                    }
                } else {
                    proof {
                        assert(offset_neighbor(w, h, gx, gy, -1, 1).len() == 0);
                        assert(offset_neighbor(w, h, gx, gy, 0, 1).len() == 0);
                        assert(offset_neighbor(w, h, gx, gy, 1, 1).len() == 0);
                    }
                }
                proof {
                    assert(represents(neighbor_elems(result), eight_neighbors_at(w, h, gx, gy)));
                    assert(self.neighbors_spec(node as int) == eight_neighbors_at(w, h, gx, gy));
                }
            },
        }
        result
    }

    fn num_nodes(&self) -> (r: usize) {
        proof {
            use_type_invariant(self);
        }
        self.width * self.height
    }
}

/// A lattice that contains a valid node has positive width and height.
proof fn lemma_area_positive(w: int, h: int, node: int)
    by (nonlinear_arith)
    requires
        0 <= node < w * h,
        0 <= w,
        0 <= h,
    ensures
        w > 0,
        h > 0,
{
}

/// Membership in a concatenation is membership in either part.
proof fn lemma_add_contains(a: Seq<int>, b: Seq<int>, v: int)
    ensures
        (a + b).contains(v) <==> a.contains(v) || b.contains(v),
{
    if a.contains(v) {
        let k = choose|k: int| 0 <= k < a.len() && a[k] == v;
        assert((a + b)[k] == v);
    }
    if b.contains(v) {
        let k = choose|k: int| 0 <= k < b.len() && b[k] == v;
        assert((a + b)[a.len() + k] == v);
    }
    if (a + b).contains(v) {
        let k = choose|k: int| 0 <= k < (a + b).len() && (a + b)[k] == v;
        if k < a.len() {
            assert(a[k] == v);
        } else {
            assert(b[k - a.len()] == v);
        }
    }
}

/// What it means for `other` to lie in the neighbor list contributed by
/// the offset `(dx, dy)`: the shifted position is on the lattice and
/// `other` is its row-major index. The index round-trips to the shifted
/// position and is a valid node.
proof fn lemma_offset_member(w: int, h: int, x: int, y: int, dx: int, dy: int, other: int)
    requires
        0 <= x < w,
        0 <= y < h,
    ensures
        offset_neighbor(w, h, x, y, dx, dy).contains(other) <==> (0 <= x + dx < w && 0 <= y + dy
            < h && other == (y + dy) * w + (x + dx)),
        0 <= x + dx < w && 0 <= y + dy < h ==> {
            let idx = (y + dy) * w + (x + dx);
            &&& 0 <= idx < w * h
            &&& idx % w == x + dx
            &&& idx / w == y + dy
        },
{
    if 0 <= x + dx < w && 0 <= y + dy < h {
        let idx = (y + dy) * w + (x + dx);
        lemma_fundamental_div_mod_converse(idx, w, y + dy, x + dx);
        lemma_lattice_bounds(w, h, x + dx, y + dy);
        let s = offset_neighbor(w, h, x, y, dx, dy);
        assert(s[0] == idx);
        if s.contains(other) {
            let k = choose|k: int| 0 <= k < s.len() && s[k] == other;
            assert(k == 0);
        }
    }
}

/// Every neighbor list entry of a valid node is itself a valid node, and
/// the entries are exactly the adjacent lattice positions: a node's
/// neighbor list contains `other` if and only if `other` is a valid node
/// whose coordinates are adjacent to the node's own.
pub proof fn lemma_neighbors_characterization(g: &Grid2D, node: int, other: int)
    requires
        0 <= node < g.num_nodes_spec(),
    ensures
        g.neighbors_spec(node).contains(other) <==> {
            &&& 0 <= other < g.num_nodes_spec()
            &&& adjacent(
                g.connectivity_spec(),
                g.coords_spec(node).0,
                g.coords_spec(node).1,
                g.coords_spec(other).0,
                g.coords_spec(other).1,
            )
        },
{
    let w = g.width_spec();
    let h = g.height_spec();
    assert(g.num_nodes_spec() == w * h);
    lemma_area_positive(w, h, node);
    lemma_multiply_divide_lt(node, w, h);
    lemma_fundamental_div_mod(node, w);
    let x = node % w;
    let y = node / w;
    assert(y * w == w * y) by (nonlinear_arith);
    assert(node == y * w + x);
    lemma_offset_member(w, h, x, y, -1, -1, other);
    lemma_offset_member(w, h, x, y, 0, -1, other);
    lemma_offset_member(w, h, x, y, 1, -1, other);
    lemma_offset_member(w, h, x, y, -1, 0, other);
    lemma_offset_member(w, h, x, y, 1, 0, other);
    lemma_offset_member(w, h, x, y, -1, 1, other);
    lemma_offset_member(w, h, x, y, 0, 1, other);
    lemma_offset_member(w, h, x, y, 1, 1, other);
    if 0 <= other < w * h {
        lemma_multiply_divide_lt(other, w, h);
        lemma_fundamental_div_mod(other, w);
        let xo = other % w;
        let yo = other / w;
        assert(yo * w == w * yo) by (nonlinear_arith);
        assert(other == yo * w + xo);
        lemma_lattice_bounds(w, h, xo, yo);
    }
    match g.connectivity_spec() {
        Connectivity::Four => {
            let s = four_neighbors_at(w, h, x, y);
            let o1 = offset_neighbor(w, h, x, y, 0, -1);
            let o2 = offset_neighbor(w, h, x, y, -1, 0);
            let o3 = offset_neighbor(w, h, x, y, 1, 0);
            let o4 = offset_neighbor(w, h, x, y, 0, 1);
            lemma_add_contains(o1 + o2 + o3, o4, other);
            lemma_add_contains(o1 + o2, o3, other);
            lemma_add_contains(o1, o2, other);
        },
        Connectivity::Eight => {
            let o1 = offset_neighbor(w, h, x, y, -1, -1);
            let o2 = offset_neighbor(w, h, x, y, 0, -1);
            let o3 = offset_neighbor(w, h, x, y, 1, -1);
            let o4 = offset_neighbor(w, h, x, y, -1, 0);
            let o5 = offset_neighbor(w, h, x, y, 1, 0);
            let o6 = offset_neighbor(w, h, x, y, -1, 1);
            let o7 = offset_neighbor(w, h, x, y, 0, 1);
            let o8 = offset_neighbor(w, h, x, y, 1, 1);
            lemma_add_contains(o1 + o2 + o3 + o4 + o5 + o6 + o7, o8, other);
            lemma_add_contains(o1 + o2 + o3 + o4 + o5 + o6, o7, other);
            lemma_add_contains(o1 + o2 + o3 + o4 + o5, o6, other);
            lemma_add_contains(o1 + o2 + o3 + o4, o5, other);
            lemma_add_contains(o1 + o2 + o3, o4, other);
            lemma_add_contains(o1 + o2, o3, other);
            lemma_add_contains(o1, o2, other);
        },
    }
}

/// Neighbor symmetry: whenever `j` is in the neighbor list of `i`, then
/// `i` is in the neighbor list of `j`, under either connectivity and for
/// any lattice size.
pub proof fn lemma_neighbor_symmetry(g: &Grid2D, i: int, j: int)
    requires
        0 <= i < g.num_nodes_spec(),
        g.neighbors_spec(i).contains(j),
    ensures
        0 <= j < g.num_nodes_spec(),
        g.neighbors_spec(j).contains(i),
{
    lemma_neighbors_characterization(g, i, j);
    lemma_neighbors_characterization(g, j, i);
}

/// Irreflexivity: no node appears in its own neighbor list.
pub proof fn lemma_no_self_neighbor(g: &Grid2D, i: int)
    requires
        0 <= i < g.num_nodes_spec(),
    ensures
        !g.neighbors_spec(i).contains(i),
{
    lemma_neighbors_characterization(g, i, i);
}

/// Round trip: the row-major index of `(x, y)` converts back to exactly
/// `(x, y)`.
pub proof fn lemma_index_coords_roundtrip(g: &Grid2D, x: int, y: int)
    requires
        0 <= x < g.width_spec(),
        0 <= y < g.height_spec(),
    ensures
        g.coords_spec(g.index_spec(x, y)) == (x, y),
{
    lemma_fundamental_div_mod_converse(y * g.width_spec() + x, g.width_spec(), y, x);
}

/// Round trip, the other way: a valid linear index is the index of its
/// own coordinates.
pub proof fn lemma_coords_index_roundtrip(g: &Grid2D, node: int)
    requires
        0 <= node < g.num_nodes_spec(),
    ensures
        g.index_spec(g.coords_spec(node).0, g.coords_spec(node).1) == node,
{
    assert(g.num_nodes_spec() == g.width_spec() * g.height_spec());
    lemma_area_positive(g.width_spec(), g.height_spec(), node);
    lemma_fundamental_div_mod(node, g.width_spec());
    assert((node / g.width_spec()) * g.width_spec() == g.width_spec() * (node / g.width_spec()))
        by (nonlinear_arith);
}

/// Neighbor counts under Four-connectivity, for lattices at least 3 wide
/// and 3 high: corner nodes have 2 neighbors, other boundary nodes 3, and
/// interior nodes 4.
pub proof fn lemma_four_neighbor_counts(g: &Grid2D, node: int)
    requires
        g.connectivity_spec() is Four,
        g.width_spec() >= 3,
        g.height_spec() >= 3,
        0 <= node < g.num_nodes_spec(),
    ensures
        ({
            let x = g.coords_spec(node).0;
            let y = g.coords_spec(node).1;
            let on_x = x == 0 || x == g.width_spec() - 1;
            let on_y = y == 0 || y == g.height_spec() - 1;
            g.neighbors_spec(node).len() == if on_x && on_y {
                2int
            } else if on_x || on_y {
                3int
            } else {
                4int
            }
        }),
{
    let w = g.width_spec();
    let h = g.height_spec();
    assert(g.num_nodes_spec() == w * h);
    lemma_area_positive(w, h, node);
    lemma_multiply_divide_lt(node, w, h);
    lemma_fundamental_div_mod(node, w);
}

/// Neighbor counts under Eight-connectivity, for lattices at least 3 wide
/// and 3 high: corner nodes have 3 neighbors, other boundary nodes 5, and
/// interior nodes 8.
pub proof fn lemma_eight_neighbor_counts(g: &Grid2D, node: int)
    requires
        g.connectivity_spec() is Eight,
        g.width_spec() >= 3,
        g.height_spec() >= 3,
        0 <= node < g.num_nodes_spec(),
    ensures
        ({
            let x = g.coords_spec(node).0;
            let y = g.coords_spec(node).1;
            let on_x = x == 0 || x == g.width_spec() - 1;
            let on_y = y == 0 || y == g.height_spec() - 1;
            g.neighbors_spec(node).len() == if on_x && on_y {
                3int
            } else if on_x || on_y {
                5int
            } else {
                8int
            }
        }),
{
    let w = g.width_spec();
    let h = g.height_spec();
    assert(g.num_nodes_spec() == w * h);
    lemma_area_positive(w, h, node);
    lemma_multiply_divide_lt(node, w, h);
    lemma_fundamental_div_mod(node, w);
}

} // verus!
