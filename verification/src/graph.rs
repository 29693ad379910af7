use vstd::prelude::*;

use crate::vop::{Vop, H_GATE, S_GATE, SDAG_GATE, X_GATE, Y_GATE, Z_GATE};
use crate::vop::lemma_gate_involution;
use crate::vop_mul::mul_spec;

verus! {

/// Mathematical image of one node: the values of its neighbor list and its
/// vertex operator.
#[verifier::ext_equal]
pub struct NodeV {
    pub adj: Seq<usize>,
    pub vop: Vop,
}

/// One qubit of the simulator: an unordered list of the indices of its
/// neighbors in the graph, and its vertex operator.
#[derive(Debug)]
pub struct Node {
    adjacent: Vec<usize>,
    vop: Vop,
}

impl View for Node {
    type V = NodeV;

    closed spec fn view(&self) -> NodeV {
        NodeV { adj: self.adjacent@, vop: self.vop }
    }
}

/// Simulator for a stabilizer state over a fixed number of qubits, held as a
/// simple undirected graph with a vertex operator on every node.
#[derive(Debug)]
pub struct GraphSim {
    nodes: Vec<Node>,
}

impl View for GraphSim {
    type V = Seq<NodeV>;

    closed spec fn view(&self) -> Seq<NodeV> {
        Seq::new(self.nodes@.len(), |i: int| self.nodes@[i]@)
    }
}

/// Whether the graph has an edge from `a` to `b`, read off `a`'s neighbor
/// list alone.
pub open spec fn edge(g: Seq<NodeV>, a: usize, b: usize) -> bool {
    g[a as int].adj.contains(b)
}

/// The neighbor list of node `i` holds no duplicates, no out-of-range index
/// and no self-loop.
pub open spec fn node_wf(g: Seq<NodeV>, i: int) -> bool {
    &&& g[i].adj.no_duplicates()
    &&& forall|y: usize| #[trigger] g[i].adj.contains(y) ==> (y as int) < g.len() && (y as int) != i
}

/// Adjacency is symmetric: `b` is listed by `a` exactly when `a` is listed by
/// `b`.
pub open spec fn sym(g: Seq<NodeV>) -> bool {
    forall|a: usize, b: usize|
        (a as int) < g.len() && (b as int) < g.len() ==> (#[trigger] edge(g, a, b) <==> edge(
            g,
            b,
            a,
        ))
}

/// The graph invariant every public operation preserves: each node's list is
/// duplicate-free, in range and loop-free, and adjacency is symmetric.
pub open spec fn wf(g: Seq<NodeV>) -> bool {
    &&& forall|i: int| 0 <= i < g.len() ==> #[trigger] node_wf(g, i)
    &&& sym(g)
}

/// The state after a single-qubit gate `u` on qubit `q`: the vertex operator
/// of `q` is left-multiplied by `u`, everything else is untouched.
pub open spec fn apply_gate(g: Seq<NodeV>, q: usize, u: Vop) -> Seq<NodeV> {
    g.update(q as int, NodeV { adj: g[q as int].adj, vop: mul_spec(u, g[q as int].vop) })
}

/// A simulator's node count fits in a machine word: the nodes sit in one
/// vector.
pub proof fn lemma_len_bounded(sim: &GraphSim)
    ensures
        sim@.len() <= usize::MAX,
{
    assert(sim.nodes.len() == sim.nodes@.len());
}

/// Well-formedness only reads the neighbor lists, so it carries over to any
/// graph with the same length and the same lists.
pub proof fn lemma_wf_same_adjacency(g1: Seq<NodeV>, g2: Seq<NodeV>)
    requires
        wf(g1),
        g2.len() == g1.len(),
        forall|i: int| 0 <= i < g2.len() ==> #[trigger] g2[i].adj == g1[i].adj,
    ensures
        wf(g2),
{
    assert forall|i: int| 0 <= i < g2.len() implies #[trigger] node_wf(g2, i) by {
        assert(node_wf(g1, i));
    }
    assert forall|a: usize, b: usize|
        (a as int) < g2.len() && (b as int) < g2.len() implies (#[trigger] edge(g2, a, b) <==> edge(
        g2,
        b,
        a,
    )) by {
        assert(edge(g1, a, b) <==> edge(g1, b, a));
    }
}

/// Whether `x` occurs in the vector.
pub(crate) fn vec_contains(v: &Vec<usize>, x: usize) -> (b: bool)
    ensures
        b == v@.contains(x),
{
    let mut k: usize = 0;
    while k < v.len()
        invariant
            k <= v@.len(),
            forall|j: int| 0 <= j < k ==> v@[j] != x,
        decreases v@.len() - k,
    {
        if v[k] == x {
            assert(v@.contains(x)) by {
                assert(v@[k as int] == x);
            }
            return true;
        }
        k += 1;
    }
    false
}

/// Removes the first occurrence of `x`, if any. On a duplicate-free vector
/// this removes the value altogether and keeps the rest.
fn remove_value(v: &mut Vec<usize>, x: usize) -> (was: bool)
    requires
        old(v)@.no_duplicates(),
    ensures
        final(v)@.no_duplicates(),
        was == old(v)@.contains(x),
        forall|y: usize| #[trigger] final(v)@.contains(y) <==> (old(v)@.contains(y) && y != x),
        was ==> final(v)@.len() == old(v)@.len() - 1,
        !was ==> final(v)@ == old(v)@,
{
    let ghost s = v@;
    let mut k: usize = 0;
    while k < v.len()
        invariant
            v@ == s,
            s == old(v)@,
            s.no_duplicates(),
            k <= s.len(),
            forall|j: int| 0 <= j < k ==> s[j] != x,
        decreases s.len() - k,
    {
        if v[k] == x {
            v.remove(k);
            proof {
                lemma_remove_membership(s, k as int);
                assert(s.contains(x)) by {
                    assert(s[k as int] == x);
                }
            }
            return true;
        }
        k += 1;
    }
    assert(!s.contains(x));
    false
}

/// Removing position `i` from a duplicate-free sequence removes exactly the
/// value that stood there.
pub(crate) proof fn lemma_remove_membership(s: Seq<usize>, i: int)
    requires
        0 <= i < s.len(),
        s.no_duplicates(),
    ensures
        s.remove(i).no_duplicates(),
        forall|y: usize| #[trigger] s.remove(i).contains(y) <==> (s.contains(y) && y != s[i]),
{
    let r = s.remove(i);
    s.remove_ensures(i);
    assert forall|y: usize| #[trigger] r.contains(y) implies s.contains(y) && y != s[i] by {
        let j = choose|j: int| 0 <= j < r.len() && r[j] == y;
        if j < i {
            assert(s[j] == y);
        } else {
            assert(s[j + 1] == y);
        }
    }
    assert forall|y: usize| s.contains(y) && y != s[i] implies #[trigger] r.contains(y) by {
        let j = choose|j: int| 0 <= j < s.len() && s[j] == y;
        if j < i {
            assert(r[j] == y);
        } else {
            assert(r[j - 1] == y);
        }
    }
    assert forall|p: int, q: int| 0 <= p < q < r.len() implies r[p] != r[q] by {
        let sp: int = if p < i {
            p
        } else {
            p + 1
        };
        let sq: int = if q < i {
            q
        } else {
            q + 1
        };
        assert(r[p] == s[sp]);
        assert(r[q] == s[sq]);
    }
}

impl GraphSim {
    /// Shared access to one node.
    pub fn index(&self, i: usize) -> (n: &Node)
        requires
            (i as int) < self@.len(),
        ensures
            n@ == self@[i as int],
    {
        &self.nodes[i]
    }

    /// Exclusive access to one node; the rest of the simulator is untouched.
    fn index_mut(&mut self, i: usize) -> (n: &mut Node)
        requires
            (i as int) < old(self)@.len(),
        ensures
            n@ == old(self)@[i as int],
            final(self)@ =~= old(self)@.update(i as int, final(n)@),
    {
        &mut self.nodes[i]
    }

    /// Create a simulator with `qubit_amount` qubits, each isolated and in
    /// the canonical |0> label.
    pub fn new(qubit_amount: usize) -> (sim: GraphSim)
        ensures
            sim@.len() == qubit_amount,
            forall|i: int|
                0 <= i < qubit_amount ==> (#[trigger] sim@[i]).adj.len() == 0 && sim@[i].vop
                    == Vop::YC,
            wf(sim@),
    {
        let mut nodes: Vec<Node> = Vec::new();
        let mut k: usize = 0;
        while k < qubit_amount
            invariant
                k <= qubit_amount,
            nodes@.len() == k,
                forall|i: int|
                    0 <= i < k ==> (#[trigger] nodes@[i])@.adj.len() == 0 && nodes@[i]@.vop
                        == Vop::YC,
            decreases qubit_amount - k,
        {
            nodes.push(Node::default());
            k += 1;
        }
        let sim = GraphSim { nodes };
        proof {
            assert forall|i: int| 0 <= i < qubit_amount implies node_wf(sim@, i) by {
                assert(sim@[i].adj.len() == 0);
                assert forall|y: usize| #[trigger] sim@[i].adj.contains(y) implies (y as int)
                    < sim@.len() && (y as int) != i by {}
            }
        }
        sim
    }

    /// Flip the edge between the distinct nodes `na` and `nb`: remove it if
    /// present on both sides, insert it on both sides otherwise. Nothing else
    /// changes. Returns whether the edge exists afterwards.
    pub fn toggle_edge(&mut self, na: usize, nb: usize) -> (now: bool)
        requires
            wf(old(self)@),
            (na as int) < old(self)@.len(),
            (nb as int) < old(self)@.len(),
            na != nb,
        ensures
            wf(final(self)@),
            final(self)@.len() == old(self)@.len(),
            forall|i: int|
                0 <= i < old(self)@.len() && i != na as int && i != nb as int
                    ==> final(self)@[i] == old(self)@[i],
            final(self)@[na as int].vop == old(self)@[na as int].vop,
            final(self)@[nb as int].vop == old(self)@[nb as int].vop,
            edge(final(self)@, na, nb) == !edge(old(self)@, na, nb),
            forall|y: usize|
                y != nb ==> (#[trigger] final(self)@[na as int].adj.contains(y) <==> old(
                    self,
                )@[na as int].adj.contains(y)),
            forall|y: usize|
                y != na ==> (#[trigger] final(self)@[nb as int].adj.contains(y) <==> old(
                    self,
                )@[nb as int].adj.contains(y)),
            now == edge(final(self)@, na, nb),
    {
        let ghost g0 = self@;
        proof {
            assert(node_wf(g0, na as int));
            assert(node_wf(g0, nb as int));
            assert(edge(g0, na, nb) <==> edge(g0, nb, na));
        }
        let had = self.index_mut(na).adj_remove(nb);
        self.index_mut(nb).adj_remove(na);
        let ghost g2 = self@;
        if had {
            proof {
                lemma_wf_toggle(g0, g2, na, nb, false);
            }
            false
        } else {
            self.index_mut(na).adj_push(nb);
            self.index_mut(nb).adj_push(na);
            let ghost g4 = self@;
            proof {
                lemma_wf_toggle(g0, g4, na, nb, true);
            }
            true
        }
    }

    /// Remove the edge between `na` and `nb` if it is present; both sides are
    /// cleared and nothing else changes.
    pub fn delete_edge(&mut self, na: usize, nb: usize)
        requires
            wf(old(self)@),
            (na as int) < old(self)@.len(),
            (nb as int) < old(self)@.len(),
            na != nb,
        ensures
            wf(final(self)@),
            final(self)@.len() == old(self)@.len(),
            forall|i: int|
                0 <= i < old(self)@.len() && i != na as int && i != nb as int
                    ==> final(self)@[i] == old(self)@[i],
            final(self)@[na as int].vop == old(self)@[na as int].vop,
            final(self)@[nb as int].vop == old(self)@[nb as int].vop,
            !edge(final(self)@, na, nb),
            !edge(final(self)@, nb, na),
            forall|y: usize|
                y != nb ==> (#[trigger] final(self)@[na as int].adj.contains(y) <==> old(
                    self,
                )@[na as int].adj.contains(y)),
            forall|y: usize|
                y != na ==> (#[trigger] final(self)@[nb as int].adj.contains(y) <==> old(
                    self,
                )@[nb as int].adj.contains(y)),
            !edge(old(self)@, na, nb) ==> final(self)@ == old(self)@,
    {
        let ghost g0 = self@;
        proof {
            assert(node_wf(g0, na as int));
            assert(node_wf(g0, nb as int));
            assert(edge(g0, na, nb) <==> edge(g0, nb, na));
        }
        self.index_mut(na).adj_remove(nb);
        self.index_mut(nb).adj_remove(na);
        let ghost g2 = self@;
        proof {
            lemma_wf_toggle(g0, g2, na, nb, false);
            if !edge(g0, na, nb) {
                assert(g2 =~= g0);
            }
        }
    }
}

/// After an edge flip between `na` and `nb` that left every other list alone,
/// removed or added the partner on both sides alike, and kept both lists
/// duplicate-free, the graph invariant holds again.
proof fn lemma_wf_toggle(g0: Seq<NodeV>, g: Seq<NodeV>, na: usize, nb: usize, present: bool)
    requires
        wf(g0),
        g.len() == g0.len(),
        (na as int) < g0.len(),
        (nb as int) < g0.len(),
        na != nb,
        forall|i: int| 0 <= i < g0.len() && i != na as int && i != nb as int ==> g[i] == g0[i],
        g[na as int].adj.no_duplicates(),
        g[nb as int].adj.no_duplicates(),
        g[na as int].adj.contains(nb) == present,
        g[nb as int].adj.contains(na) == present,
        forall|y: usize|
            y != nb ==> (#[trigger] g[na as int].adj.contains(y) <==> g0[na as int].adj.contains(
                y,
            )),
        forall|y: usize|
            y != na ==> (#[trigger] g[nb as int].adj.contains(y) <==> g0[nb as int].adj.contains(
                y,
            )),
    ensures
        wf(g),
{
    assert forall|i: int| 0 <= i < g.len() implies #[trigger] node_wf(g, i) by {
        assert(node_wf(g0, i));
        if i == na as int {
            assert forall|y: usize| #[trigger] g[i].adj.contains(y) implies (y as int) < g.len()
                && (y as int) != i by {
                if y != nb {
                    assert(g0[i].adj.contains(y));
                }
            }
        } else if i == nb as int {
            assert forall|y: usize| #[trigger] g[i].adj.contains(y) implies (y as int) < g.len()
                && (y as int) != i by {
                if y != na {
                    assert(g0[i].adj.contains(y));
                }
            }
        }
    }
    assert forall|a: usize, b: usize| (a as int) < g.len() && (b as int) < g.len() implies (
    #[trigger] edge(g, a, b) <==> edge(g, b, a)) by {
        assert(edge(g0, a, b) <==> edge(g0, b, a));
        if a != na && a != nb && b != na && b != nb {
            assert(g[a as int] == g0[a as int]);
            assert(g[b as int] == g0[b as int]);
        }
    }
}

/// Pushing a fresh value keeps a sequence duplicate-free.
pub(crate) proof fn lemma_push_no_duplicates(s: Seq<usize>, x: usize)
    requires
        s.no_duplicates(),
        !s.contains(x),
    ensures
        s.push(x).no_duplicates(),
{
    let r = s.push(x);
    assert forall|p: int, q: int| 0 <= p < q < r.len() implies r[p] != r[q] by {
        if q == r.len() - 1 {
            assert(r[p] == s[p]);
            assert(!s.contains(x));
            assert(s[p] != x) by {
                if s[p] == x {
                    assert(s.contains(x));
                }
            }
        }
    }
}

/// The unordered pair {a, b} is one the doubled walk over `nbs` has already
/// toggled: it sits at positions p < q with p before row `i`, or in row `i`
/// before column `j`.
pub open spec fn lc_pair_done(nbs: Seq<usize>, i: int, j: int, a: usize, b: usize) -> bool {
    exists|p: int, q: int|
        0 <= p < q < nbs.len() && (p < i || (p == i && q < j)) && ((nbs[p] == a && nbs[q] == b) || (
        nbs[p] == b && nbs[q] == a))
}

/// In a duplicate-free list, the fully walked pair predicate holds of {a, b}
/// exactly when both values occur in the list and differ.
pub(crate) proof fn lemma_lc_pair_done_full(nbs: Seq<usize>, a: usize, b: usize)
    requires
        nbs.no_duplicates(),
    ensures
        lc_pair_done(nbs, nbs.len() as int, 0, a, b) <==> (nbs.contains(a) && nbs.contains(b) && a
            != b),
{
    if nbs.contains(a) && nbs.contains(b) && a != b {
        let p = choose|p: int| 0 <= p < nbs.len() && nbs[p] == a;
        let q = choose|q: int| 0 <= q < nbs.len() && nbs[q] == b;
        if p < q {
            assert(lc_pair_done(nbs, nbs.len() as int, 0, a, b));
        } else {
            assert(lc_pair_done(nbs, nbs.len() as int, 0, a, b)) by {
                assert(0 <= q < p < nbs.len() && nbs[q] == b && nbs[p] == a);
            }
        }
    }
    if lc_pair_done(nbs, nbs.len() as int, 0, a, b) {
        let (p, q) = choose|p: int, q: int|
            0 <= p < q < nbs.len() && ((nbs[p] == a && nbs[q] == b) || (nbs[p] == b && nbs[q]
                == a));
        assert(nbs[p] != nbs[q]);
        assert(nbs.contains(nbs[p]));
        assert(nbs.contains(nbs[q]));
    }
}

impl GraphSim {
    /// Left-multiply `u` into the vertex operator of `qubit`;
    /// nothing else moves.
    fn gate(&mut self, qubit: usize, u: Vop)
        requires
            wf(old(self)@),
            (qubit as int) < old(self)@.len(),
        ensures
            wf(final(self)@),
            final(self)@ == apply_gate(old(self)@, qubit, u),
    {
        self.index_mut(qubit).vop_mul_left(u);
        proof {
            assert(self@ =~= apply_gate(old(self)@, qubit, u));
            lemma_wf_same_adjacency(old(self)@, self@);
        }
    }

    /// Apply a Pauli X gate to `qubit`.
    pub fn x(&mut self, qubit: usize)
        requires
            wf(old(self)@),
            (qubit as int) < old(self)@.len(),
        ensures
            wf(final(self)@),
            final(self)@ == apply_gate(old(self)@, qubit, X_GATE),
    {
        self.gate(qubit, X_GATE);
    }

    /// Apply a Pauli Y gate to `qubit`.
    pub fn y(&mut self, qubit: usize)
        requires
            wf(old(self)@),
            (qubit as int) < old(self)@.len(),
        ensures
            wf(final(self)@),
            final(self)@ == apply_gate(old(self)@, qubit, Y_GATE),
    {
        self.gate(qubit, Y_GATE);
    }

    /// Apply a Pauli Z gate to `qubit`.
    pub fn z(&mut self, qubit: usize)
        requires
            wf(old(self)@),
            (qubit as int) < old(self)@.len(),
        ensures
            wf(final(self)@),
            final(self)@ == apply_gate(old(self)@, qubit, Z_GATE),
    {
        self.gate(qubit, Z_GATE);
    }

    /// Apply a Hadamard gate to `qubit`.
    pub fn h(&mut self, qubit: usize)
        requires
            wf(old(self)@),
            (qubit as int) < old(self)@.len(),
        ensures
            wf(final(self)@),
            final(self)@ == apply_gate(old(self)@, qubit, H_GATE),
    {
        self.gate(qubit, H_GATE);
    }

    /// Apply a phase gate S to `qubit`.
    pub fn s(&mut self, qubit: usize)
        requires
            wf(old(self)@),
            (qubit as int) < old(self)@.len(),
        ensures
            wf(final(self)@),
            final(self)@ == apply_gate(old(self)@, qubit, S_GATE),
    {
        self.gate(qubit, S_GATE);
    }

    /// Apply an inverse phase gate S-dagger to `qubit`.
    pub fn sdag(&mut self, qubit: usize)
        requires
            wf(old(self)@),
            (qubit as int) < old(self)@.len(),
        ensures
            wf(final(self)@),
            final(self)@ == apply_gate(old(self)@, qubit, SDAG_GATE),
    {
        self.gate(qubit, SDAG_GATE);
    }
}

/// Walking a row to its end covers the same pairs as standing at the start
/// of the next row.
pub(crate) proof fn lemma_lc_pair_row_end(nbs: Seq<usize>, i: int, a: usize, b: usize)
    ensures
        lc_pair_done(nbs, i, nbs.len() as int, a, b) == lc_pair_done(nbs, i + 1, 0, a, b),
{
    if lc_pair_done(nbs, i, nbs.len() as int, a, b) {
        let (p, q) = choose|p: int, q: int|
            0 <= p < q < nbs.len() && (p < i || (p == i && q < nbs.len())) && ((nbs[p] == a
                && nbs[q] == b) || (nbs[p] == b && nbs[q] == a));
        assert(0 <= p < q < nbs.len() && p < i + 1 && ((nbs[p] == a && nbs[q] == b) || (nbs[p] == b
            && nbs[q] == a)));
    }
    if lc_pair_done(nbs, i + 1, 0, a, b) {
        let (p, q) = choose|p: int, q: int|
            0 <= p < q < nbs.len() && p < i + 1 && ((nbs[p] == a && nbs[q] == b) || (nbs[p] == b
                && nbs[q] == a))
        ;
        assert(0 <= p < q < nbs.len() && (p < i || (p == i && q < nbs.len())) && ((nbs[p] == a
            && nbs[q] == b) || (nbs[p] == b && nbs[q] == a)));
    }
}

/// Walking every row to its end covers the same pairs as standing at the
/// start of the next row, whatever the pair.
pub(crate) proof fn lemma_lc_pair_row_end_all(nbs: Seq<usize>, i: int)
    ensures
        forall|a: usize, b: usize| #[trigger]
            lc_pair_done(nbs, i, nbs.len() as int, a, b) == lc_pair_done(nbs, i + 1, 0, a, b),
{
    assert forall|a: usize, b: usize| #[trigger]
        lc_pair_done(nbs, i, nbs.len() as int, a, b) == lc_pair_done(nbs, i + 1, 0, a, b) by {
        lemma_lc_pair_row_end(nbs, i, a, b);
    }
}

impl GraphSim {
    /// Local complementation at `node`: toggle every edge between two
    /// distinct neighbors of `node`, right-multiply S into every neighbor's
    /// vertex operator, and right-multiply YD into `node`'s own. The
    /// neighborhood of `node` itself is untouched.
    fn local_comp(&mut self, node: usize)
        requires
            wf(old(self)@),
            (node as int) < old(self)@.len(),
        ensures
            wf(final(self)@),
            final(self)@.len() == old(self)@.len(),
            final(self)@[node as int].adj == old(self)@[node as int].adj,
            final(self)@[node as int].vop == mul_spec(old(self)@[node as int].vop, Vop::YD),
            forall|j: int|
                0 <= j < old(self)@.len() && j != node as int ==> (#[trigger] final(self)@[j]).vop
                    == if old(self)@[node as int].adj.contains(j as usize) {
                    mul_spec(old(self)@[j].vop, S_GATE)
                } else {
                    old(self)@[j].vop
                },
            forall|j: int|
                0 <= j < old(self)@.len() && j != node as int && !old(self)@[node as int].adj.contains(
                    j as usize,
                ) ==> final(self)@[j] == old(self)@[j],
            forall|a: usize, b: usize|
                (a as int) < old(self)@.len() && (b as int) < old(self)@.len() && a != b && a
                    != node && b != node ==> (#[trigger] edge(final(self)@, a, b) <==> (if old(
                    self,
                )@[node as int].adj.contains(a) && old(self)@[node as int].adj.contains(b) {
                    !edge(old(self)@, a, b)
                } else {
                    edge(old(self)@, a, b)
                })),
            forall|a: usize|
                (a as int) < old(self)@.len() && a != node ==> (#[trigger] edge(
                    final(self)@,
                    a,
                    node,
                ) <==> edge(old(self)@, a, node)),
    {
        let ghost g0 = self@;
        let ghost n = g0.len();
        proof {
            assert(node_wf(g0, node as int));
            assert(n <= usize::MAX) by {
                assert(self.nodes.len() == n);
            }
        }
        let nbs = self.index(node).neighbors();
        let ghost nb = nbs@;
        proof {
            assert forall|p: int| 0 <= p < nb.len() implies ((#[trigger] nb[p]) as int) < n
                && nb[p] != node by {
                assert(nb.contains(nb[p]));
            }
        }
        let len = nbs.len();
        let mut i: usize = 0;
        while i < len
            invariant
                wf(self@),
                self@.len() == n,
                n == g0.len(),
                n <= usize::MAX,
                wf(g0),
                (node as int) < n,
                nb == g0[node as int].adj,
                nb.no_duplicates(),
                forall|p: int| 0 <= p < nb.len() ==> ((#[trigger] nb[p]) as int) < n && nb[p] != node,
                nbs@ == nb,
                len == nb.len(),
                i <= len,
                self@[node as int] == g0[node as int],
                forall|j: int|
                    0 <= j < n && j != node as int ==> (#[trigger] self@[j]).vop == if nb.take(
                        i as int,
                    ).contains(j as usize) {
                        mul_spec(g0[j].vop, S_GATE)
                    } else {
                        g0[j].vop
                    },
                forall|j: int|
                    0 <= j < n && j != node as int && !nb.contains(j as usize) ==> self@[j]
                        == g0[j],
                forall|a: usize, b: usize|
                    (a as int) < n && (b as int) < n && a != b && a != node && b != node ==> (
                    #[trigger] edge(self@, a, b) <==> (if lc_pair_done(nb, i as int, 0, a, b) {
                        !edge(g0, a, b)
                    } else {
                        edge(g0, a, b)
                    })),
            decreases len - i,
        {
            let mut j: usize = i + 1;
            while j < len
                invariant
                    wf(self@),
                    self@.len() == n,
                    n == g0.len(),
                    n <= usize::MAX,
                    wf(g0),
                    (node as int) < n,
                    nb == g0[node as int].adj,
                    nb.no_duplicates(),
                    forall|p: int|
                        0 <= p < nb.len() ==> ((#[trigger] nb[p]) as int) < n && nb[p] != node,
                    nbs@ == nb,
                    len == nb.len(),
                    i < len,
                    i + 1 <= j <= len,
                    self@[node as int] == g0[node as int],
                    forall|k: int|
                        0 <= k < n && k != node as int ==> (#[trigger] self@[k]).vop == if nb.take(
                            i as int,
                        ).contains(k as usize) {
                            mul_spec(g0[k].vop, S_GATE)
                        } else {
                            g0[k].vop
                        },
                    forall|k: int|
                        0 <= k < n && k != node as int && !nb.contains(k as usize) ==> self@[k]
                            == g0[k],
                    forall|a: usize, b: usize|
                        (a as int) < n && (b as int) < n && a != b && a != node && b != node ==> (
                        #[trigger] edge(self@, a, b) <==> (if lc_pair_done(
                            nb,
                            i as int,
                            j as int,
                            a,
                            b,
                        ) {
                            !edge(g0, a, b)
                        } else {
                            edge(g0, a, b)
                        })),
                decreases len - j,
            {
                let va = nbs[i];
                let vb = nbs[j];
                proof {
                    assert(nb[i as int] != nb[j as int]);
                }
                let ghost gpre = self@;
                self.toggle_edge(va, vb);
                proof {
                    assert forall|a: usize, b: usize|
                        (a as int) < n && (b as int) < n && a != b && a != node && b != node
                            implies (#[trigger] edge(self@, a, b) <==> (if lc_pair_done(
                        nb,
                        i as int,
                        j + 1 as int,
                        a,
                        b,
                    ) {
                        !edge(g0, a, b)
                    } else {
                        edge(g0, a, b)
                    })) by {
                        if (a == va && b == vb) || (a == vb && b == va) {
                            assert(edge(self@, a, b) == !edge(gpre, a, b));
                            assert(lc_pair_done(nb, i as int, j + 1 as int, a, b)) by {
                                assert(0 <= i < j + 1 && ((nb[i as int] == a && nb[j as int] == b)
                                    || (nb[i as int] == b && nb[j as int] == a)));
                            }
                            assert(!lc_pair_done(nb, i as int, j as int, a, b)) by {
                                if lc_pair_done(nb, i as int, j as int, a, b) {
                                    let (p, q) = choose|p: int, q: int|
                                        0 <= p < q < nb.len() && (p < i as int || (p == i as int
                                            && q < j as int)) && ((nb[p] == a && nb[q] == b) || (
                                        nb[p] == b && nb[q] == a));
                                    assert(p == i as int || nb[p] == nb[i as int] || nb[p]
                                        == nb[j as int]);
                                    if nb[p] == nb[i as int] {
                                        assert(p == i as int);
                                    } else {
                                        assert(nb[p] == nb[j as int]);
                                        assert(p == j as int);
                                    }
                                    if p == i as int {
                                        if nb[q] == nb[j as int] {
                                            assert(q == j as int);
                                        } else {
                                            assert(nb[q] == nb[i as int]);
                                            assert(q == i as int);
                                        }
                                    }
                                }
                            }
                        } else {
                            assert(edge(self@, a, b) == edge(gpre, a, b)) by {
                                if a != va && a != vb {
                                    assert(self@[a as int] == gpre[a as int]);
                                }
                            }
                            assert(lc_pair_done(nb, i as int, j + 1 as int, a, b) == lc_pair_done(
                                nb,
                                i as int,
                                j as int,
                                a,
                                b,
                            )) by {
                                if lc_pair_done(nb, i as int, j + 1 as int, a, b) {
                                    let (p, q) = choose|p: int, q: int|
                                        0 <= p < q < nb.len() && (p < i as int || (p == i as int
                                            && q < j + 1 as int)) && ((nb[p] == a && nb[q] == b)
                                            || (nb[p] == b && nb[q] == a));
                                    if p == i as int && q == j as int {
                                        assert((a == va && b == vb) || (a == vb && b == va));
                                    } else {
                                        assert(p < i as int || (p == i as int && q < j as int));
                                        assert(lc_pair_done(nb, i as int, j as int, a, b));
                                    }
                                }
                                if lc_pair_done(nb, i as int, j as int, a, b) {
                                    let (p, q) = choose|p: int, q: int|
                                        0 <= p < q < nb.len() && (p < i as int || (p == i as int
                                            && q < j as int)) && ((nb[p] == a && nb[q] == b) || (
                                        nb[p] == b && nb[q] == a));
                                    assert(p < i as int || (p == i as int && q < j + 1 as int));
                                    assert(lc_pair_done(nb, i as int, j + 1 as int, a, b));
                                }
                            }
                        }
                    }
                    assert forall|k: int| 0 <= k < n && k != node as int implies (
                    #[trigger] self@[k]).vop == (if nb.take(i as int).contains(k as usize) {
                        mul_spec(g0[k].vop, S_GATE)
                    } else {
                        g0[k].vop
                    }) by {
                        if k != va as int && k != vb as int {
                            assert(self@[k] == gpre[k]);
                        } else {
                            assert(self@[k].vop == gpre[k].vop);
                        }
                    }
                    assert forall|k: int|
                        0 <= k < n && k != node as int && !nb.contains(k as usize) implies self@[k]
                        == g0[k] by {
                        assert(nb.contains(va));
                        assert(nb.contains(vb));
                        assert(self@[k] == gpre[k]);
                    }
                }
                j += 1;
            }
            let target = nbs[i];
            let ghost gmid = self@;
            self.index_mut(target).vop_mul_right(S_GATE);
            proof {
                assert(nb.contains(nb[i as int])) by {
                    assert(nb[i as int] == nb[i as int]);
                }
                assert(!nb.take(i as int).contains(nb[i as int])) by {
                    if nb.take(i as int).contains(nb[i as int]) {
                        let p = choose|p: int|
                            0 <= p < i as int && nb.take(i as int)[p] == nb[i as int];
                        assert(nb[p] == nb[i as int]);
                    }
                }
                assert(self@ =~= gmid.update(
                    target as int,
                    NodeV {
                        adj: gmid[target as int].adj,
                        vop: mul_spec(gmid[target as int].vop, S_GATE),
                    },
                ));
                lemma_wf_same_adjacency(gmid, self@);
                assert forall|k: int| 0 <= k < n && k != node as int implies (
                #[trigger] self@[k]).vop == (if nb.take(i + 1 as int).contains(k as usize) {
                    mul_spec(g0[k].vop, S_GATE)
                } else {
                    g0[k].vop
                }) by {
                    assert(nb.take(i + 1 as int) =~= nb.take(i as int).push(nb[i as int]));
                    vstd::seq_lib::lemma_seq_contains_after_push(
                        nb.take(i as int),
                        nb[i as int],
                        k as usize,
                    );
                    assert(nb.take(i + 1 as int).contains(k as usize) == (nb[i as int]
                        == k as usize || nb.take(i as int).contains(k as usize)));
                    assert(gmid[k].vop == (if nb.take(i as int).contains(k as usize) {
                        mul_spec(g0[k].vop, S_GATE)
                    } else {
                        g0[k].vop
                    }));
                    if k == target as int {
                        assert(!nb.take(i as int).contains(k as usize));
                        assert(gmid[k].vop == g0[k].vop);
                        assert(self@[k].vop == mul_spec(gmid[k].vop, S_GATE));
                        assert(nb.take(i + 1 as int).contains(k as usize));
                    } else {
                        assert(self@[k].vop == gmid[k].vop);
                        assert(nb[i as int] != k as usize);
                    }
                }
                assert forall|a: usize, b: usize|
                    (a as int) < n && (b as int) < n && a != b && a != node && b != node implies (
                #[trigger] edge(self@, a, b) <==> (if lc_pair_done(nb, i + 1 as int, 0, a, b) {
                    !edge(g0, a, b)
                } else {
                    edge(g0, a, b)
                })) by {
                    assert(edge(self@, a, b) == edge(gmid, a, b));
                    lemma_lc_pair_row_end(nb, i as int, a, b);
                }
            }
            i += 1;
        }
        let ghost gend = self@;
        self.index_mut(node).vop_mul_right(Vop::YD);
        proof {
            assert(self@ =~= gend.update(
                node as int,
                NodeV {
                    adj: gend[node as int].adj,
                    vop: mul_spec(gend[node as int].vop, Vop::YD),
                },
            ));
            lemma_wf_same_adjacency(gend, self@);
            assert(nb.take(len as int) =~= nb);
            assert forall|a: usize, b: usize|
                (a as int) < n && (b as int) < n && a != b && a != node && b != node implies (
            #[trigger] edge(self@, a, b) <==> (if g0[node as int].adj.contains(a)
                && g0[node as int].adj.contains(b) {
                !edge(g0, a, b)
            } else {
                edge(g0, a, b)
            })) by {
                assert(edge(self@, a, b) == edge(gend, a, b));
                lemma_lc_pair_done_full(nb, a, b);
            }
            assert forall|a: usize| (a as int) < n && a != node implies (#[trigger] edge(
                self@,
                a,
                node,
            ) <==> edge(g0, a, node)) by {
                assert(edge(self@, a, node) <==> edge(self@, node, a));
                assert(edge(g0, a, node) <==> edge(g0, node, a));
                assert(self@[node as int].adj == g0[node as int].adj);
            }
        }
    }
}

impl GraphSim {
    /// Rewrite the vertex operator at `first` into the graph: walk its
    /// local-complementation word, complementing at `first` for a U and at a
    /// pivot neighbor (`avoid` only as a fallback) for a V. Whenever `first`
    /// has any neighbor at all, its vertex operator lands in the Z-commuting
    /// set.
    fn remove_vop(&mut self, first: usize, avoid: usize)
        requires
            wf(old(self)@),
            (first as int) < old(self)@.len(),
            (avoid as int) < old(self)@.len(),
            first != avoid,
        ensures
            wf(final(self)@),
            final(self)@.len() == old(self)@.len(),
            old(self)@[first as int].adj.len() > 0 ==> crate::vop::is_in_z_spec(
                final(self)@[first as int].vop,
            ),
            exists|p: usize|
                #[trigger] valid_pivot(old(self)@, first, avoid, p) && same_state(
                    final(self)@,
                    rv_spec(old(self)@, first, p),
                ),
    {
        let ghost g0 = self@;
        let ghost n = g0.len();
        proof {
            assert(node_wf(g0, first as int));
            assert(n <= usize::MAX) by {
                assert(self.nodes.len() == n);
            }
        }
        let nlen = self.index(first).len();
        let mut second: usize = avoid;
        let mut found = false;
        let mut k: usize = 0;
        while k < nlen
            invariant
                self@ == g0,
                wf(g0),
                (first as int) < n,
                (avoid as int) < n,
                n == g0.len(),
                nlen == g0[first as int].adj.len(),
                k <= nlen,
                !found ==> second == avoid && (forall|p: int|
                    0 <= p < k ==> g0[first as int].adj[p] == avoid),
                found ==> g0[first as int].adj.contains(second) && second != avoid,
            decreases nlen - k,
        {
            let y = self.index(first).neighbor(k);
            if !found && y != avoid {
                second = y;
                found = true;
                proof {
                    assert(g0[first as int].adj.contains(y)) by {
                        assert(g0[first as int].adj[k as int] == y);
                    }
                }
            }
            k += 1;
        }
        let ghost has_nb = g0[first as int].adj.len() > 0;
        proof {
            if has_nb && !found {
                assert(g0[first as int].adj[0] == avoid);
                assert(g0[first as int].adj.contains(second)) by {
                    assert(g0[first as int].adj[0] == second);
                }
            }
            if has_nb {
                assert(g0[first as int].adj.contains(second));
                assert((second as int) < n && second != first);
                assert(edge(g0, first, second));
            }
            assert(valid_pivot(g0, first, avoid, second)) by {
                if has_other_neighbor(g0, first, avoid) {
                    if !found {
                        let y = choose|y: usize| g0[first as int].adj.contains(y) && y != avoid;
                        let p = choose|p: int|
                            0 <= p < g0[first as int].adj.len() && g0[first as int].adj[p] == y;
                        assert(g0[first as int].adj[p] == avoid);
                        assert(false);
                    }
                } else {
                    if found {
                        assert(g0[first as int].adj.contains(second) && second != avoid);
                        assert(has_other_neighbor(g0, first, avoid));
                    }
                }
            }
        }
        let v0 = self.index(first).vop();
        let ghost w = crate::vop_aux::decomp_spec(v0);
        let wlen = v0.decomp_len();
        let mut k2: usize = 0;
        while k2 < wlen
            invariant
                wf(self@),
                self@.len() == n,
                n == g0.len(),
                n <= usize::MAX,
                (first as int) < n,
                (second as int) < n,
                first != second || !has_nb,
                k2 <= wlen,
                w == crate::vop_aux::decomp_spec(v0),
                wlen == w.len(),
                has_nb == (g0[first as int].adj.len() > 0),
                has_nb ==> edge(self@, first, second),
                has_nb ==> crate::vop::word_apply_from(self@[first as int].vop, w, k2 as int)
                    == crate::vop::word_apply_from(v0, w, 0),
                same_state(self@, rv_prefix(g0, w, k2 as int, first, second)),
                wf(g0),
            decreases wlen - k2,
        {
            let ghost gpre = self@;
            let ghost cur = self@[first as int].vop;
            let u = v0.decomp_at(k2);
            match u {
                crate::vop::DecompUnit::U => self.local_comp(first),
                crate::vop::DecompUnit::V => self.local_comp(second),
            }
            proof {
                if has_nb {
                    assert(edge(gpre, first, second) && edge(gpre, second, first));
                    match u {
                        crate::vop::DecompUnit::U => {
                            assert(self@[first as int].vop == mul_spec(cur, Vop::YD));
                            assert(edge(self@, second, first));
                            assert(edge(self@, first, second));
                        },
                        crate::vop::DecompUnit::V => {
                            assert(self@[first as int].vop == mul_spec(cur, S_GATE));
                            assert(edge(self@, first, second));
                        },
                    }
                    assert(self@[first as int].vop == mul_spec(
                        cur,
                        crate::vop::step_vop(w[k2 as int]),
                    ));
                    assert(crate::vop::word_apply_from(cur, w, k2 as int)
                        == crate::vop::word_apply_from(
                        mul_spec(cur, crate::vop::step_vop(w[k2 as int])),
                        w,
                        k2 + 1,
                    ));
                }
                let tgt = word_target(w[k2 as int], first, second);
                lemma_rv_prefix_len(g0, w, k2 as int, first, second);
                assert(rv_prefix(g0, w, k2 + 1, first, second) == lc_spec(
                    rv_prefix(g0, w, k2 as int, first, second),
                    tgt,
                ));
                lemma_lc_step(gpre, self@, rv_prefix(g0, w, k2 as int, first, second), tgt);
            }
            k2 += 1;
        }
        proof {
            if has_nb {
                assert(crate::vop::word_apply_from(self@[first as int].vop, w, wlen as int)
                    == self@[first as int].vop);
                crate::vop::lemma_decomp_lands_in_z(v0);
            }
            assert(same_state(self@, rv_spec(g0, first, second))) by {
                assert(v0 == g0[first as int].vop);
            }
        }
    }
}

/// Node `a` has some neighbor other than `b`.
pub open spec fn has_other_neighbor(g: Seq<NodeV>, a: usize, b: usize) -> bool {
    exists|y: usize| #[trigger] g[a as int].adj.contains(y) && y != b
}

/// Two graph states carry the same information: the same number of nodes,
/// the same vertex operators, and the same edges. Neighbor lists may differ
/// in order.
pub open spec fn same_state(g1: Seq<NodeV>, g2: Seq<NodeV>) -> bool {
    &&& g1.len() == g2.len()
    &&& forall|j: int| 0 <= j < g1.len() ==> (#[trigger] g1[j]).vop == g2[j].vop
    &&& forall|a: usize, b: usize|
        (a as int) < g1.len() ==> (#[trigger] edge(g1, a, b) <==> edge(g2, a, b))
}

/// The ascending list of the indices below `n` that satisfy `pred`.
pub open spec fn asc_members(n: int, pred: spec_fn(usize) -> bool) -> Seq<usize>
    decreases n,
{
    if n <= 0 {
        Seq::empty()
    } else if pred((n - 1) as usize) {
        asc_members(n - 1, pred).push((n - 1) as usize)
    } else {
        asc_members(n - 1, pred)
    }
}

/// Membership in the ascending list is exactly the predicate, below the
/// bound.
pub proof fn lemma_asc_members_contains(n: int, pred: spec_fn(usize) -> bool, y: usize)
    ensures
        asc_members(n, pred).contains(y) == ((y as int) < n && pred(y)),
    decreases n,
{
    if n > 0 {
        lemma_asc_members_contains(n - 1, pred, y);
        if pred((n - 1) as usize) {
            vstd::seq_lib::lemma_seq_contains_after_push(
                asc_members(n - 1, pred),
                (n - 1) as usize,
                y,
            );
        }
    }
}

/// Whether the edge {a, b} stands after a local complementation at `v`:
/// flipped when both ends are distinct neighbors of `v` away from `v`,
/// untouched otherwise.
pub open spec fn lc_edge(g: Seq<NodeV>, v: usize, a: usize, b: usize) -> bool {
    if a != v && b != v && a != b && edge(g, v, a) && edge(g, v, b) {
        !edge(g, a, b)
    } else {
        edge(g, a, b)
    }
}

/// The operator node `j` carries after a local complementation at `v`: YD
/// into `v` itself, S into each neighbor, from the right.
pub open spec fn lc_vop(g: Seq<NodeV>, v: usize, j: int) -> Vop {
    if j == v as int {
        mul_spec(g[j].vop, Vop::YD)
    } else if g[v as int].adj.contains(j as usize) {
        mul_spec(g[j].vop, S_GATE)
    } else {
        g[j].vop
    }
}

/// The state a local complementation at `v` leads to, with each neighbor
/// list written in ascending order.
pub open spec fn lc_spec(g: Seq<NodeV>, v: usize) -> Seq<NodeV> {
    Seq::new(
        g.len(),
        |j: int|
            NodeV {
                adj: asc_members(g.len() as int, |y: usize| lc_edge(g, v, j as usize, y)),
                vop: lc_vop(g, v, j),
            },
    )
}

/// A real local complementation step matches the canonical one: when the
/// membership facts of `local_comp`'s contract relate `gr0` to `gr1`, and
/// `gr0` carries the same state as `gs`, then `gr1` carries the same state
/// as the canonical complement of `gs`.
proof fn lemma_lc_step(gr0: Seq<NodeV>, gr1: Seq<NodeV>, gs: Seq<NodeV>, v: usize)
    requires
        wf(gr0),
        wf(gr1),
        same_state(gr0, gs),
        (v as int) < gr0.len(),
        gr1.len() == gr0.len(),
        gr1[v as int].adj == gr0[v as int].adj,
        gr1[v as int].vop == mul_spec(gr0[v as int].vop, Vop::YD),
        forall|j: int|
            0 <= j < gr0.len() && j != v as int ==> (#[trigger] gr1[j]).vop == (if gr0[v as int].adj.contains(
                j as usize,
            ) {
                mul_spec(gr0[j].vop, S_GATE)
            } else {
                gr0[j].vop
            }),
        forall|a: usize, b: usize|
            (a as int) < gr0.len() && (b as int) < gr0.len() && a != b && a != v && b != v ==> (
            #[trigger] edge(gr1, a, b) <==> (if gr0[v as int].adj.contains(a)
                && gr0[v as int].adj.contains(b) {
                !edge(gr0, a, b)
            } else {
                edge(gr0, a, b)
            })),
        forall|a: usize|
            (a as int) < gr0.len() && a != v ==> (#[trigger] edge(gr1, a, v) <==> edge(gr0, a, v)),
    ensures
        same_state(gr1, lc_spec(gs, v)),
{
    let out = lc_spec(gs, v);
    assert(out.len() == gr1.len());
    assert forall|j: int| 0 <= j < gr1.len() implies (#[trigger] gr1[j]).vop == out[j].vop by {
        assert(out[j].vop == lc_vop(gs, v, j));
        assert(edge(gr0, v, j as usize) <==> edge(gs, v, j as usize));
        if j != v as int {
            assert(gr1[j].vop == (if gr0[v as int].adj.contains(j as usize) {
                mul_spec(gr0[j].vop, S_GATE)
            } else {
                gr0[j].vop
            }));
        }
    }
    assert forall|a: usize, b: usize|
        (a as int) < gr1.len() implies (#[trigger] edge(gr1, a, b) <==> edge(out, a, b)) by {
        lemma_asc_members_contains(
            gs.len() as int,
            |y: usize| lc_edge(gs, v, a, y),
            b,
        );
        assert(edge(gr0, a, b) <==> edge(gs, a, b));
        assert(edge(gr0, v, a) <==> edge(gs, v, a));
        assert(edge(gr0, v, b) <==> edge(gs, v, b));
        assert(node_wf(gr0, a as int));
        assert(node_wf(gr1, a as int));
        if (b as int) >= gr1.len() {
            assert(!edge(gr1, a, b)) by {
                if edge(gr1, a, b) {
                    assert(gr1[a as int].adj.contains(b));
                }
            }
            assert(!edge(out, a, b));
        } else if a == b {
            assert(!edge(gr1, a, b));
            assert(!edge(gs, a, b));
        } else if a == v {
            assert(edge(gr1, v, b) <==> edge(gr1, b, v));
            assert(edge(gr0, v, b) <==> edge(gr0, b, v));
            assert(gr1[v as int].adj == gr0[v as int].adj);
        } else if b == v {
            assert(edge(gr1, a, v) <==> edge(gr0, a, v));
        } else {
            assert(edge(gr0, v, a) == gr0[v as int].adj.contains(a));
            assert(edge(gr0, v, b) == gr0[v as int].adj.contains(b));
        }
    }
}

/// Canonical local complementation respects state sameness.
proof fn lemma_lc_spec_congruence(gs1: Seq<NodeV>, gs2: Seq<NodeV>, v: usize)
    requires
        same_state(gs1, gs2),
        (v as int) < gs1.len(),
    ensures
        same_state(lc_spec(gs1, v), lc_spec(gs2, v)),
{
    let o1 = lc_spec(gs1, v);
    let o2 = lc_spec(gs2, v);
    assert forall|j: int| 0 <= j < o1.len() implies (#[trigger] o1[j]).vop == o2[j].vop by {
        assert(edge(gs1, v, j as usize) <==> edge(gs2, v, j as usize));
    }
    assert forall|a: usize, b: usize|
        (a as int) < o1.len() implies (#[trigger] edge(o1, a, b) <==> edge(o2, a, b)) by {
        lemma_asc_members_contains(gs1.len() as int, |y: usize| lc_edge(gs1, v, a, y), b);
        lemma_asc_members_contains(gs2.len() as int, |y: usize| lc_edge(gs2, v, a, y), b);
        assert(edge(gs1, a, b) <==> edge(gs2, a, b));
        assert(edge(gs1, v, a) <==> edge(gs2, v, a));
        assert(edge(gs1, v, b) <==> edge(gs2, v, b));
    }
}

/// The node a letter of the removal word complements at: the node whose
/// operator is being removed for U, the chosen pivot for V.
pub open spec fn word_target(u: crate::vop::DecompUnit, first: usize, pivot: usize) -> usize {
    match u {
        crate::vop::DecompUnit::U => first,
        crate::vop::DecompUnit::V => pivot,
    }
}

/// The state after the first `k` letters of the removal word `w`, each
/// letter complementing its target, starting from `g`.
pub open spec fn rv_prefix(
    g: Seq<NodeV>,
    w: Seq<crate::vop::DecompUnit>,
    k: int,
    first: usize,
    pivot: usize,
) -> Seq<NodeV>
    decreases k,
{
    if k <= 0 {
        g
    } else {
        lc_spec(rv_prefix(g, w, k - 1, first, pivot), word_target(w[k - 1], first, pivot))
    }
}

/// The state a vertex-operator removal at `first` leads to once the pivot
/// is fixed: the whole local-complementation word of the operator at
/// `first` is walked.
pub open spec fn rv_spec(g: Seq<NodeV>, first: usize, pivot: usize) -> Seq<NodeV> {
    let w = crate::vop_aux::decomp_spec(g[first as int].vop);
    rv_prefix(g, w, w.len() as int, first, pivot)
}

/// A legitimate pivot for a removal at `first` that must avoid `avoid`: a
/// neighbor other than `avoid` where one exists, `avoid` itself otherwise.
pub open spec fn valid_pivot(g: Seq<NodeV>, first: usize, avoid: usize, p: usize) -> bool {
    if has_other_neighbor(g, first, avoid) {
        g[first as int].adj.contains(p) && p != avoid && (p as int) < g.len()
    } else {
        p == avoid
    }
}

/// The removal prefix respects state sameness, letter by letter.
proof fn lemma_rv_prefix_congruence(
    gs1: Seq<NodeV>,
    gs2: Seq<NodeV>,
    w: Seq<crate::vop::DecompUnit>,
    k: int,
    first: usize,
    pivot: usize,
)
    requires
        same_state(gs1, gs2),
        (first as int) < gs1.len(),
        (pivot as int) < gs1.len(),
    ensures
        same_state(rv_prefix(gs1, w, k, first, pivot), rv_prefix(gs2, w, k, first, pivot)),
    decreases k,
{
    if k > 0 {
        lemma_rv_prefix_congruence(gs1, gs2, w, k - 1, first, pivot);
        lemma_rv_prefix_len(gs1, w, k - 1, first, pivot);
        lemma_lc_spec_congruence(
            rv_prefix(gs1, w, k - 1, first, pivot),
            rv_prefix(gs2, w, k - 1, first, pivot),
            word_target(w[k - 1], first, pivot),
        );
    }
}

/// Walking removal letters keeps the node count.
proof fn lemma_rv_prefix_len(
    g: Seq<NodeV>,
    w: Seq<crate::vop::DecompUnit>,
    k: int,
    first: usize,
    pivot: usize,
)
    ensures
        rv_prefix(g, w, k, first, pivot).len() == g.len(),
    decreases k,
{
    if k > 0 {
        lemma_rv_prefix_len(g, w, k - 1, first, pivot);
    }
}

/// A whole removal respects state sameness: the word itself only depends on
/// the operator at `first`, which the two states share.
proof fn lemma_rv_spec_congruence(gs1: Seq<NodeV>, gs2: Seq<NodeV>, first: usize, pivot: usize)
    requires
        same_state(gs1, gs2),
        (first as int) < gs1.len(),
        (pivot as int) < gs1.len(),
    ensures
        same_state(rv_spec(gs1, first, pivot), rv_spec(gs2, first, pivot)),
{
    assert(gs1[first as int].vop == gs2[first as int].vop);
    let w = crate::vop_aux::decomp_spec(gs1[first as int].vop);
    lemma_rv_prefix_congruence(gs1, gs2, w, w.len() as int, first, pivot);
}

/// Pivot legitimacy is a membership question, so it is shared by states
/// that carry the same information.
proof fn lemma_valid_pivot_same_state(
    gs1: Seq<NodeV>,
    gs2: Seq<NodeV>,
    first: usize,
    avoid: usize,
    p: usize,
)
    requires
        same_state(gs1, gs2),
        (first as int) < gs1.len(),
    ensures
        valid_pivot(gs1, first, avoid, p) == valid_pivot(gs2, first, avoid, p),
{
    assert(has_other_neighbor(gs1, first, avoid) == has_other_neighbor(gs2, first, avoid)) by {
        if has_other_neighbor(gs1, first, avoid) {
            let y = choose|y: usize| gs1[first as int].adj.contains(y) && y != avoid;
            assert(edge(gs1, first, y));
            assert(edge(gs2, first, y));
        }
        if has_other_neighbor(gs2, first, avoid) {
            let y = choose|y: usize| gs2[first as int].adj.contains(y) && y != avoid;
            assert(edge(gs2, first, y));
            assert(edge(gs1, first, y));
        }
    }
    if (p as int) < gs1.len() {
        assert(edge(gs1, first, p) <==> edge(gs2, first, p));
    }
}

/// The two qubits see nothing but each other: neither has a neighbor
/// besides its partner (the partner itself may or may not be a neighbor).
pub open spec fn lone_pair(g: Seq<NodeV>, c: usize, t: usize) -> bool {
    !has_other_neighbor(g, c, t) && !has_other_neighbor(g, t, c)
}

/// Whether two qubits form a lone pair depends on their neighbor lists
/// alone.
pub proof fn lemma_lone_pair_same_adj(g1: Seq<NodeV>, g2: Seq<NodeV>, c: usize, t: usize)
    requires
        g1[c as int].adj == g2[c as int].adj,
        g1[t as int].adj == g2[t as int].adj,
    ensures
        lone_pair(g1, c, t) == lone_pair(g2, c, t),
{
    assert(has_other_neighbor(g1, c, t) == has_other_neighbor(g2, c, t)) by {
        if has_other_neighbor(g1, c, t) {
            let y = choose|y: usize| g1[c as int].adj.contains(y) && y != t;
            assert(g2[c as int].adj.contains(y) && y != t);
        }
        if has_other_neighbor(g2, c, t) {
            let y = choose|y: usize| g2[c as int].adj.contains(y) && y != t;
            assert(g1[c as int].adj.contains(y) && y != t);
        }
    }
    assert(has_other_neighbor(g1, t, c) == has_other_neighbor(g2, t, c)) by {
        if has_other_neighbor(g1, t, c) {
            let y = choose|y: usize| g1[t as int].adj.contains(y) && y != c;
            assert(g2[t as int].adj.contains(y) && y != c);
        }
        if has_other_neighbor(g2, t, c) {
            let y = choose|y: usize| g2[t as int].adj.contains(y) && y != c;
            assert(g1[t as int].adj.contains(y) && y != c);
        }
    }
}

/// Carrying the same information is transitive.
proof fn lemma_same_state_trans(a: Seq<NodeV>, b: Seq<NodeV>, c: Seq<NodeV>)
    requires
        same_state(a, b),
        same_state(b, c),
    ensures
        same_state(a, c),
{
    assert forall|x: usize, y: usize| (x as int) < a.len() implies (#[trigger] edge(a, x, y) <==> edge(
        c,
        x,
        y,
    )) by {
        assert(edge(a, x, y) <==> edge(b, x, y));
        assert(edge(b, x, y) <==> edge(c, x, y));
    }
}

/// The state after the first removal pass of a CZ: the control's operator
/// is rewritten into the graph when it has a neighbor besides the target.
pub open spec fn cz_mid1(g: Seq<NodeV>, control: usize, target: usize, p1: usize) -> Seq<NodeV> {
    if has_other_neighbor(g, control, target) {
        rv_spec(g, control, p1)
    } else {
        g
    }
}

/// The state after the second removal pass of a CZ: the target's operator
/// is rewritten into the graph when, in the starting state, it had a
/// neighbor besides the control.
pub open spec fn cz_mid2(
    g: Seq<NodeV>,
    control: usize,
    target: usize,
    p1: usize,
    p2: usize,
) -> Seq<NodeV> {
    let g1 = cz_mid1(g, control, target, p1);
    if has_other_neighbor(g, target, control) {
        rv_spec(g1, target, p2)
    } else {
        g1
    }
}

/// Whether a CZ needs its third removal pass: the control had another
/// neighbor and the second pass pushed its operator back out of the
/// Z-commuting set.
pub open spec fn cz_needs_third(
    g: Seq<NodeV>,
    control: usize,
    target: usize,
    p1: usize,
    p2: usize,
) -> bool {
    has_other_neighbor(g, control, target) && !crate::vop::is_in_z_spec(
        cz_mid2(g, control, target, p1, p2)[control as int].vop,
    )
}

/// The membership test of one endpoint's row after a CZ write: the partner
/// according to the entry's flag, everything else as before.
pub open spec fn cz_row_pred(
    g: Seq<NodeV>,
    me: usize,
    partner: usize,
    flag: bool,
) -> spec_fn(usize) -> bool {
    |y: usize|
        if y == partner {
            flag
        } else {
            edge(g, me, y)
        }
}

/// Write a conjugation-table entry into the state: the edge between the
/// two endpoints is set to the entry's flag, both operators are
/// overwritten, and the two endpoint rows are put in ascending order.
pub open spec fn cz_write(
    g: Seq<NodeV>,
    control: usize,
    target: usize,
    entry: (bool, Vop, Vop),
) -> Seq<NodeV> {
    g.update(
        control as int,
        NodeV {
            adj: asc_members(g.len() as int, cz_row_pred(g, control, target, entry.0)),
            vop: entry.1,
        },
    ).update(
        target as int,
        NodeV {
            adj: asc_members(g.len() as int, cz_row_pred(g, target, control, entry.0)),
            vop: entry.2,
        },
    )
}

/// The tail of a CZ matches the canonical write: when the real state
/// `rfin` differs from `r3` only by the pair edge set to the entry's flag
/// and the two overwritten operators, and `r3` carries the same state as
/// `gs`, then `rfin` carries the same state as the canonical write into
/// `gs`.
#[verifier::rlimit(60)]
proof fn lemma_cz_write_matches(
    r3: Seq<NodeV>,
    rfin: Seq<NodeV>,
    gs: Seq<NodeV>,
    control: usize,
    target: usize,
    entry: (bool, Vop, Vop),
)
    requires
        wf(rfin),
        same_state(r3, gs),
        control != target,
        (control as int) < r3.len(),
        (target as int) < r3.len(),
        rfin.len() == r3.len(),
        rfin[control as int].vop == entry.1,
        rfin[target as int].vop == entry.2,
        forall|j: int|
            0 <= j < r3.len() && j != control as int && j != target as int ==> (#[trigger] rfin[j])
                == r3[j],
        edge(rfin, control, target) == entry.0,
        edge(rfin, target, control) == entry.0,
        forall|y: usize|
            y != target ==> (#[trigger] rfin[control as int].adj.contains(y)
                <==> r3[control as int].adj.contains(y)),
        forall|y: usize|
            y != control ==> (#[trigger] rfin[target as int].adj.contains(y)
                <==> r3[target as int].adj.contains(y)),
    ensures
        same_state(rfin, cz_write(gs, control, target, entry)),
{
    let n = r3.len() as int;
    let out = cz_write(gs, control, target, entry);
    assert(out.len() == n);
    assert forall|j: int| 0 <= j < n implies (#[trigger] rfin[j]).vop == out[j].vop by {
        if j != control as int && j != target as int {
            assert(out[j] == gs[j]);
            assert(rfin[j] == r3[j]);
        }
    }
    assert forall|a: usize, b: usize| (a as int) < n implies (#[trigger] edge(rfin, a, b)
        <==> edge(out, a, b)) by {
        assert(node_wf(rfin, a as int));
        if a == control {
            lemma_asc_members_contains(n, cz_row_pred(gs, control, target, entry.0), b);
            if (b as int) >= n {
                assert(!edge(rfin, a, b)) by {
                    if edge(rfin, a, b) {
                        assert(rfin[a as int].adj.contains(b));
                    }
                }
            } else if b == target {
                assert(edge(rfin, control, target) == entry.0);
                assert(edge(out, control, target) == entry.0);
            } else {
                assert(edge(rfin, control, b) <==> edge(r3, control, b));
                assert(edge(r3, control, b) <==> edge(gs, control, b));
                assert(edge(out, control, b) == edge(gs, control, b));
            }
        } else if a == target {
            lemma_asc_members_contains(n, cz_row_pred(gs, target, control, entry.0), b);
            if (b as int) >= n {
                assert(!edge(rfin, a, b)) by {
                    if edge(rfin, a, b) {
                        assert(rfin[a as int].adj.contains(b));
                    }
                }
            } else if b == control {
                assert(edge(rfin, target, control) == entry.0);
                assert(edge(out, target, control) == entry.0);
            } else {
                assert(edge(rfin, target, b) <==> edge(r3, target, b));
                assert(edge(r3, target, b) <==> edge(gs, target, b));
                assert(edge(out, target, b) == edge(gs, target, b));
            }
        } else {
            assert(rfin[a as int] == r3[a as int]);
            assert(out[a as int] == gs[a as int]);
            assert(edge(r3, a, b) <==> edge(gs, a, b));
        }
    }
}

/// The state a CZ leads to once its removal passes have chosen the pivots
/// p1, p2, p3: the removals run exactly as CZ orders them, and the
/// conjugation table entry for the rewritten pair is written in.
pub open spec fn cz_spec(
    g: Seq<NodeV>,
    control: usize,
    target: usize,
    p1: usize,
    p2: usize,
    p3: usize,
) -> Seq<NodeV> {
    let g2 = cz_mid2(g, control, target, p1, p2);
    let g3 = if cz_needs_third(g, control, target, p1, p2) {
        rv_spec(g2, control, p3)
    } else {
        g2
    };
    let entry = crate::cphase::cphase_spec(
        edge(g3, control, target),
        g3[control as int].vop,
        g3[target as int].vop,
    );
    cz_write(g3, control, target, entry)
}

/// The exact post-state of a CZ gate on a pair of qubits that see nothing
/// but each other: the conjugation table entry for the old edge flag and the
/// two old vertex operators decides the new edge and both new operators.
pub open spec fn cz_pair_result(g: Seq<NodeV>, c: usize, t: usize) -> Seq<NodeV> {
    let entry = crate::cphase::cphase_spec(edge(g, c, t), g[c as int].vop, g[t as int].vop);
    g.update(
        c as int,
        NodeV {
            adj: if entry.0 {
                seq![t]
            } else {
                Seq::empty()
            },
            vop: entry.1,
        },
    ).update(
        t as int,
        NodeV {
            adj: if entry.0 {
                seq![c]
            } else {
                Seq::empty()
            },
            vop: entry.2,
        },
    )
}

/// A duplicate-free sequence whose members are all `x`, with `x` among them,
/// is the singleton of `x`.
pub(crate) proof fn lemma_singleton_seq(s: Seq<usize>, x: usize)
    requires
        s.no_duplicates(),
        s.contains(x),
        forall|y: usize| #[trigger] s.contains(y) ==> y == x,
    ensures
        s =~= seq![x],
{
    assert(s.contains(s[0]));
    if s.len() > 1 {
        assert(s.contains(s[1]));
        assert(false);
    }
}

/// A sequence with no members is empty.
pub(crate) proof fn lemma_empty_seq(s: Seq<usize>)
    requires
        forall|y: usize| !(#[trigger] s.contains(y)),
    ensures
        s =~= Seq::<usize>::empty(),
{
    if s.len() > 0 {
        assert(s.contains(s[0]));
    }
}

impl GraphSim {
    /// Whether `a` has any neighbor besides `b`.
    fn other_neighbor(&self, a: usize, b: usize) -> (r: bool)
        requires
            wf(self@),
            (a as int) < self@.len(),
        ensures
            r == has_other_neighbor(self@, a, b),
    {
        let ghost adj = self@[a as int].adj;
        let alen = self.index(a).len();
        if alen > 1 {
            proof {
                assert(node_wf(self@, a as int));
                assert(adj[0] != adj[1]);
                assert(adj.contains(adj[0]));
                assert(adj.contains(adj[1]));
                if adj[0] != b {
                    assert(has_other_neighbor(self@, a, b));
                } else {
                    assert(has_other_neighbor(self@, a, b));
                }
            }
            true
        } else if alen == 1 {
            let y0 = self.index(a).neighbor(0);
            proof {
                assert(adj.contains(adj[0]));
                if y0 != b {
                    assert(has_other_neighbor(self@, a, b));
                } else {
                    if has_other_neighbor(self@, a, b) {
                        let y = choose|y: usize| adj.contains(y) && y != b;
                        let p = choose|p: int| 0 <= p < adj.len() && adj[p] == y;
                        assert(adj[0] == y);
                    }
                }
            }
            y0 != b
        } else {
            proof {
                if has_other_neighbor(self@, a, b) {
                    let y = choose|y: usize| adj.contains(y) && y != b;
                }
            }
            false
        }
    }

    /// Apply a controlled-Z gate between `control` and `target`. Both vertex
    /// operators are first rewritten into the graph where removal is needed,
    /// then the conjugation table fixes the edge and the two operators. When
    /// the two qubits see nothing but each other, CZ is exactly the
    /// table: the edge flag and both operators come from the entry for the
    /// old edge state and the old operators, and every other node is
    /// untouched.
    #[verifier::rlimit(80)]
    pub fn cz(&mut self, control: usize, target: usize)
        requires
            wf(old(self)@),
            (control as int) < old(self)@.len(),
            (target as int) < old(self)@.len(),
            control != target,
        ensures
            wf(final(self)@),
            final(self)@.len() == old(self)@.len(),
            lone_pair(old(self)@, control, target) ==> final(self)@ == cz_pair_result(
                old(self)@,
                control,
                target,
            ),
            exists|p1: usize, p2: usize, p3: usize|
                {
                    &&& valid_pivot(old(self)@, control, target, p1)
                    &&& has_other_neighbor(old(self)@, target, control) ==> valid_pivot(
                        cz_mid1(old(self)@, control, target, p1),
                        target,
                        control,
                        p2,
                    )
                    &&& cz_needs_third(old(self)@, control, target, p1, p2) ==> valid_pivot(
                        cz_mid2(old(self)@, control, target, p1, p2),
                        control,
                        target,
                        p3,
                    )
                    &&& same_state(
                        final(self)@,
                        #[trigger] cz_spec(old(self)@, control, target, p1, p2, p3),
                    )
                },
    {
        let ghost g0 = self@;
        let ghost n = g0.len();
        let c_has_t = self.other_neighbor(control, target);
        let t_has_c = self.other_neighbor(target, control);
        let ghost mut p1: usize = target;
        if c_has_t {
            self.remove_vop(control, target);
            proof {
                p1 = choose|p: usize|
                    #[trigger] valid_pivot(g0, control, target, p) && same_state(
                        self@,
                        rv_spec(g0, control, p),
                    );
            }
        }
        let ghost r1 = self@;
        let ghost gm1 = cz_mid1(g0, control, target, p1);
        proof {
            if !c_has_t {
                assert(same_state(r1, gm1));
            }
            assert(valid_pivot(g0, control, target, p1));
            assert(same_state(r1, gm1));
            assert(gm1.len() == n);
        }
        let ghost mut p2: usize = control;
        if t_has_c {
            self.remove_vop(target, control);
            proof {
                p2 = choose|p: usize|
                    #[trigger] valid_pivot(r1, target, control, p) && same_state(
                        self@,
                        rv_spec(r1, target, p),
                    );
            }
        }
        let ghost r2 = self@;
        let ghost gm2 = cz_mid2(g0, control, target, p1, p2);
        proof {
            if t_has_c {
                lemma_valid_pivot_same_state(r1, gm1, target, control, p2);
                assert((p2 as int) < n) by {
                    if has_other_neighbor(r1, target, control) {
                        assert(r1[target as int].adj.contains(p2));
                        assert(node_wf(r1, target as int));
                    }
                }
                lemma_rv_spec_congruence(r1, gm1, target, p2);
                lemma_same_state_trans(r2, rv_spec(r1, target, p2), rv_spec(gm1, target, p2));
                assert(gm2 == rv_spec(gm1, target, p2));
            } else {
                assert(gm2 == gm1);
            }
            assert(same_state(r2, gm2));
            assert(gm2.len() == n);
        }
        let ghost mut p3: usize = target;
        let needs3 = c_has_t && !self.index(control).vop().is_in_z();
        proof {
            assert(self@[control as int].vop == gm2[control as int].vop);
            assert(needs3 == cz_needs_third(g0, control, target, p1, p2));
        }
        if needs3 {
            self.remove_vop(control, target);
            proof {
                p3 = choose|p: usize|
                    #[trigger] valid_pivot(r2, control, target, p) && same_state(
                        self@,
                        rv_spec(r2, control, p),
                    );
                lemma_valid_pivot_same_state(r2, gm2, control, target, p3);
                assert((p3 as int) < n) by {
                    if has_other_neighbor(r2, control, target) {
                        assert(r2[control as int].adj.contains(p3));
                        assert(node_wf(r2, control as int));
                    }
                }
                lemma_rv_spec_congruence(r2, gm2, control, p3);
                lemma_same_state_trans(self@, rv_spec(r2, control, p3), rv_spec(gm2, control, p3));
            }
        }
        let ghost r3 = self@;
        let ghost gm3 = if cz_needs_third(g0, control, target, p1, p2) {
            rv_spec(gm2, control, p3)
        } else {
            gm2
        };
        proof {
            assert(same_state(r3, gm3));
            assert(gm3.len() == n);
        }
        let cv = self.index(control).vop();
        let tv = self.index(target).vop();
        let had = self.index(control).is_adjacent(target);
        proof {
            assert(cv == gm3[control as int].vop);
            assert(tv == gm3[target as int].vop);
            assert(had == edge(gm3, control, target)) by {
                assert(edge(r3, control, target) <==> edge(gm3, control, target));
            }
        }
        let val = crate::cphase::cphase_lookup(had, cv, tv);
        if val.0 != had {
            self.toggle_edge(control, target);
        }
        let ghost g2 = self@;
        self.index_mut(control).vop_set(val.1);
        let ghost g3 = self@;
        self.index_mut(target).vop_set(val.2);
        proof {
            assert(self@ =~= g3.update(
                target as int,
                NodeV { adj: g3[target as int].adj, vop: val.2 },
            ));
            assert(g3 =~= g2.update(
                control as int,
                NodeV { adj: g2[control as int].adj, vop: val.1 },
            ));
            lemma_wf_same_adjacency(g2, self@);
            assert(self@[control as int].adj == g2[control as int].adj);
            assert(self@[target as int].adj == g2[target as int].adj);
            assert(edge(self@, control, target) == val.0);
            assert(edge(self@, target, control) == val.0);
            assert forall|j: int|
                0 <= j < n && j != control as int && j != target as int implies (
            #[trigger] self@[j]) == r3[j] by {
                assert(g2[j] == r3[j]);
            }
            assert forall|y: usize|
                y != target implies (#[trigger] self@[control as int].adj.contains(y)
                <==> r3[control as int].adj.contains(y)) by {
                assert(g2[control as int].adj.contains(y) <==> r3[control as int].adj.contains(
                    y,
                ));
            }
            assert forall|y: usize|
                y != control implies (#[trigger] self@[target as int].adj.contains(y)
                <==> r3[target as int].adj.contains(y)) by {
                assert(g2[target as int].adj.contains(y) <==> r3[target as int].adj.contains(y));
            }
            lemma_cz_write_matches(r3, self@, gm3, control, target, val);
            assert(cz_spec(g0, control, target, p1, p2, p3) == cz_write(gm3, control, target, val));
            assert(exists|q1: usize, q2: usize, q3: usize|
                {
                    &&& valid_pivot(g0, control, target, q1)
                    &&& has_other_neighbor(g0, target, control) ==> valid_pivot(
                        cz_mid1(g0, control, target, q1),
                        target,
                        control,
                        q2,
                    )
                    &&& cz_needs_third(g0, control, target, q1, q2) ==> valid_pivot(
                        cz_mid2(g0, control, target, q1, q2),
                        control,
                        target,
                        q3,
                    )
                    &&& same_state(self@, #[trigger] cz_spec(g0, control, target, q1, q2, q3))
                }) by {
                assert(valid_pivot(g0, control, target, p1) && (has_other_neighbor(
                    g0,
                    target,
                    control,
                ) ==> valid_pivot(cz_mid1(g0, control, target, p1), target, control, p2)) && (
                cz_needs_third(g0, control, target, p1, p2) ==> valid_pivot(
                    cz_mid2(g0, control, target, p1, p2),
                    control,
                    target,
                    p3,
                )) && same_state(self@, cz_spec(g0, control, target, p1, p2, p3)));
            }
            if lone_pair(g0, control, target) {
                assert(r3 == g0);
                assert(node_wf(g0, control as int));
                assert(node_wf(g0, target as int));
                assert forall|y: usize| #[trigger]
                    g0[control as int].adj.contains(y) implies y == target by {}
                assert forall|y: usize|
                    #[trigger] self@[control as int].adj.contains(y) implies (y == target
                    && val.0) by {}
                assert forall|y: usize|
                    #[trigger] self@[target as int].adj.contains(y) implies (y == control
                    && val.0) by {}
                assert(self@[control as int].adj.no_duplicates()) by {
                    assert(node_wf(self@, control as int));
                }
                assert(self@[target as int].adj.no_duplicates()) by {
                    assert(node_wf(self@, target as int));
                }
                if val.0 {
                    assert(edge(self@, control, target));
                    assert(edge(self@, target, control));
                    lemma_singleton_seq(self@[control as int].adj, target);
                    lemma_singleton_seq(self@[target as int].adj, control);
                } else {
                    lemma_empty_seq(self@[control as int].adj);
                    lemma_empty_seq(self@[target as int].adj);
                }
                assert(self@ =~~= cz_pair_result(g0, control, target));
            }
        }
    }
}

/// A single-qubit gate respects state sameness: it only multiplies one
/// operator and reads nothing else.
proof fn lemma_apply_gate_same_state(g1: Seq<NodeV>, g2: Seq<NodeV>, q: usize, u: Vop)
    requires
        same_state(g1, g2),
        (q as int) < g1.len(),
    ensures
        same_state(apply_gate(g1, q, u), apply_gate(g2, q, u)),
{
    let o1 = apply_gate(g1, q, u);
    let o2 = apply_gate(g2, q, u);
    assert forall|j: int| 0 <= j < o1.len() implies (#[trigger] o1[j]).vop == o2[j].vop by {}
    assert forall|a: usize, b: usize| (a as int) < o1.len() implies (#[trigger] edge(o1, a, b)
        <==> edge(o2, a, b)) by {
        assert(o1[a as int].adj == g1[a as int].adj);
        assert(o2[a as int].adj == g2[a as int].adj);
        assert(edge(g1, a, b) <==> edge(g2, a, b));
    }
}

/// The exact post-state of a CX on a lone pair: its decomposition H on the
/// target, CZ, H on the target again, each step taken at the spec level.
pub open spec fn cx_pair_result(g: Seq<NodeV>, c: usize, t: usize) -> Seq<NodeV> {
    apply_gate(cz_pair_result(apply_gate(g, t, H_GATE), c, t), t, H_GATE)
}

/// The state a CX leads to for given removal pivots: the H-CZ-H
/// decomposition taken at the spec level, with the CZ transition of
/// `cz_spec` in the middle.
pub open spec fn cx_spec(
    g: Seq<NodeV>,
    control: usize,
    target: usize,
    p1: usize,
    p2: usize,
    p3: usize,
) -> Seq<NodeV> {
    apply_gate(
        cz_spec(apply_gate(g, target, H_GATE), control, target, p1, p2, p3),
        target,
        H_GATE,
    )
}

/// The exact post-state of a CY on a lone pair: S-dagger and S on the
/// target around a CX.
pub open spec fn cy_pair_result(g: Seq<NodeV>, c: usize, t: usize) -> Seq<NodeV> {
    apply_gate(cx_pair_result(apply_gate(g, t, SDAG_GATE), c, t), t, S_GATE)
}

/// The state a CY leads to for given removal pivots: S-dagger and S on the
/// target around the CX transition.
pub open spec fn cy_spec(
    g: Seq<NodeV>,
    control: usize,
    target: usize,
    p1: usize,
    p2: usize,
    p3: usize,
) -> Seq<NodeV> {
    apply_gate(
        cx_spec(apply_gate(g, target, SDAG_GATE), control, target, p1, p2, p3),
        target,
        S_GATE,
    )
}

/// The exact post-state of an XCX on a lone pair: H on the control around a
/// CX.
pub open spec fn xcx_pair_result(g: Seq<NodeV>, c: usize, t: usize) -> Seq<NodeV> {
    apply_gate(cx_pair_result(apply_gate(g, c, H_GATE), c, t), c, H_GATE)
}

/// The state an XCX leads to for given removal pivots: H on the control
/// around the CX transition.
pub open spec fn xcx_spec(
    g: Seq<NodeV>,
    control: usize,
    target: usize,
    p1: usize,
    p2: usize,
    p3: usize,
) -> Seq<NodeV> {
    apply_gate(
        cx_spec(apply_gate(g, control, H_GATE), control, target, p1, p2, p3),
        control,
        H_GATE,
    )
}

/// The exact post-state of a YCX on a lone pair: S-dagger and S on the
/// control around an XCX.
pub open spec fn ycx_pair_result(g: Seq<NodeV>, c: usize, t: usize) -> Seq<NodeV> {
    apply_gate(xcx_pair_result(apply_gate(g, c, SDAG_GATE), c, t), c, S_GATE)
}

/// The state a YCX leads to for given removal pivots: S-dagger and S on the
/// control around the XCX transition.
pub open spec fn ycx_spec(
    g: Seq<NodeV>,
    control: usize,
    target: usize,
    p1: usize,
    p2: usize,
    p3: usize,
) -> Seq<NodeV> {
    apply_gate(
        xcx_spec(apply_gate(g, control, SDAG_GATE), control, target, p1, p2, p3),
        control,
        S_GATE,
    )
}

/// The exact post-state of a YCY on a lone pair: S-dagger and S on the
/// target around a YCX.
pub open spec fn ycy_pair_result(g: Seq<NodeV>, c: usize, t: usize) -> Seq<NodeV> {
    apply_gate(ycx_pair_result(apply_gate(g, t, SDAG_GATE), c, t), t, S_GATE)
}

/// The state a YCY leads to for given removal pivots: S-dagger and S on the
/// target around the YCX transition.
pub open spec fn ycy_spec(
    g: Seq<NodeV>,
    control: usize,
    target: usize,
    p1: usize,
    p2: usize,
    p3: usize,
) -> Seq<NodeV> {
    apply_gate(
        ycx_spec(apply_gate(g, target, SDAG_GATE), control, target, p1, p2, p3),
        target,
        S_GATE,
    )
}

impl GraphSim {
    /// Apply a controlled-X (CNOT) gate: H on the target around a CZ. On a
    /// lone pair the post-state is exactly that composition of the
    /// conjugation table and the two Hadamards.
    pub fn cx(&mut self, control: usize, target: usize)
        requires
            wf(old(self)@),
            (control as int) < old(self)@.len(),
            (target as int) < old(self)@.len(),
            control != target,
        ensures
            wf(final(self)@),
            final(self)@.len() == old(self)@.len(),
            lone_pair(old(self)@, control, target) ==> final(self)@ == cx_pair_result(
                old(self)@,
                control,
                target,
            ),
            exists|p1: usize, p2: usize, p3: usize|
                {
                    let gh = apply_gate(old(self)@, target, H_GATE);
                    &&& valid_pivot(gh, control, target, p1)
                    &&& has_other_neighbor(gh, target, control) ==> valid_pivot(
                        cz_mid1(gh, control, target, p1),
                        target,
                        control,
                        p2,
                    )
                    &&& cz_needs_third(gh, control, target, p1, p2) ==> valid_pivot(
                        cz_mid2(gh, control, target, p1, p2),
                        control,
                        target,
                        p3,
                    )
                    &&& same_state(
                        final(self)@,
                        #[trigger] cx_spec(old(self)@, control, target, p1, p2, p3),
                    )
                },
    {
        let ghost g0 = self@;
        let ghost gh = apply_gate(g0, target, H_GATE);
        self.h(target);
        proof {
            lemma_lone_pair_same_adj(g0, self@, control, target);
        }
        self.cz(control, target);
        let ghost rcz = self@;
        let ghost (p1, p2, p3) = choose|p1: usize, p2: usize, p3: usize|
            {
                &&& valid_pivot(gh, control, target, p1)
                &&& has_other_neighbor(gh, target, control) ==> valid_pivot(
                    cz_mid1(gh, control, target, p1),
                    target,
                    control,
                    p2,
                )
                &&& cz_needs_third(gh, control, target, p1, p2) ==> valid_pivot(
                    cz_mid2(gh, control, target, p1, p2),
                    control,
                    target,
                    p3,
                )
                &&& same_state(rcz, #[trigger] cz_spec(gh, control, target, p1, p2, p3))
            };
        self.h(target);
        proof {
            assert(same_state(rcz, cz_spec(gh, control, target, p1, p2, p3)));
            lemma_apply_gate_same_state(
                rcz,
                cz_spec(gh, control, target, p1, p2, p3),
                target,
                H_GATE,
            );
            assert(same_state(self@, cx_spec(g0, control, target, p1, p2, p3)));
            assert(exists|q1: usize, q2: usize, q3: usize|
                {
                    &&& valid_pivot(gh, control, target, q1)
                    &&& has_other_neighbor(gh, target, control) ==> valid_pivot(
                        cz_mid1(gh, control, target, q1),
                        target,
                        control,
                        q2,
                    )
                    &&& cz_needs_third(gh, control, target, q1, q2) ==> valid_pivot(
                        cz_mid2(gh, control, target, q1, q2),
                        control,
                        target,
                        q3,
                    )
                    &&& same_state(self@, #[trigger] cx_spec(g0, control, target, q1, q2, q3))
                }) by {
                assert(valid_pivot(gh, control, target, p1) && (has_other_neighbor(
                    gh,
                    target,
                    control,
                ) ==> valid_pivot(cz_mid1(gh, control, target, p1), target, control, p2)) && (
                cz_needs_third(gh, control, target, p1, p2) ==> valid_pivot(
                    cz_mid2(gh, control, target, p1, p2),
                    control,
                    target,
                    p3,
                )) && same_state(self@, cx_spec(g0, control, target, p1, p2, p3)));
            }
        }
    }

    /// Apply a controlled-Y gate: S-dagger and S on the target around a CX.
    /// On a lone pair the post-state is exactly that composition.
    pub fn cy(&mut self, control: usize, target: usize)
        requires
            wf(old(self)@),
            (control as int) < old(self)@.len(),
            (target as int) < old(self)@.len(),
            control != target,
        ensures
            wf(final(self)@),
            final(self)@.len() == old(self)@.len(),
            lone_pair(old(self)@, control, target) ==> final(self)@ == cy_pair_result(
                old(self)@,
                control,
                target,
            ),
            exists|p1: usize, p2: usize, p3: usize|
                {
                    let gh = apply_gate(
                        apply_gate(old(self)@, target, SDAG_GATE),
                        target,
                        H_GATE,
                    );
                    &&& valid_pivot(gh, control, target, p1)
                    &&& has_other_neighbor(gh, target, control) ==> valid_pivot(
                        cz_mid1(gh, control, target, p1),
                        target,
                        control,
                        p2,
                    )
                    &&& cz_needs_third(gh, control, target, p1, p2) ==> valid_pivot(
                        cz_mid2(gh, control, target, p1, p2),
                        control,
                        target,
                        p3,
                    )
                    &&& same_state(
                        final(self)@,
                        #[trigger] cy_spec(old(self)@, control, target, p1, p2, p3),
                    )
                },
    {
        let ghost g0 = self@;
        let ghost gsd = apply_gate(g0, target, SDAG_GATE);
        let ghost gh = apply_gate(gsd, target, H_GATE);
        self.sdag(target);
        proof {
            lemma_lone_pair_same_adj(g0, self@, control, target);
        }
        self.cx(control, target);
        let ghost rcx = self@;
        let ghost (p1, p2, p3) = choose|p1: usize, p2: usize, p3: usize|
            {
                &&& valid_pivot(gh, control, target, p1)
                &&& has_other_neighbor(gh, target, control) ==> valid_pivot(
                    cz_mid1(gh, control, target, p1),
                    target,
                    control,
                    p2,
                )
                &&& cz_needs_third(gh, control, target, p1, p2) ==> valid_pivot(
                    cz_mid2(gh, control, target, p1, p2),
                    control,
                    target,
                    p3,
                )
                &&& same_state(rcx, #[trigger] cx_spec(gsd, control, target, p1, p2, p3))
            };
        self.s(target);
        proof {
            lemma_apply_gate_same_state(
                rcx,
                cx_spec(gsd, control, target, p1, p2, p3),
                target,
                S_GATE,
            );
            assert(same_state(self@, cy_spec(g0, control, target, p1, p2, p3)));
            assert(exists|q1: usize, q2: usize, q3: usize|
                {
                    &&& valid_pivot(gh, control, target, q1)
                    &&& has_other_neighbor(gh, target, control) ==> valid_pivot(
                        cz_mid1(gh, control, target, q1),
                        target,
                        control,
                        q2,
                    )
                    &&& cz_needs_third(gh, control, target, q1, q2) ==> valid_pivot(
                        cz_mid2(gh, control, target, q1, q2),
                        control,
                        target,
                        q3,
                    )
                    &&& same_state(self@, #[trigger] cy_spec(g0, control, target, q1, q2, q3))
                }) by {
                assert(valid_pivot(gh, control, target, p1) && (has_other_neighbor(
                    gh,
                    target,
                    control,
                ) ==> valid_pivot(cz_mid1(gh, control, target, p1), target, control, p2)) && (
                cz_needs_third(gh, control, target, p1, p2) ==> valid_pivot(
                    cz_mid2(gh, control, target, p1, p2),
                    control,
                    target,
                    p3,
                )) && same_state(self@, cy_spec(g0, control, target, p1, p2, p3)));
            }
        }
    }

    /// Apply an X-controlled X gate: H on the control around a CX. On a
    /// lone pair the post-state is exactly that composition.
    pub fn xcx(&mut self, control: usize, target: usize)
        requires
            wf(old(self)@),
            (control as int) < old(self)@.len(),
            (target as int) < old(self)@.len(),
            control != target,
        ensures
            wf(final(self)@),
            final(self)@.len() == old(self)@.len(),
            lone_pair(old(self)@, control, target) ==> final(self)@ == xcx_pair_result(
                old(self)@,
                control,
                target,
            ),
            exists|p1: usize, p2: usize, p3: usize|
                {
                    let gh = apply_gate(
                        apply_gate(old(self)@, control, H_GATE),
                        target,
                        H_GATE,
                    );
                    &&& valid_pivot(gh, control, target, p1)
                    &&& has_other_neighbor(gh, target, control) ==> valid_pivot(
                        cz_mid1(gh, control, target, p1),
                        target,
                        control,
                        p2,
                    )
                    &&& cz_needs_third(gh, control, target, p1, p2) ==> valid_pivot(
                        cz_mid2(gh, control, target, p1, p2),
                        control,
                        target,
                        p3,
                    )
                    &&& same_state(
                        final(self)@,
                        #[trigger] xcx_spec(old(self)@, control, target, p1, p2, p3),
                    )
                },
    {
        let ghost g0 = self@;
        let ghost gpre = apply_gate(g0, control, H_GATE);
        let ghost gh = apply_gate(gpre, target, H_GATE);
        self.h(control);
        proof {
            lemma_lone_pair_same_adj(g0, self@, control, target);
        }
        self.cx(control, target);
        let ghost rin = self@;
        let ghost (p1, p2, p3) = choose|p1: usize, p2: usize, p3: usize|
            {
                &&& valid_pivot(gh, control, target, p1)
                &&& has_other_neighbor(gh, target, control) ==> valid_pivot(
                    cz_mid1(gh, control, target, p1),
                    target,
                    control,
                    p2,
                )
                &&& cz_needs_third(gh, control, target, p1, p2) ==> valid_pivot(
                    cz_mid2(gh, control, target, p1, p2),
                    control,
                    target,
                    p3,
                )
                &&& same_state(rin, #[trigger] cx_spec(gpre, control, target, p1, p2, p3))
            };
        self.h(control);
        proof {
            lemma_apply_gate_same_state(
                rin,
                cx_spec(gpre, control, target, p1, p2, p3),
                control,
                H_GATE,
            );
            assert(same_state(self@, xcx_spec(g0, control, target, p1, p2, p3)));
            assert(exists|q1: usize, q2: usize, q3: usize|
                {
                    &&& valid_pivot(gh, control, target, q1)
                    &&& has_other_neighbor(gh, target, control) ==> valid_pivot(
                        cz_mid1(gh, control, target, q1),
                        target,
                        control,
                        q2,
                    )
                    &&& cz_needs_third(gh, control, target, q1, q2) ==> valid_pivot(
                        cz_mid2(gh, control, target, q1, q2),
                        control,
                        target,
                        q3,
                    )
                    &&& same_state(self@, #[trigger] xcx_spec(g0, control, target, q1, q2, q3))
                }) by {
                assert({
                    &&& valid_pivot(gh, control, target, p1)
                    &&& has_other_neighbor(gh, target, control) ==> valid_pivot(
                        cz_mid1(gh, control, target, p1),
                        target,
                        control,
                        p2,
                    )
                    &&& cz_needs_third(gh, control, target, p1, p2) ==> valid_pivot(
                        cz_mid2(gh, control, target, p1, p2),
                        control,
                        target,
                        p3,
                    )
                    &&& same_state(self@, xcx_spec(g0, control, target, p1, p2, p3))
                });
            }
        }
    }

    /// Apply a Y-controlled X gate: S-dagger and S on the control around an
    /// XCX. On a lone pair the post-state is exactly that composition.
    pub fn ycx(&mut self, control: usize, target: usize)
        requires
            wf(old(self)@),
            (control as int) < old(self)@.len(),
            (target as int) < old(self)@.len(),
            control != target,
        ensures
            wf(final(self)@),
            final(self)@.len() == old(self)@.len(),
            lone_pair(old(self)@, control, target) ==> final(self)@ == ycx_pair_result(
                old(self)@,
                control,
                target,
            ),
            exists|p1: usize, p2: usize, p3: usize|
                {
                    let gh = apply_gate(
                        apply_gate(
                            apply_gate(old(self)@, control, SDAG_GATE),
                            control,
                            H_GATE,
                        ),
                        target,
                        H_GATE,
                    );
                    &&& valid_pivot(gh, control, target, p1)
                    &&& has_other_neighbor(gh, target, control) ==> valid_pivot(
                        cz_mid1(gh, control, target, p1),
                        target,
                        control,
                        p2,
                    )
                    &&& cz_needs_third(gh, control, target, p1, p2) ==> valid_pivot(
                        cz_mid2(gh, control, target, p1, p2),
                        control,
                        target,
                        p3,
                    )
                    &&& same_state(
                        final(self)@,
                        #[trigger] ycx_spec(old(self)@, control, target, p1, p2, p3),
                    )
                },
    {
        let ghost g0 = self@;
        let ghost gpre = apply_gate(g0, control, SDAG_GATE);
        let ghost gh = apply_gate(apply_gate(gpre, control, H_GATE), target, H_GATE);
        self.sdag(control);
        proof {
            lemma_lone_pair_same_adj(g0, self@, control, target);
        }
        self.xcx(control, target);
        let ghost rin = self@;
        let ghost (p1, p2, p3) = choose|p1: usize, p2: usize, p3: usize|
            {
                &&& valid_pivot(gh, control, target, p1)
                &&& has_other_neighbor(gh, target, control) ==> valid_pivot(
                    cz_mid1(gh, control, target, p1),
                    target,
                    control,
                    p2,
                )
                &&& cz_needs_third(gh, control, target, p1, p2) ==> valid_pivot(
                    cz_mid2(gh, control, target, p1, p2),
                    control,
                    target,
                    p3,
                )
                &&& same_state(rin, #[trigger] xcx_spec(gpre, control, target, p1, p2, p3))
            };
        self.s(control);
        proof {
            lemma_apply_gate_same_state(
                rin,
                xcx_spec(gpre, control, target, p1, p2, p3),
                control,
                S_GATE,
            );
            assert(same_state(self@, ycx_spec(g0, control, target, p1, p2, p3)));
            assert(exists|q1: usize, q2: usize, q3: usize|
                {
                    &&& valid_pivot(gh, control, target, q1)
                    &&& has_other_neighbor(gh, target, control) ==> valid_pivot(
                        cz_mid1(gh, control, target, q1),
                        target,
                        control,
                        q2,
                    )
                    &&& cz_needs_third(gh, control, target, q1, q2) ==> valid_pivot(
                        cz_mid2(gh, control, target, q1, q2),
                        control,
                        target,
                        q3,
                    )
                    &&& same_state(self@, #[trigger] ycx_spec(g0, control, target, q1, q2, q3))
                }) by {
                assert({
                    &&& valid_pivot(gh, control, target, p1)
                    &&& has_other_neighbor(gh, target, control) ==> valid_pivot(
                        cz_mid1(gh, control, target, p1),
                        target,
                        control,
                        p2,
                    )
                    &&& cz_needs_third(gh, control, target, p1, p2) ==> valid_pivot(
                        cz_mid2(gh, control, target, p1, p2),
                        control,
                        target,
                        p3,
                    )
                    &&& same_state(self@, ycx_spec(g0, control, target, p1, p2, p3))
                });
            }
        }
    }

    /// Apply an X-controlled Z gate: a CX with the roles swapped.
    pub fn xcz(&mut self, control: usize, target: usize)
        requires
            wf(old(self)@),
            (control as int) < old(self)@.len(),
            (target as int) < old(self)@.len(),
            control != target,
        ensures
            wf(final(self)@),
            final(self)@.len() == old(self)@.len(),
            lone_pair(old(self)@, control, target) ==> final(self)@ == cx_pair_result(
                old(self)@,
                target,
                control,
            ),
            exists|p1: usize, p2: usize, p3: usize|
                {
                    let gh = apply_gate(old(self)@, control, H_GATE);
                    &&& valid_pivot(gh, target, control, p1)
                    &&& has_other_neighbor(gh, control, target) ==> valid_pivot(
                        cz_mid1(gh, target, control, p1),
                        control,
                        target,
                        p2,
                    )
                    &&& cz_needs_third(gh, target, control, p1, p2) ==> valid_pivot(
                        cz_mid2(gh, target, control, p1, p2),
                        target,
                        control,
                        p3,
                    )
                    &&& same_state(
                        final(self)@,
                        #[trigger] cx_spec(old(self)@, target, control, p1, p2, p3),
                    )
                },
    {
        self.cx(target, control);
    }

    /// Apply a Y-controlled Z gate: a CY with the roles swapped.
    pub fn ycz(&mut self, control: usize, target: usize)
        requires
            wf(old(self)@),
            (control as int) < old(self)@.len(),
            (target as int) < old(self)@.len(),
            control != target,
        ensures
            wf(final(self)@),
            final(self)@.len() == old(self)@.len(),
            lone_pair(old(self)@, control, target) ==> final(self)@ == cy_pair_result(
                old(self)@,
                target,
                control,
            ),
            exists|p1: usize, p2: usize, p3: usize|
                {
                    let gh = apply_gate(
                        apply_gate(old(self)@, control, SDAG_GATE),
                        control,
                        H_GATE,
                    );
                    &&& valid_pivot(gh, target, control, p1)
                    &&& has_other_neighbor(gh, control, target) ==> valid_pivot(
                        cz_mid1(gh, target, control, p1),
                        control,
                        target,
                        p2,
                    )
                    &&& cz_needs_third(gh, target, control, p1, p2) ==> valid_pivot(
                        cz_mid2(gh, target, control, p1, p2),
                        target,
                        control,
                        p3,
                    )
                    &&& same_state(
                        final(self)@,
                        #[trigger] cy_spec(old(self)@, target, control, p1, p2, p3),
                    )
                },
    {
        self.cy(target, control);
    }

    /// Apply an X-controlled Y gate: a YCX with the roles swapped.
    pub fn xcy(&mut self, control: usize, target: usize)
        requires
            wf(old(self)@),
            (control as int) < old(self)@.len(),
            (target as int) < old(self)@.len(),
            control != target,
        ensures
            wf(final(self)@),
            final(self)@.len() == old(self)@.len(),
            lone_pair(old(self)@, control, target) ==> final(self)@ == ycx_pair_result(
                old(self)@,
                target,
                control,
            ),
            exists|p1: usize, p2: usize, p3: usize|
                {
                    let gh = apply_gate(
                        apply_gate(
                            apply_gate(old(self)@, target, SDAG_GATE),
                            target,
                            H_GATE,
                        ),
                        control,
                        H_GATE,
                    );
                    &&& valid_pivot(gh, target, control, p1)
                    &&& has_other_neighbor(gh, control, target) ==> valid_pivot(
                        cz_mid1(gh, target, control, p1),
                        control,
                        target,
                        p2,
                    )
                    &&& cz_needs_third(gh, target, control, p1, p2) ==> valid_pivot(
                        cz_mid2(gh, target, control, p1, p2),
                        target,
                        control,
                        p3,
                    )
                    &&& same_state(
                        final(self)@,
                        #[trigger] ycx_spec(old(self)@, target, control, p1, p2, p3),
                    )
                },
    {
        self.ycx(target, control);
    }

    /// Apply a Y-controlled Y gate: S-dagger and S on the target around a
    /// YCX. On a lone pair the post-state is exactly that composition.
    pub fn ycy(&mut self, control: usize, target: usize)
        requires
            wf(old(self)@),
            (control as int) < old(self)@.len(),
            (target as int) < old(self)@.len(),
            control != target,
        ensures
            wf(final(self)@),
            final(self)@.len() == old(self)@.len(),
            lone_pair(old(self)@, control, target) ==> final(self)@ == ycy_pair_result(
                old(self)@,
                control,
                target,
            ),
            exists|p1: usize, p2: usize, p3: usize|
                {
                    let gh = apply_gate(
                        apply_gate(
                            apply_gate(
                                apply_gate(old(self)@, target, SDAG_GATE),
                                control,
                                SDAG_GATE,
                            ),
                            control,
                            H_GATE,
                        ),
                        target,
                        H_GATE,
                    );
                    &&& valid_pivot(gh, control, target, p1)
                    &&& has_other_neighbor(gh, target, control) ==> valid_pivot(
                        cz_mid1(gh, control, target, p1),
                        target,
                        control,
                        p2,
                    )
                    &&& cz_needs_third(gh, control, target, p1, p2) ==> valid_pivot(
                        cz_mid2(gh, control, target, p1, p2),
                        control,
                        target,
                        p3,
                    )
                    &&& same_state(
                        final(self)@,
                        #[trigger] ycy_spec(old(self)@, control, target, p1, p2, p3),
                    )
                },
    {
        let ghost g0 = self@;
        let ghost gpre = apply_gate(g0, target, SDAG_GATE);
        let ghost gh = apply_gate(
            apply_gate(apply_gate(gpre, control, SDAG_GATE), control, H_GATE),
            target,
            H_GATE,
        );
        self.sdag(target);
        proof {
            lemma_lone_pair_same_adj(g0, self@, control, target);
        }
        self.ycx(control, target);
        let ghost rin = self@;
        let ghost (p1, p2, p3) = choose|p1: usize, p2: usize, p3: usize|
            {
                &&& valid_pivot(gh, control, target, p1)
                &&& has_other_neighbor(gh, target, control) ==> valid_pivot(
                    cz_mid1(gh, control, target, p1),
                    target,
                    control,
                    p2,
                )
                &&& cz_needs_third(gh, control, target, p1, p2) ==> valid_pivot(
                    cz_mid2(gh, control, target, p1, p2),
                    control,
                    target,
                    p3,
                )
                &&& same_state(rin, #[trigger] ycx_spec(gpre, control, target, p1, p2, p3))
            };
        self.s(target);
        proof {
            lemma_apply_gate_same_state(
                rin,
                ycx_spec(gpre, control, target, p1, p2, p3),
                target,
                S_GATE,
            );
            assert(same_state(self@, ycy_spec(g0, control, target, p1, p2, p3)));
            assert(exists|q1: usize, q2: usize, q3: usize|
                {
                    &&& valid_pivot(gh, control, target, q1)
                    &&& has_other_neighbor(gh, target, control) ==> valid_pivot(
                        cz_mid1(gh, control, target, q1),
                        target,
                        control,
                        q2,
                    )
                    &&& cz_needs_third(gh, control, target, q1, q2) ==> valid_pivot(
                        cz_mid2(gh, control, target, q1, q2),
                        control,
                        target,
                        q3,
                    )
                    &&& same_state(self@, #[trigger] ycy_spec(g0, control, target, q1, q2, q3))
                }) by {
                assert({
                    &&& valid_pivot(gh, control, target, p1)
                    &&& has_other_neighbor(gh, target, control) ==> valid_pivot(
                        cz_mid1(gh, control, target, p1),
                        target,
                        control,
                        p2,
                    )
                    &&& cz_needs_third(gh, control, target, p1, p2) ==> valid_pivot(
                        cz_mid2(gh, control, target, p1, p2),
                        control,
                        target,
                        p3,
                    )
                    &&& same_state(self@, ycy_spec(g0, control, target, p1, p2, p3))
                });
            }
        }
    }
}

/// CZ does not care which endpoint is named first: on a pair of qubits that
/// see nothing but each other and carry Z-commuting vertex operators, the
/// gate produces exactly the same post-state both ways round.
pub proof fn lemma_cz_pair_symmetric(g: Seq<NodeV>, c: usize, t: usize)
    requires
        wf(g),
        (c as int) < g.len(),
        (t as int) < g.len(),
        c != t,
        forall|y: usize| #[trigger] g[c as int].adj.contains(y) ==> y == t,
        forall|y: usize| #[trigger] g[t as int].adj.contains(y) ==> y == c,
        crate::vop::is_in_z_spec(g[c as int].vop),
        crate::vop::is_in_z_spec(g[t as int].vop),
    ensures
        cz_pair_result(g, c, t) == cz_pair_result(g, t, c),
{
    assert(edge(g, c, t) == edge(g, t, c));
    crate::cphase::lemma_cphase_swap(edge(g, c, t), g[c as int].vop, g[t as int].vop);
    assert(cz_pair_result(g, c, t) =~~= cz_pair_result(g, t, c));
}

/// A second CZ on the same pair undoes the first: on a pair of qubits that
/// see nothing but each other and carry Z-commuting vertex operators, two CZ
/// gates in a row leave the state exactly as it was.
pub proof fn lemma_cz_pair_self_inverse(g: Seq<NodeV>, c: usize, t: usize)
    requires
        wf(g),
        (c as int) < g.len(),
        (t as int) < g.len(),
        c != t,
        forall|y: usize| #[trigger] g[c as int].adj.contains(y) ==> y == t,
        forall|y: usize| #[trigger] g[t as int].adj.contains(y) ==> y == c,
        crate::vop::is_in_z_spec(g[c as int].vop),
        crate::vop::is_in_z_spec(g[t as int].vop),
    ensures
        cz_pair_result(cz_pair_result(g, c, t), c, t) == g,
{
    let e0 = edge(g, c, t);
    let entry = crate::cphase::cphase_spec(e0, g[c as int].vop, g[t as int].vop);
    let g1 = cz_pair_result(g, c, t);
    crate::cphase::lemma_cphase_self_inverse(e0, g[c as int].vop, g[t as int].vop);
    assert(edge(g1, c, t) == entry.0) by {
        if entry.0 {
            assert(g1[c as int].adj == seq![t]);
            assert(g1[c as int].adj[0] == t);
            assert(g1[c as int].adj.contains(t));
        } else {
            assert(g1[c as int].adj == Seq::<usize>::empty());
        }
    }
    assert(node_wf(g, c as int));
    assert(node_wf(g, t as int));
    if e0 {
        lemma_singleton_seq(g[c as int].adj, t);
        lemma_singleton_seq(g[t as int].adj, c);
    } else {
        assert forall|y: usize| !(#[trigger] g[c as int].adj.contains(y)) by {
            if g[c as int].adj.contains(y) {
                assert(y == t);
            }
        }
        assert forall|y: usize| !(#[trigger] g[t as int].adj.contains(y)) by {
            if g[t as int].adj.contains(y) {
                assert(y == c);
                assert(edge(g, t, c));
                assert(edge(g, c, t));
            }
        }
        lemma_empty_seq(g[c as int].adj);
        lemma_empty_seq(g[t as int].adj);
    }
    assert(cz_pair_result(g1, c, t) =~~= g);
}

/// The sequence of nodes `p` walks along edges of `g`: every entry is a valid
/// index and consecutive entries are adjacent.
pub open spec fn is_path(g: Seq<NodeV>, p: Seq<usize>) -> bool {
    &&& p.len() > 0
    &&& forall|k: int| 0 <= k < p.len() ==> ((#[trigger] p[k]) as int) < g.len()
    &&& forall|k: int| 0 <= k < p.len() - 1 ==> edge(g, #[trigger] p[k], p[k + 1])
}

/// Node `v` can be reached from `u` along edges of `g`; every node reaches
/// itself.
pub open spec fn reachable(g: Seq<NodeV>, u: usize, v: usize) -> bool {
    exists|p: Seq<usize>| #[trigger] is_path(g, p) && p.first() == u && p.last() == v
}

/// Every node with a valid index reaches itself.
proof fn lemma_reachable_refl(g: Seq<NodeV>, u: usize)
    requires
        (u as int) < g.len(),
    ensures
        reachable(g, u, u),
{
    let p = seq![u];
    assert(is_path(g, p));
    assert(p.first() == u && p.last() == u);
}

/// Reachability extends along one more edge.
proof fn lemma_reachable_step(g: Seq<NodeV>, u: usize, v: usize, y: usize)
    requires
        wf(g),
        reachable(g, u, v),
        edge(g, v, y),
    ensures
        reachable(g, u, y),
{
    let p = choose|p: Seq<usize>| #[trigger] is_path(g, p) && p.first() == u && p.last() == v;
    let q = p.push(y);
    assert(node_wf(g, v as int));
    assert((y as int) < g.len());
    assert(is_path(g, q)) by {
        assert forall|k: int| 0 <= k < q.len() - 1 implies #[trigger] edge(g, q[k], q[k + 1]) by {
            if k < p.len() - 1 {
                assert(edge(g, p[k], p[k + 1]));
            } else {
                assert(q[k] == v && q[k + 1] == y);
            }
        }
    }
    assert(q.first() == u && q.last() == y);
}

/// A set of nodes that holds the start of a path and is closed under edges
/// holds the path's end.
proof fn lemma_path_stays(g: Seq<NodeV>, r: Seq<usize>, p: Seq<usize>)
    requires
        is_path(g, p),
        r.contains(p.first()),
        forall|a: usize, y: usize|
            #[trigger] r.contains(a) && #[trigger] edge(g, a, y) ==> r.contains(y),
    ensures
        r.contains(p.last()),
    decreases p.len(),
{
    if p.len() > 1 {
        let p2 = p.subrange(1, p.len() as int);
        assert(edge(g, p[0], p[1]));
        assert(r.contains(p[1]));
        assert(is_path(g, p2)) by {
            assert forall|k: int| 0 <= k < p2.len() - 1 implies #[trigger] edge(
                g,
                p2[k],
                p2[k + 1],
            ) by {
                assert(p2[k] == p[k + 1] && p2[k + 1] == p[k + 2]);
                assert(edge(g, p[k + 1], p[k + 2]));
            }
        }
        assert(p2.first() == p[1]);
        lemma_path_stays(g, r, p2);
        assert(p2.last() == p.last());
    }
}

/// A duplicate-free sequence of indices below `n` has at most `n` entries.
proof fn lemma_distinct_bounded(s: Seq<usize>, n: int)
    requires
        s.no_duplicates(),
        forall|k: int| 0 <= k < s.len() ==> ((#[trigger] s[k]) as int) < n,
        0 <= n,
    ensures
        s.len() <= n,
{
    let f = |y: usize| y as int;
    let si = s.map_values(f);
    s.lemma_no_duplicates_injective(f);
    si.unique_seq_to_set();
    vstd::set_lib::lemma_int_range(0, n);
    assert(si.to_set().subset_of(vstd::set_lib::set_int_range(0, n))) by {
        assert forall|x: int| si.to_set().contains(x) implies vstd::set_lib::set_int_range(
            0,
            n,
        ).contains(x) by {
            let k = choose|k: int| 0 <= k < si.len() && si[k] == x;
            assert(si[k] == f(s[k]));
        }
    }
    vstd::set_lib::lemma_len_subset(
        si.to_set(),
        vstd::set_lib::set_int_range(0, n),
    );
}

impl GraphSim {
    /// The set of qubits entangled with `qubit`: exactly the nodes reachable
    /// from it in the graph, `qubit` itself included, each listed once.
    pub fn get_entangled_group(&self, qubit: usize) -> (r: Vec<usize>)
        requires
            wf(self@),
            (qubit as int) < self@.len(),
        ensures
            r@.no_duplicates(),
            forall|v: usize| #[trigger] r@.contains(v) <==> reachable(self@, qubit, v),
    {
        let ghost g = self@;
        let ghost n = g.len();
        proof {
            assert(n <= usize::MAX) by {
                assert(self.nodes.len() == n);
            }
        }
        let mut r: Vec<usize> = Vec::new();
        r.push(qubit);
        proof {
            lemma_reachable_refl(g, qubit);
            assert(r@.contains(qubit)) by {
                assert(r@[0] == qubit);
            }
        }
        let mut head: usize = 0;
        while head < r.len()
            invariant
                wf(g),
                g == self@,
                n == g.len(),
                n <= usize::MAX,
                (qubit as int) < n,
                r@.no_duplicates(),
                r@.contains(qubit),
                head <= r@.len(),
                forall|k: int| 0 <= k < r@.len() ==> ((#[trigger] r@[k]) as int) < n,
                forall|k: int| 0 <= k < r@.len() ==> reachable(g, qubit, #[trigger] r@[k]),
                forall|k: int, y: usize|
                    0 <= k < head && #[trigger] edge(g, r@[k], y) ==> r@.contains(y),
            decreases n - head,
        {
            proof {
                lemma_distinct_bounded(r@, n as int);
            }
            let val = r[head];
            let alen = self.index(val).len();
            let ghost r_snap = r@;
            let mut t: usize = 0;
            while t < alen
                invariant
                    wf(g),
                    g == self@,
                    n == g.len(),
                    n <= usize::MAX,
                    (qubit as int) < n,
                    head < r_snap.len(),
                    val == r_snap[head as int],
                    (val as int) < n,
                    alen == g[val as int].adj.len(),
                    t <= alen,
                    r@.no_duplicates(),
                    r@.contains(qubit),
                    r_snap.is_prefix_of(r@),
                    head < r@.len(),
                    r@[head as int] == val,
                    forall|k: int| 0 <= k < r@.len() ==> ((#[trigger] r@[k]) as int) < n,
                    forall|k: int| 0 <= k < r@.len() ==> reachable(g, qubit, #[trigger] r@[k]),
                    forall|k: int, y: usize|
                        0 <= k < head && #[trigger] edge(g, r@[k], y) ==> r@.contains(y),
                    forall|s: int| 0 <= s < t ==> r@.contains(#[trigger] g[val as int].adj[s]),
                decreases alen - t,
            {
                let y = self.index(val).neighbor(t);
                let here = vec_contains(&r, y);
                if !here {
                    proof {
                        assert(g[val as int].adj.contains(y)) by {
                            assert(g[val as int].adj[t as int] == y);
                        }
                        assert(node_wf(g, val as int));
                        assert(reachable(g, qubit, val)) by {
                            assert(r@[head as int] == val);
                        }
                        lemma_reachable_step(g, qubit, val, y);
                        lemma_push_no_duplicates(r@, y);
                    }
                    let ghost r_old = r@;
                    r.push(y);
                    proof {
                        assert forall|k: int| 0 <= k < r@.len() implies ((#[trigger] r@[k]) as int)
                            < n by {
                            if k < r_old.len() {
                                assert(r@[k] == r_old[k]);
                            } else {
                                assert(r@[k] == y);
                            }
                        }
                        assert forall|k: int| 0 <= k < r@.len() implies reachable(
                            g,
                            qubit,
                            #[trigger] r@[k],
                        ) by {
                            if k < r_old.len() {
                                assert(r@[k] == r_old[k]);
                            } else {
                                assert(r@[k] == y);
                            }
                        }
                        assert forall|k: int, y2: usize|
                            0 <= k < head && #[trigger] edge(g, r@[k], y2) implies r@.contains(
                            y2,
                        ) by {
                            assert(r@[k] == r_old[k]);
                            assert(edge(g, r_old[k], y2));
                            assert(r_old.contains(y2));
                            let s = choose|s: int| 0 <= s < r_old.len() && r_old[s] == y2;
                            assert(r@[s] == y2);
                        }
                        assert forall|s: int| 0 <= s < t + 1 implies r@.contains(
                            #[trigger] g[val as int].adj[s],
                        ) by {
                            if s < t {
                                let z = g[val as int].adj[s];
                                assert(r_old.contains(z));
                                let si = choose|si: int| 0 <= si < r_old.len() && r_old[si] == z;
                                assert(r@[si] == z);
                            } else {
                                assert(g[val as int].adj[s] == y);
                                assert(r@[r_old.len() as int] == y);
                            }
                        }
                        assert(r_snap.is_prefix_of(r@)) by {
                            assert forall|k: int| 0 <= k < r_snap.len() implies r_snap[k] == r@[k] by {
                                assert(r_old[k] == r_snap[k]);
                            }
                            assert(r_snap =~= r@.subrange(0, r_snap.len() as int));
                        }
                        assert(r@[head as int] == r_old[head as int]);
                        assert(r@.contains(qubit)) by {
                            let si = choose|si: int| 0 <= si < r_old.len() && r_old[si] == qubit;
                            assert(r@[si] == qubit);
                        }
                    }
                } else {
                    proof {
                        assert(g[val as int].adj.contains(y)) by {
                            assert(g[val as int].adj[t as int] == y);
                        }
                    }
                }
                t += 1;
            }
            proof {
                assert forall|k: int, y: usize|
                    0 <= k < head + 1 && #[trigger] edge(g, r@[k], y) implies r@.contains(y) by {
                    if k == head as int {
                        assert(r@[k] == val);
                        let s = choose|s: int| 0 <= s < g[val as int].adj.len() && g[val as int].adj[s] == y;
                        assert(r@.contains(g[val as int].adj[s]));
                    }
                }
            }
            head += 1;
        }
        proof {
            assert forall|v: usize| #[trigger] r@.contains(v) <==> reachable(g, qubit, v) by {
                if r@.contains(v) {
                    let k = choose|k: int| 0 <= k < r@.len() && r@[k] == v;
                    assert(reachable(g, qubit, r@[k]));
                }
                if reachable(g, qubit, v) {
                    let p = choose|p: Seq<usize>|
                        #[trigger] is_path(g, p) && p.first() == qubit && p.last() == v;
                    assert forall|a: usize, y: usize|
                        #[trigger] r@.contains(a) && #[trigger] edge(g, a, y) implies r@.contains(
                        y,
                    ) by {
                        let k = choose|k: int| 0 <= k < r@.len() && r@[k] == a;
                        assert(edge(g, r@[k], y));
                    }
                    lemma_path_stays(g, r@, p);
                }
            }
        }
        r
    }
}

impl GraphSim {
    /// The number of qubits the simulator was created with.
    pub fn qubit_count(&self) -> (n: usize)
        ensures
            n == self@.len(),
    {
        self.nodes.len()
    }

    /// Right-multiply `u` into the vertex operator of `q`; adjacency is
    /// untouched.
    pub(crate) fn vop_mul_right_at(&mut self, q: usize, u: Vop)
        requires
            wf(old(self)@),
            (q as int) < old(self)@.len(),
        ensures
            wf(final(self)@),
            final(self)@ == old(self)@.update(
                q as int,
                NodeV { adj: old(self)@[q as int].adj, vop: mul_spec(old(self)@[q as int].vop, u) },
            ),
    {
        self.index_mut(q).vop_mul_right(u);
        proof {
            assert(self@ =~= old(self)@.update(
                q as int,
                NodeV { adj: old(self)@[q as int].adj, vop: mul_spec(old(self)@[q as int].vop, u) },
            ));
            lemma_wf_same_adjacency(old(self)@, self@);
        }
    }

    /// An independent simulator holding exactly the same state.
    pub fn duplicate(&self) -> (r: GraphSim)
        ensures
            r@ == self@,
    {
        let mut nodes: Vec<Node> = Vec::new();
        let mut k: usize = 0;
        while k < self.nodes.len()
            invariant
                k <= self.nodes@.len(),
                nodes@.len() == k,
                forall|i: int| 0 <= i < k ==> (#[trigger] nodes@[i])@ == self.nodes@[i]@,
            decreases self.nodes@.len() - k,
        {
            let src = &self.nodes[k];
            let copied = Node { adjacent: src.neighbors(), vop: src.vop };
            nodes.push(copied);
            k += 1;
        }
        let r = GraphSim { nodes };
        proof {
            assert(r@ =~= self@);
        }
        r
    }
}

/// The textual label of the single-qubit state a vertex operator prepares
/// from |+>: the six stabilizer states.
pub open spec fn state_chars(v: Vop) -> Seq<char> {
    match v {
        Vop::IA | Vop::XA | Vop::YD | Vop::ZD => seq!['+'],
        Vop::YA | Vop::ZA | Vop::ID | Vop::XD => seq!['-'],
        Vop::IB | Vop::XB | Vop::YE | Vop::ZE => seq!['+', 'i'],
        Vop::YB | Vop::ZB | Vop::IE | Vop::XE => seq!['-', 'i'],
        Vop::IC | Vop::XC | Vop::YF | Vop::ZF => seq!['1'],
        Vop::YC | Vop::ZC | Vop::IF | Vop::XF => seq!['0'],
    }
}

impl Node {
    /// The label of the single-qubit state this node's vertex operator
    /// prepares from |+>.
    pub fn get_state_str(&self) -> (r: &'static str)
        ensures
            r@ == state_chars(self@.vop),
    {
        proof {
            reveal_strlit("+");
            reveal_strlit("-");
            reveal_strlit("+i");
            reveal_strlit("-i");
            reveal_strlit("1");
            reveal_strlit("0");
        }
        match self.vop {
            Vop::IA | Vop::XA | Vop::YD | Vop::ZD => "+",
            Vop::YA | Vop::ZA | Vop::ID | Vop::XD => "-",
            Vop::IB | Vop::XB | Vop::YE | Vop::ZE => "+i",
            Vop::YB | Vop::ZB | Vop::IE | Vop::XE => "-i",
            Vop::IC | Vop::XC | Vop::YF | Vop::ZF => "1",
            Vop::YC | Vop::ZC | Vop::IF | Vop::XF => "0",
        }
    }
}

/// A doubled gate is unobservable: applying H, X, Y or Z twice to the same
/// qubit, or S and then S-dagger (or the other way round), returns exactly
/// the state the simulator held before, so every later measurement
/// distribution is the same.
pub proof fn lemma_gate_involution_state(g: Seq<NodeV>, q: usize)
    requires
        (q as int) < g.len(),
    ensures
        apply_gate(apply_gate(g, q, H_GATE), q, H_GATE) == g,
        apply_gate(apply_gate(g, q, X_GATE), q, X_GATE) == g,
        apply_gate(apply_gate(g, q, Y_GATE), q, Y_GATE) == g,
        apply_gate(apply_gate(g, q, Z_GATE), q, Z_GATE) == g,
        apply_gate(apply_gate(g, q, S_GATE), q, SDAG_GATE) == g,
        apply_gate(apply_gate(g, q, SDAG_GATE), q, S_GATE) == g,
{
    lemma_gate_involution(g[q as int].vop);
    assert(apply_gate(apply_gate(g, q, H_GATE), q, H_GATE) =~~= g);
    assert(apply_gate(apply_gate(g, q, X_GATE), q, X_GATE) =~~= g);
    assert(apply_gate(apply_gate(g, q, Y_GATE), q, Y_GATE) =~~= g);
    assert(apply_gate(apply_gate(g, q, Z_GATE), q, Z_GATE) =~~= g);
    assert(apply_gate(apply_gate(g, q, S_GATE), q, SDAG_GATE) =~~= g);
    assert(apply_gate(apply_gate(g, q, SDAG_GATE), q, S_GATE) =~~= g);
}

impl Default for Node {
    /// A fresh node: no neighbors, carrying the canonical |0> label.
    fn default() -> (n: Node)
        ensures
            n@.adj.len() == 0,
            n@.vop == Vop::YC,
    {
        Node { adjacent: Vec::new(), vop: Vop::YC }
    }
}

impl Node {
    /// The number of neighbors of this node.
    pub fn len(&self) -> (n: usize)
        ensures
            n == self@.adj.len(),
    {
        self.adjacent.len()
    }

    /// The vertex operator of this node.
    pub fn vop(&self) -> (v: Vop)
        ensures
            v == self@.vop,
    {
        self.vop
    }

    /// The neighbor at position `k` of the list.
    pub fn neighbor(&self, k: usize) -> (y: usize)
        requires
            (k as int) < self@.adj.len(),
        ensures
            y == self@.adj[k as int],
    {
        self.adjacent[k]
    }

    /// Whether `y` is listed as a neighbor of this node.
    pub fn is_adjacent(&self, y: usize) -> (b: bool)
        ensures
            b == self@.adj.contains(y),
    {
        vec_contains(&self.adjacent, y)
    }

    /// Drop `x` from the neighbor list, if it is there.
    fn adj_remove(&mut self, x: usize) -> (was: bool)
        requires
            old(self)@.adj.no_duplicates(),
        ensures
            final(self)@.vop == old(self)@.vop,
            final(self)@.adj.no_duplicates(),
            was == old(self)@.adj.contains(x),
            forall|y: usize| #[trigger]
                final(self)@.adj.contains(y) <==> (old(self)@.adj.contains(y) && y != x),
            !was ==> final(self)@ == old(self)@,
    {
        remove_value(&mut self.adjacent, x)
    }

    /// Append the fresh neighbor `x` to the list.
    fn adj_push(&mut self, x: usize)
        requires
            old(self)@.adj.no_duplicates(),
            !old(self)@.adj.contains(x),
        ensures
            final(self)@.vop == old(self)@.vop,
            final(self)@.adj == old(self)@.adj.push(x),
            final(self)@.adj.no_duplicates(),
            final(self)@.adj.contains(x),
            forall|y: usize| #[trigger]
                final(self)@.adj.contains(y) <==> (old(self)@.adj.contains(y) || y == x),
    {
        let ghost s = self.adjacent@;
        self.adjacent.push(x);
        proof {
            lemma_push_no_duplicates(s, x);
            assert forall|y: usize| #[trigger]
                self.adjacent@.contains(y) <==> (s.contains(y) || y == x) by {
                vstd::seq_lib::lemma_seq_contains_after_push(s, x, y);
            }
        }
    }

    /// Left-multiply `u` into the vertex operator.
    fn vop_mul_left(&mut self, u: Vop)
        ensures
            final(self)@.adj == old(self)@.adj,
            final(self)@.vop == mul_spec(u, old(self)@.vop),
    {
        self.vop = u.mul(self.vop);
    }

    /// Right-multiply `u` into the vertex operator.
    fn vop_mul_right(&mut self, u: Vop)
        ensures
            final(self)@.adj == old(self)@.adj,
            final(self)@.vop == mul_spec(old(self)@.vop, u),
    {
        self.vop = self.vop.mul(u);
    }

    /// A fresh vector holding the neighbor list of this node.
    pub fn neighbors(&self) -> (r: Vec<usize>)
        ensures
            r@ == self@.adj,
    {
        let mut r: Vec<usize> = Vec::new();
        let mut k: usize = 0;
        while k < self.adjacent.len()
            invariant
                k <= self.adjacent@.len(),
                r@ == self.adjacent@.take(k as int),
            decreases self.adjacent@.len() - k,
        {
            r.push(self.adjacent[k]);
            proof {
                assert(r@ =~= self.adjacent@.take(k + 1));
            }
            k += 1;
        }
        proof {
            assert(r@ =~= self.adjacent@);
        }
        r
    }

    /// Overwrite the vertex operator.
    fn vop_set(&mut self, u: Vop)
        ensures
            final(self)@.adj == old(self)@.adj,
            final(self)@.vop == u,
    {
        self.vop = u;
    }
}

} // verus!
