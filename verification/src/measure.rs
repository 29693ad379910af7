use vstd::prelude::*;

use rand::Rng;

use crate::graph::{edge, node_wf, wf, GraphSim, NodeV};
use crate::graph::{lemma_empty_seq, lemma_push_no_duplicates};
use crate::vop::find_zeta;
use crate::vop::{
    zeta_spec, Axis, MeasurementResult, Outcome, Vop, Zeta, H_GATE, SDAG_GATE, S_GATE, X_GATE,
    Z_GATE,
};
use crate::vop_aux::{adj_spec, conj_spec, detm_spec};
use crate::vop_mul::mul_spec;

verus! {

/// Relies on rand::rng and rand::Rng::random_range: a number drawn uniformly
/// from the range 0..bound, which is non-empty here, so the result is below
/// the bound.
#[verifier::external_body]
fn sample_below(bound: u32) -> (r: u32)
    requires
        1 <= bound,
    ensures
        r < bound,
{
    rand::rng().random_range(0..bound)
}

/// A measurement eigenvalue drawn uniformly at random.
fn random_result() -> MeasurementResult {
    if sample_below(2) == 0 {
        MeasurementResult::PlusOne
    } else {
        MeasurementResult::MinusOne
    }
}

/// A Pauli axis drawn uniformly at random.
fn random_axis() -> Axis {
    let k = sample_below(3);
    if k == 0 {
        Axis::X
    } else if k == 1 {
        Axis::Y
    } else {
        Axis::Z
    }
}

/// The opposite eigenvalue.
pub open spec fn flipped(r: MeasurementResult) -> MeasurementResult {
    match r {
        MeasurementResult::PlusOne => MeasurementResult::MinusOne,
        MeasurementResult::MinusOne => MeasurementResult::PlusOne,
    }
}

/// Exchange the +1 and -1 eigenvalues.
fn flip(r: MeasurementResult) -> (f: MeasurementResult)
    ensures
        f == flipped(r),
{
    match r {
        MeasurementResult::PlusOne => MeasurementResult::MinusOne,
        MeasurementResult::MinusOne => MeasurementResult::PlusOne,
    }
}

/// The phase gate a +1 outcome multiplies in, or its adjoint for -1.
pub open spec fn s_or_sdag(r: MeasurementResult) -> Vop {
    match r {
        MeasurementResult::PlusOne => S_GATE,
        MeasurementResult::MinusOne => SDAG_GATE,
    }
}

impl GraphSim {
    /// The axis in which a measurement of `node` comes out fixed, defined
    /// exactly on isolated nodes: the 24-entry table on the adjoint of the
    /// node's vertex operator.
    pub fn find_deterministic(&self, node: usize) -> (r: Option<Axis>)
        requires
            wf(self@),
            (node as int) < self@.len(),
        ensures
            self@[node as int].adj.len() == 0 ==> r == Some(
                detm_spec(adj_spec(self@[node as int].vop)),
            ),
            self@[node as int].adj.len() > 0 ==> r == None::<Axis>,
    {
        if self.index(node).len() == 0 {
            Some(Axis::deterministic_for(self.index(node).vop().adj()))
        } else {
            None
        }
    }

    /// Measurement of `node` in the Z basis of the graph frame: every edge
    /// at `node` is cut; each old neighbor picks up a Z exactly when the
    /// outcome is -1; `node` itself ends in its old operator times H for +1,
    /// times X then H for -1. Every other node is untouched, and no edge
    /// away from `node` moves.
    pub(crate) fn int_measure_z(&mut self, node: usize) -> (res: MeasurementResult)
        requires
            wf(old(self)@),
            (node as int) < old(self)@.len(),
        ensures
            wf(final(self)@),
            final(self)@.len() == old(self)@.len(),
            final(self)@[node as int].adj.len() == 0,
            final(self)@[node as int].vop == (match res {
                MeasurementResult::PlusOne => mul_spec(old(self)@[node as int].vop, H_GATE),
                MeasurementResult::MinusOne => mul_spec(
                    mul_spec(old(self)@[node as int].vop, X_GATE),
                    H_GATE,
                ),
            }),
            forall|j: int|
                0 <= j < old(self)@.len() && j != node as int && old(self)@[node as int].adj.contains(
                    j as usize,
                ) ==> (#[trigger] final(self)@[j]).vop == (match res {
                    MeasurementResult::PlusOne => old(self)@[j].vop,
                    MeasurementResult::MinusOne => mul_spec(old(self)@[j].vop, Z_GATE),
                }),
            forall|j: int|
                0 <= j < old(self)@.len() && j != node as int && !old(self)@[node as int].adj.contains(
                    j as usize,
                ) ==> final(self)@[j] == old(self)@[j],
            forall|a: usize, b: usize|
                (a as int) < old(self)@.len() && (b as int) < old(self)@.len() && a != node && b
                    != node ==> (#[trigger] edge(final(self)@, a, b) <==> edge(old(self)@, a, b)),
    {
        let ghost g0 = self@;
        let ghost n = g0.len();
        proof {
            crate::graph::lemma_len_bounded(self);
            assert(node_wf(g0, node as int));
        }
        let res = random_result();
        let nbs = self.index(node).neighbors();
        let ghost nb = nbs@;
        proof {
            assert forall|p: int| 0 <= p < nb.len() implies ((#[trigger] nb[p]) as int) < n
                && nb[p] != node by {
                assert(nb.contains(nb[p]));
            }
        }
        let len = nbs.len();
        let mut k: usize = 0;
        while k < len
            invariant
                wf(self@),
                self@.len() == n,
                n == g0.len(),
                n <= usize::MAX,
                wf(g0),
                (node as int) < n,
                nb == g0[node as int].adj,
                nb.no_duplicates(),
                forall|p: int| 0 <= p < nb.len() ==> ((#[trigger] nb[p]) as int) < n && nb[p] != node,
                nbs@ == nb,
                len == nb.len(),
                k <= len,
                self@[node as int].vop == g0[node as int].vop,
                forall|y: usize| #[trigger]
                    self@[node as int].adj.contains(y) <==> (nb.contains(y) && !nb.take(
                        k as int,
                    ).contains(y)),
                forall|j: int|
                    0 <= j < n && j != node as int && nb.take(k as int).contains(j as usize) ==> (
                    #[trigger] self@[j]).vop == (match res {
                        MeasurementResult::PlusOne => g0[j].vop,
                        MeasurementResult::MinusOne => mul_spec(g0[j].vop, Z_GATE),
                    }),
                forall|j: int|
                    0 <= j < n && j != node as int && !nb.take(k as int).contains(j as usize) ==> (
                    #[trigger] self@[j]) == g0[j],
                forall|a: usize, b: usize|
                    (a as int) < n && (b as int) < n && a != node && b != node ==> (#[trigger] edge(
                        self@,
                        a,
                        b,
                    ) <==> edge(g0, a, b)),
            decreases len - k,
        {
            let other = nbs[k];
            let ghost gpre = self@;
            proof {
                assert(nb.contains(nb[k as int])) by {
                    assert(nb[k as int] == nb[k as int]);
                }
                assert(!nb.take(k as int).contains(nb[k as int])) by {
                    if nb.take(k as int).contains(nb[k as int]) {
                        let p = choose|p: int|
                            0 <= p < k as int && nb.take(k as int)[p] == nb[k as int];
                        assert(nb[p] == nb[k as int]);
                    }
                }
                assert(gpre[other as int] == g0[other as int]);
            }
            self.delete_edge(node, other);
            if matches!(res, MeasurementResult::MinusOne) {
                self.vop_mul_right_at(other, Z_GATE);
            }
            proof {
                assert(nb.take(k + 1 as int) =~= nb.take(k as int).push(nb[k as int]));
                assert forall|y: usize| #[trigger]
                    self@[node as int].adj.contains(y) <==> (nb.contains(y) && !nb.take(
                        k + 1 as int,
                    ).contains(y)) by {
                    vstd::seq_lib::lemma_seq_contains_after_push(
                        nb.take(k as int),
                        nb[k as int],
                        y,
                    );
                    assert(gpre[node as int].adj.contains(y) <==> (nb.contains(y) && !nb.take(
                        k as int,
                    ).contains(y)));
                }
                assert forall|j: int|
                    0 <= j < n && j != node as int && nb.take(k + 1 as int).contains(j as usize)
                        implies (#[trigger] self@[j]).vop == (match res {
                    MeasurementResult::PlusOne => g0[j].vop,
                    MeasurementResult::MinusOne => mul_spec(g0[j].vop, Z_GATE),
                }) by {
                    vstd::seq_lib::lemma_seq_contains_after_push(
                        nb.take(k as int),
                        nb[k as int],
                        j as usize,
                    );
                    if j != other as int {
                        assert(self@[j].vop == gpre[j].vop);
                        assert(nb.take(k as int).contains(j as usize));
                        assert(gpre[j].vop == (match res {
                            MeasurementResult::PlusOne => g0[j].vop,
                            MeasurementResult::MinusOne => mul_spec(g0[j].vop, Z_GATE),
                        }));
                    }
                }
                assert forall|j: int|
                    0 <= j < n && j != node as int && !nb.take(k + 1 as int).contains(j as usize)
                        implies (#[trigger] self@[j]) == g0[j] by {
                    vstd::seq_lib::lemma_seq_contains_after_push(
                        nb.take(k as int),
                        nb[k as int],
                        j as usize,
                    );
                    assert(j != other as int);
                    assert(self@[j] == gpre[j]);
                }
                assert forall|a: usize, b: usize|
                    (a as int) < n && (b as int) < n && a != node && b != node implies (
                #[trigger] edge(self@, a, b) <==> edge(g0, a, b)) by {
                    assert(edge(gpre, a, b) <==> edge(g0, a, b));
                    if a != other {
                        assert(self@[a as int].adj == gpre[a as int].adj);
                    } else {
                        assert forall|y: usize|
                            y != node implies (#[trigger] self@[a as int].adj.contains(y) <==> gpre[a as int].adj.contains(y)) by {}
                        assert(b != node);
                    }
                }
            }
            k += 1;
        }
        let ghost gend = self@;
        proof {
            assert(nb.take(len as int) =~= nb);
            assert forall|y: usize| !(#[trigger] gend[node as int].adj.contains(y)) by {}
            lemma_empty_seq(gend[node as int].adj);
        }
        match res {
            MeasurementResult::PlusOne => {
                self.vop_mul_right_at(node, H_GATE);
            },
            MeasurementResult::MinusOne => {
                self.vop_mul_right_at(node, X_GATE);
                self.vop_mul_right_at(node, H_GATE);
            },
        }
        proof {
            assert forall|j: int| 0 <= j < n && j != node as int implies self@[j] == gend[j] by {}
            assert(self@[node as int].adj == gend[node as int].adj);
            assert forall|j: int|
                0 <= j < n && j != node as int && nb.contains(j as usize) implies (
            #[trigger] self@[j]).vop == (match res {
                MeasurementResult::PlusOne => g0[j].vop,
                MeasurementResult::MinusOne => mul_spec(g0[j].vop, Z_GATE),
            }) by {
                assert(nb.take(len as int).contains(j as usize));
                assert(gend[j].vop == (match res {
                    MeasurementResult::PlusOne => g0[j].vop,
                    MeasurementResult::MinusOne => mul_spec(g0[j].vop, Z_GATE),
                }));
            }
            assert forall|j: int|
                0 <= j < n && j != node as int && !nb.contains(j as usize) implies (
            #[trigger] self@[j]) == g0[j] by {
                assert(!nb.take(len as int).contains(j as usize));
                assert(gend[j] == g0[j]);
            }
            assert forall|a: usize, b: usize|
                (a as int) < n && (b as int) < n && a != node && b != node implies (#[trigger] edge(
                    self@,
                    a,
                    b,
                ) <==> edge(g0, a, b)) by {
                assert(edge(gend, a, b) <==> edge(g0, a, b));
                assert(self@[a as int].adj == gend[a as int].adj);
            }
        }
        res
    }

    /// Measurement of `node` in the Y basis of the graph frame: every
    /// neighbor and `node` itself pick up S for a +1 outcome and S-dagger
    /// for -1, and every edge inside the closed neighborhood of `node` is
    /// toggled. Nodes outside that neighborhood are untouched.
    pub(crate) fn int_measure_y(&mut self, node: usize) -> (res: MeasurementResult)
        requires
            wf(old(self)@),
            (node as int) < old(self)@.len(),
        ensures
            wf(final(self)@),
            final(self)@.len() == old(self)@.len(),
            final(self)@[node as int].vop == mul_spec(old(self)@[node as int].vop, s_or_sdag(res)),
            forall|j: int|
                0 <= j < old(self)@.len() && j != node as int && old(self)@[node as int].adj.contains(
                    j as usize,
                ) ==> (#[trigger] final(self)@[j]).vop == mul_spec(old(self)@[j].vop, s_or_sdag(res)),
            forall|j: int|
                0 <= j < old(self)@.len() && j != node as int && !old(self)@[node as int].adj.contains(
                    j as usize,
                ) ==> final(self)@[j] == old(self)@[j],
            forall|a: usize, b: usize|
                (a as int) < old(self)@.len() && (b as int) < old(self)@.len() && a != b ==> (
                #[trigger] edge(final(self)@, a, b) <==> (if (a == node || old(
                    self,
                )@[node as int].adj.contains(a)) && (b == node || old(self)@[node as int].adj.contains(
                    b,
                )) {
                    !edge(old(self)@, a, b)
                } else {
                    edge(old(self)@, a, b)
                })),
    {
        let ghost g0 = self@;
        let ghost n = g0.len();
        proof {
            crate::graph::lemma_len_bounded(self);
            assert(node_wf(g0, node as int));
        }
        let res = random_result();
        let u = match res {
            MeasurementResult::PlusOne => S_GATE,
            MeasurementResult::MinusOne => SDAG_GATE,
        };
        let nbs = self.index(node).neighbors();
        let ghost nb = nbs@;
        proof {
            assert forall|p: int| 0 <= p < nb.len() implies ((#[trigger] nb[p]) as int) < n
                && nb[p] != node by {
                assert(nb.contains(nb[p]));
            }
        }
        let len = nbs.len();
        let mut k: usize = 0;
        while k < len
            invariant
                wf(self@),
                self@.len() == n,
                n == g0.len(),
                n <= usize::MAX,
                wf(g0),
                (node as int) < n,
                nb == g0[node as int].adj,
                nb.no_duplicates(),
                forall|p: int| 0 <= p < nb.len() ==> ((#[trigger] nb[p]) as int) < n && nb[p] != node,
                nbs@ == nb,
                len == nb.len(),
                k <= len,
                u == s_or_sdag(res),
                forall|j: int| 0 <= j < n ==> (#[trigger] self@[j]).adj == g0[j].adj,
                forall|j: int|
                    0 <= j < n && nb.take(k as int).contains(j as usize) ==> (
                    #[trigger] self@[j]).vop == mul_spec(g0[j].vop, s_or_sdag(res)),
                forall|j: int|
                    0 <= j < n && !nb.take(k as int).contains(j as usize) ==> (
                    #[trigger] self@[j]).vop == g0[j].vop,
            decreases len - k,
        {
            let other = nbs[k];
            let ghost gpre = self@;
            proof {
                assert(nb.contains(nb[k as int])) by {
                    assert(nb[k as int] == nb[k as int]);
                }
                assert(!nb.take(k as int).contains(nb[k as int])) by {
                    if nb.take(k as int).contains(nb[k as int]) {
                        let p = choose|p: int|
                            0 <= p < k as int && nb.take(k as int)[p] == nb[k as int];
                        assert(nb[p] == nb[k as int]);
                    }
                }
            }
            self.vop_mul_right_at(other, u);
            proof {
                assert(nb.take(k + 1 as int) =~= nb.take(k as int).push(nb[k as int]));
                assert forall|j: int|
                    0 <= j < n && nb.take(k + 1 as int).contains(j as usize) implies (
                #[trigger] self@[j]).vop == mul_spec(g0[j].vop, s_or_sdag(res)) by {
                    vstd::seq_lib::lemma_seq_contains_after_push(
                        nb.take(k as int),
                        nb[k as int],
                        j as usize,
                    );
                    if j != other as int {
                        assert(self@[j].vop == gpre[j].vop);
                        assert(nb.take(k as int).contains(j as usize));
                    } else {
                        assert(gpre[j].vop == g0[j].vop);
                    }
                }
                assert forall|j: int|
                    0 <= j < n && !nb.take(k + 1 as int).contains(j as usize) implies (
                #[trigger] self@[j]).vop == g0[j].vop by {
                    vstd::seq_lib::lemma_seq_contains_after_push(
                        nb.take(k as int),
                        nb[k as int],
                        j as usize,
                    );
                    assert(j != other as int);
                    assert(self@[j].vop == gpre[j].vop);
                }
            }
            k += 1;
        }
        let ghost g1 = self@;
        proof {
            assert(nb.take(len as int) =~= nb);
        }
        let mut m = nbs;
        m.push(node);
        let ghost ms = m@;
        proof {
            assert(!nb.contains(node));
            lemma_push_no_duplicates(nb, node);
            assert(ms == nb.push(node));
            assert forall|p: int| 0 <= p < ms.len() implies ((#[trigger] ms[p]) as int) < n by {
                if p < nb.len() {
                    assert(ms[p] == nb[p]);
                } else {
                    assert(ms[p] == node);
                }
            }
        }
        let mlen = m.len();
        let mut i: usize = 0;
        while i < mlen
            invariant
                wf(self@),
                self@.len() == n,
                n == g1.len(),
                n <= usize::MAX,
                wf(g1),
                (node as int) < n,
                ms.no_duplicates(),
                forall|p: int| 0 <= p < ms.len() ==> ((#[trigger] ms[p]) as int) < n,
                m@ == ms,
                mlen == ms.len(),
                i <= mlen,
                forall|j: int| 0 <= j < n ==> (#[trigger] self@[j]).vop == g1[j].vop,
                forall|j: int|
                    0 <= j < n && !ms.contains(j as usize) ==> (#[trigger] self@[j]) == g1[j],
                forall|a: usize, b: usize|
                    (a as int) < n && (b as int) < n && a != b ==> (#[trigger] edge(self@, a, b)
                        <==> (if crate::graph::lc_pair_done(ms, i as int, 0, a, b) {
                        !edge(g1, a, b)
                    } else {
                        edge(g1, a, b)
                    })),
            decreases mlen - i,
        {
            let mut j: usize = i + 1;
            while j < mlen
                invariant
                    wf(self@),
                    self@.len() == n,
                    n == g1.len(),
                    n <= usize::MAX,
                    wf(g1),
                    (node as int) < n,
                    ms.no_duplicates(),
                    forall|p: int| 0 <= p < ms.len() ==> ((#[trigger] ms[p]) as int) < n,
                    m@ == ms,
                    mlen == ms.len(),
                    i < mlen,
                    i + 1 <= j <= mlen,
                    forall|p: int| 0 <= p < n ==> (#[trigger] self@[p]).vop == g1[p].vop,
                    forall|p: int|
                        0 <= p < n && !ms.contains(p as usize) ==> (#[trigger] self@[p]) == g1[p],
                    forall|a: usize, b: usize|
                        (a as int) < n && (b as int) < n && a != b ==> (#[trigger] edge(
                            self@,
                            a,
                            b,
                        ) <==> (if crate::graph::lc_pair_done(ms, i as int, j as int, a, b) {
                            !edge(g1, a, b)
                        } else {
                            edge(g1, a, b)
                        })),
                decreases mlen - j,
            {
                let va = m[i];
                let vb = m[j];
                proof {
                    assert(ms[i as int] != ms[j as int]);
                }
                let ghost gpre = self@;
                self.toggle_edge(va, vb);
                proof {
                    assert(ms.contains(va)) by {
                        assert(ms[i as int] == va);
                    }
                    assert(ms.contains(vb)) by {
                        assert(ms[j as int] == vb);
                    }
                    assert forall|a: usize, b: usize|
                        (a as int) < n && (b as int) < n && a != b implies (#[trigger] edge(
                        self@,
                        a,
                        b,
                    ) <==> (if crate::graph::lc_pair_done(ms, i as int, j + 1 as int, a, b) {
                        !edge(g1, a, b)
                    } else {
                        edge(g1, a, b)
                    })) by {
                        if (a == va && b == vb) || (a == vb && b == va) {
                            assert(edge(self@, a, b) == !edge(gpre, a, b));
                            assert(crate::graph::lc_pair_done(ms, i as int, j + 1 as int, a, b))
                                by {
                                assert(0 <= i < j + 1 && ((ms[i as int] == a && ms[j as int] == b)
                                    || (ms[i as int] == b && ms[j as int] == a)));
                            }
                            assert(!crate::graph::lc_pair_done(ms, i as int, j as int, a, b)) by {
                                if crate::graph::lc_pair_done(ms, i as int, j as int, a, b) {
                                    let (p, q) = choose|p: int, q: int|
                                        0 <= p < q < ms.len() && (p < i as int || (p == i as int
                                            && q < j as int)) && ((ms[p] == a && ms[q] == b) || (
                                        ms[p] == b && ms[q] == a));
                                    if ms[p] == ms[i as int] {
                                        assert(p == i as int);
                                    } else {
                                        assert(ms[p] == ms[j as int]);
                                        assert(p == j as int);
                                    }
                                    if p == i as int {
                                        if ms[q] == ms[j as int] {
                                            assert(q == j as int);
                                        } else {
                                            assert(ms[q] == ms[i as int]);
                                            assert(q == i as int);
                                        }
                                    }
                                }
                            }
                        } else {
                            assert(edge(self@, a, b) == edge(gpre, a, b)) by {
                                if a != va && a != vb {
                                    assert(self@[a as int] == gpre[a as int]);
                                }
                            }
                            assert(crate::graph::lc_pair_done(ms, i as int, j + 1 as int, a, b)
                                == crate::graph::lc_pair_done(ms, i as int, j as int, a, b)) by {
                                if crate::graph::lc_pair_done(ms, i as int, j + 1 as int, a, b) {
                                    let (p, q) = choose|p: int, q: int|
                                        0 <= p < q < ms.len() && (p < i as int || (p == i as int
                                            && q < j + 1 as int)) && ((ms[p] == a && ms[q] == b)
                                            || (ms[p] == b && ms[q] == a));
                                    if p == i as int && q == j as int {
                                        assert((a == va && b == vb) || (a == vb && b == va));
                                    } else {
                                        assert(p < i as int || (p == i as int && q < j as int));
                                        assert(crate::graph::lc_pair_done(
                                            ms,
                                            i as int,
                                            j as int,
                                            a,
                                            b,
                                        ));
                                    }
                                }
                                if crate::graph::lc_pair_done(ms, i as int, j as int, a, b) {
                                    let (p, q) = choose|p: int, q: int|
                                        0 <= p < q < ms.len() && (p < i as int || (p == i as int
                                            && q < j as int)) && ((ms[p] == a && ms[q] == b) || (
                                        ms[p] == b && ms[q] == a));
                                    assert(p < i as int || (p == i as int && q < j + 1 as int));
                                    assert(crate::graph::lc_pair_done(
                                        ms,
                                        i as int,
                                        j + 1 as int,
                                        a,
                                        b,
                                    ));
                                }
                            }
                        }
                    }
                    assert forall|p: int| 0 <= p < n implies (#[trigger] self@[p]).vop
                        == g1[p].vop by {
                        if p != va as int && p != vb as int {
                            assert(self@[p] == gpre[p]);
                        } else {
                            assert(self@[p].vop == gpre[p].vop);
                        }
                    }
                    assert forall|p: int|
                        0 <= p < n && !ms.contains(p as usize) implies (#[trigger] self@[p])
                        == g1[p] by {
                        assert(self@[p] == gpre[p]);
                    }
                }
                j += 1;
            }
            proof {
                crate::graph::lemma_lc_pair_row_end_all(ms, i as int);
            }
            i += 1;
        }
        let ghost g2 = self@;
        self.vop_mul_right_at(node, u);
        proof {
            assert forall|a: usize, b: usize|
                (a as int) < n && (b as int) < n && a != b implies (#[trigger] edge(self@, a, b)
                <==> (if (a == node || nb.contains(a)) && (b == node || nb.contains(b)) {
                !edge(g0, a, b)
            } else {
                edge(g0, a, b)
            })) by {
                assert(self@[a as int].adj == g2[a as int].adj);
                assert(edge(g2, a, b) <==> (if crate::graph::lc_pair_done(
                    ms,
                    mlen as int,
                    0,
                    a,
                    b,
                ) {
                    !edge(g1, a, b)
                } else {
                    edge(g1, a, b)
                }));
                crate::graph::lemma_lc_pair_done_full(ms, a, b);
                vstd::seq_lib::lemma_seq_contains_after_push(nb, node, a);
                vstd::seq_lib::lemma_seq_contains_after_push(nb, node, b);
                assert(edge(g1, a, b) == edge(g0, a, b)) by {
                    assert(g1[a as int].adj == g0[a as int].adj);
                }
            }
            assert(self@[node as int].vop == mul_spec(g0[node as int].vop, s_or_sdag(res))) by {
                assert(!nb.contains(node));
                assert(g1[node as int].vop == g0[node as int].vop);
                assert(g2[node as int].vop == g1[node as int].vop);
            }
            assert forall|j2: int|
                0 <= j2 < n && j2 != node as int && nb.contains(j2 as usize) implies (
            #[trigger] self@[j2]).vop == mul_spec(g0[j2].vop, s_or_sdag(res)) by {
                assert(nb.take(len as int).contains(j2 as usize));
                assert(g1[j2].vop == mul_spec(g0[j2].vop, s_or_sdag(res)));
                assert(g2[j2].vop == g1[j2].vop);
                assert(self@[j2].vop == g2[j2].vop);
            }
            assert forall|j2: int|
                0 <= j2 < n && j2 != node as int && !nb.contains(j2 as usize) implies (
            #[trigger] self@[j2]) == g0[j2] by {
                assert(!ms.contains(j2 as usize)) by {
                    vstd::seq_lib::lemma_seq_contains_after_push(nb, node, j2 as usize);
                }
                assert(g2[j2] == g1[j2]);
                assert(g1[j2].vop == g0[j2].vop) by {
                    assert(!nb.take(len as int).contains(j2 as usize));
                }
                assert(g1[j2].adj == g0[j2].adj);
                assert(self@[j2] == g2[j2]);
                assert(g1[j2] == g0[j2]);
            }
        }
        res
    }

    /// Measurement of `node` in the X basis of the graph frame. On an
    /// isolated node the outcome is +1 with certainty and nothing moves;
    /// otherwise the outcome is sampled and the state is rewritten exactly
    /// as `measure_x_post` says: per-outcome operator corrections on the
    /// first listed neighbor, the node and third parties, then the
    /// three-stage edge rewrite over the two neighborhoods. Nodes that
    /// start out isolated are never touched.
    pub(crate) fn int_measure_x(&mut self, node: usize) -> (r: (MeasurementResult, bool))
        requires
            wf(old(self)@),
            (node as int) < old(self)@.len(),
        ensures
            wf(final(self)@),
            final(self)@.len() == old(self)@.len(),
            r.1 == (old(self)@[node as int].adj.len() == 0),
            old(self)@[node as int].adj.len() == 0 ==> final(self)@ == old(self)@ && r.0
                == MeasurementResult::PlusOne,
            old(self)@[node as int].adj.len() > 0 ==> measure_x_post(
                old(self)@,
                final(self)@,
                node,
                r.0,
            ),
            forall|j: int|
                0 <= j < old(self)@.len() && j != node as int && old(self)@[j].adj.len() == 0
                    ==> final(self)@[j] == old(self)@[j],
    {
        let ghost g0 = self@;
        let ghost n = g0.len();
        proof {
            crate::graph::lemma_len_bounded(self);
            assert(node_wf(g0, node as int));
        }
        if self.index(node).len() == 0 {
            return (MeasurementResult::PlusOne, true);
        }
        let res = random_result();
        let node_nbs = self.index(node).neighbors();
        let other = node_nbs[0];
        proof {
            assert(node_nbs@.contains(other)) by {
                assert(node_nbs@[0] == other);
            }
        }
        let other_nbs = self.index(other).neighbors();
        let ghost nset = node_nbs@;
        let ghost oset = other_nbs@;
        proof {
            assert forall|y: usize| #[trigger] nset.contains(y) implies (y as int) < n && y != node
                && g0[y as int].adj.len() > 0 by {
                assert(edge(g0, node, y));
                assert(edge(g0, y, node));
                let p = choose|p: int| 0 <= p < g0[y as int].adj.len() && g0[y as int].adj[p] == node;
            }
            assert(node_wf(g0, other as int));
            assert forall|y: usize| #[trigger] oset.contains(y) implies (y as int) < n && y != other
                && g0[y as int].adj.len() > 0 by {
                assert(edge(g0, other, y));
                assert(edge(g0, y, other));
                let p = choose|p: int|
                    0 <= p < g0[y as int].adj.len() && g0[y as int].adj[p] == other;
            }
            assert(g0[node as int].adj.len() > 0);
        }
        let nlen = node_nbs.len();
        let olen = other_nbs.len();
        // vertex operator corrections for the sampled outcome
        match res {
            MeasurementResult::PlusOne => {
                self.vop_mul_right_at(other, Vop::ZC);
                let mut i: usize = 0;
                while i < nlen
                    invariant
                        wf(self@),
                        self@.len() == n,
                        n == g0.len(),
                        n <= usize::MAX,
                        wf(g0),
                        (node as int) < n,
                        (other as int) < n,
                        node != other,
                        nset == g0[node as int].adj,
                        oset == g0[other as int].adj,
                        nset.no_duplicates(),
                        nlen == nset.len(),
                        node_nbs@ == nset,
                        other_nbs@ == oset,
                        i <= nlen,
                        forall|y: usize| #[trigger] nset.contains(y) ==> (y as int) < n && y != node,
                        forall|j: int| 0 <= j < n ==> (#[trigger] self@[j]).adj == g0[j].adj,
                        forall|j: int|
                            0 <= j < n ==> (#[trigger] self@[j]).vop == (if j == other as int {
                                mul_spec(g0[j].vop, Vop::ZC)
                            } else if j != node as int && nset.take(i as int).contains(j as usize)
                                && !oset.contains(j as usize) {
                                mul_spec(g0[j].vop, Z_GATE)
                            } else {
                                g0[j].vop
                            }),
                    decreases nlen - i,
                {
                    let third = node_nbs[i];
                    let ghost gpre = self@;
                    proof {
                        assert(nset.contains(nset[i as int]));
                        assert(!nset.take(i as int).contains(nset[i as int])) by {
                            if nset.take(i as int).contains(nset[i as int]) {
                                let p = choose|p: int|
                                    0 <= p < i as int && nset.take(i as int)[p] == nset[i as int];
                                assert(nset[p] == nset[i as int]);
                            }
                        }
                    }
                    let adj_here = self.index(other).is_adjacent(third);
                    if third != other && !adj_here {
                        self.vop_mul_right_at(third, Z_GATE);
                    }
                    proof {
                        assert(nset.take(i + 1 as int) =~= nset.take(i as int).push(
                            nset[i as int],
                        ));
                        assert forall|j: int| 0 <= j < n implies (#[trigger] self@[j]).vop == (
                        if j == other as int {
                            mul_spec(g0[j].vop, Vop::ZC)
                        } else if j != node as int && nset.take(i + 1 as int).contains(j as usize)
                            && !oset.contains(j as usize) {
                            mul_spec(g0[j].vop, Z_GATE)
                        } else {
                            g0[j].vop
                        }) by {
                            vstd::seq_lib::lemma_seq_contains_after_push(
                                nset.take(i as int),
                                nset[i as int],
                                j as usize,
                            );
                            if j != third as int {
                                assert(self@[j].vop == gpre[j].vop);
                            }
                        }
                    }
                    i += 1;
                }
                proof {
                    assert(nset.take(nlen as int) =~= nset);
                    assert forall|j: int| 0 <= j < n implies (#[trigger] self@[j]).vop
                        == x_vop_after(g0, node, other, res, j) by {}
                }
            },
            MeasurementResult::MinusOne => {
                self.vop_mul_right_at(other, Vop::XC);
                self.vop_mul_right_at(node, Vop::ZA);
                let mut i: usize = 0;
                while i < olen
                    invariant
                        wf(self@),
                        self@.len() == n,
                        n == g0.len(),
                        n <= usize::MAX,
                        wf(g0),
                        (node as int) < n,
                        (other as int) < n,
                        node != other,
                        nset == g0[node as int].adj,
                        oset == g0[other as int].adj,
                        oset.no_duplicates(),
                        olen == oset.len(),
                        node_nbs@ == nset,
                        other_nbs@ == oset,
                        i <= olen,
                        forall|y: usize| #[trigger]
                            oset.contains(y) ==> (y as int) < n && y != other,
                        forall|j: int| 0 <= j < n ==> (#[trigger] self@[j]).adj == g0[j].adj,
                        forall|j: int|
                            0 <= j < n ==> (#[trigger] self@[j]).vop == (if j == other as int {
                                mul_spec(g0[j].vop, Vop::XC)
                            } else if j == node as int {
                                mul_spec(g0[j].vop, Vop::ZA)
                            } else if oset.take(i as int).contains(j as usize) && !nset.contains(
                                j as usize,
                            ) {
                                mul_spec(g0[j].vop, Z_GATE)
                            } else {
                                g0[j].vop
                            }),
                    decreases olen - i,
                {
                    let third = other_nbs[i];
                    let ghost gpre = self@;
                    proof {
                        assert(oset.contains(oset[i as int]));
                        assert(!oset.take(i as int).contains(oset[i as int])) by {
                            if oset.take(i as int).contains(oset[i as int]) {
                                let p = choose|p: int|
                                    0 <= p < i as int && oset.take(i as int)[p] == oset[i as int];
                                assert(oset[p] == oset[i as int]);
                            }
                        }
                    }
                    let adj_here = self.index(node).is_adjacent(third);
                    if third != node && !adj_here {
                        self.vop_mul_right_at(third, Z_GATE);
                    }
                    proof {
                        assert(oset.take(i + 1 as int) =~= oset.take(i as int).push(
                            oset[i as int],
                        ));
                        assert forall|j: int| 0 <= j < n implies (#[trigger] self@[j]).vop == (
                        if j == other as int {
                            mul_spec(g0[j].vop, Vop::XC)
                        } else if j == node as int {
                            mul_spec(g0[j].vop, Vop::ZA)
                        } else if oset.take(i + 1 as int).contains(j as usize) && !nset.contains(
                            j as usize,
                        ) {
                            mul_spec(g0[j].vop, Z_GATE)
                        } else {
                            g0[j].vop
                        }) by {
                            vstd::seq_lib::lemma_seq_contains_after_push(
                                oset.take(i as int),
                                oset[i as int],
                                j as usize,
                            );
                            if j != third as int {
                                assert(self@[j].vop == gpre[j].vop);
                            }
                        }
                    }
                    i += 1;
                }
                proof {
                    assert(oset.take(olen as int) =~= oset);
                    assert forall|j: int| 0 <= j < n implies (#[trigger] self@[j]).vop
                        == x_vop_after(g0, node, other, res, j) by {}
                }
            },
        }
        let ghost gv = self@;
        // first rewrite stage: toggles between the two neighborhoods, each
        // unordered pair once
        let mut procced: Vec<(usize, usize)> = Vec::new();
        let mut i: usize = 0;
        while i < nlen
            invariant
                wf(self@),
                self@.len() == n,
                n == g0.len(),
                n <= usize::MAX,
                wf(gv),
                gv.len() == n,
                (node as int) < n,
                (other as int) < n,
                node != other,
                nlen == nset.len(),
                olen == oset.len(),
                node_nbs@ == nset,
                other_nbs@ == oset,
                i <= nlen,
                forall|y: usize| #[trigger] nset.contains(y) ==> (y as int) < n && y != node,
                forall|y: usize| #[trigger] oset.contains(y) ==> (y as int) < n && y != other,
                forall|j: int| 0 <= j < n ==> (#[trigger] self@[j]).vop == gv[j].vop,
                forall|j: int|
                    0 <= j < n && j != node as int && j != other as int && !nset.contains(
                        j as usize,
                    ) && !oset.contains(j as usize) ==> (#[trigger] self@[j]) == gv[j],
                forall|a: usize, b: usize|
                    (a as int) < n && (b as int) < n && a != b ==> (#[trigger] edge(self@, a, b)
                        <==> flip_if(edge(gv, a, b), xw_done(nset, oset, i as int, 0, a, b))),
                forall|x: usize, y: usize| #[trigger]
                    procced@.contains((x, y)) <==> (x < y && xw_done(
                        nset,
                        oset,
                        i as int,
                        0,
                        x,
                        y,
                    )),
            decreases nlen - i,
        {
            let nval = node_nbs[i];
            proof {
                assert(nset.contains(nset[i as int]));
            }
            let mut j: usize = 0;
            while j < olen
                invariant
                    wf(self@),
                    self@.len() == n,
                    n == g0.len(),
                    n <= usize::MAX,
                    wf(gv),
                    gv.len() == n,
                    (node as int) < n,
                    (other as int) < n,
                    node != other,
                    nlen == nset.len(),
                    olen == oset.len(),
                    node_nbs@ == nset,
                    other_nbs@ == oset,
                    i < nlen,
                    j <= olen,
                    nval == nset[i as int],
                    nset.contains(nval),
                    forall|y: usize| #[trigger] nset.contains(y) ==> (y as int) < n && y != node,
                    forall|y: usize| #[trigger] oset.contains(y) ==> (y as int) < n && y != other,
                    forall|p: int| 0 <= p < n ==> (#[trigger] self@[p]).vop == gv[p].vop,
                    forall|p: int|
                        0 <= p < n && p != node as int && p != other as int && !nset.contains(
                            p as usize,
                        ) && !oset.contains(p as usize) ==> (#[trigger] self@[p]) == gv[p],
                    forall|a: usize, b: usize|
                        (a as int) < n && (b as int) < n && a != b ==> (#[trigger] edge(
                            self@,
                            a,
                            b,
                        ) <==> flip_if(
                            edge(gv, a, b),
                            xw_done(nset, oset, i as int, j as int, a, b),
                        )),
                    forall|x: usize, y: usize| #[trigger]
                        procced@.contains((x, y)) <==> (x < y && xw_done(
                            nset,
                            oset,
                            i as int,
                            j as int,
                            x,
                            y,
                        )),
                decreases olen - j,
            {
                let oval = other_nbs[j];
                proof {
                    assert(oset.contains(oset[j as int]));
                }
                let combined = if nval < oval {
                    (nval, oval)
                } else {
                    (oval, nval)
                };
                let already = pair_contains(&procced, combined);
                if nval != oval && !already {
                    let ghost gpre = self@;
                    let ghost ppre = procced@;
                    procced.push(combined);
                    self.toggle_edge(combined.0, combined.1);
                    proof {
                        assert(!xw_done(nset, oset, i as int, j as int, combined.0, combined.1));
                        assert forall|a: usize, b: usize|
                            (a as int) < n && (b as int) < n && a != b implies (#[trigger] edge(
                            self@,
                            a,
                            b,
                        ) <==> flip_if(
                            edge(gv, a, b),
                            xw_done(nset, oset, i as int, j + 1 as int, a, b),
                        )) by {
                            if (a == nval && b == oval) || (a == oval && b == nval) {
                                assert(edge(self@, a, b) == !edge(gpre, a, b));
                                assert(xw_done(nset, oset, i as int, j + 1 as int, a, b)) by {
                                    assert(0 <= (i as int) < nset.len() && 0 <= (j as int)
                                        < oset.len() && nset[i as int] != oset[j as int] && ((
                                    nset[i as int] == a && oset[j as int] == b) || (nset[i as int]
                                        == b && oset[j as int] == a)));
                                }
                                assert(!xw_done(nset, oset, i as int, j as int, a, b)) by {
                                    if xw_done(nset, oset, i as int, j as int, a, b) {
                                        let (p, q) = choose|p: int, q: int|
                                            0 <= p < nset.len() && 0 <= q < oset.len() && (p
                                                < i as int || (p == i as int && q < j as int))
                                                && nset[p] != oset[q] && ((nset[p] == a && oset[q]
                                                == b) || (nset[p] == b && oset[q] == a));
                                        assert(0 <= p < nset.len() && 0 <= q < oset.len() && (p
                                            < i as int || (p == i as int && q < j as int))
                                            && nset[p] != oset[q] && ((nset[p] == combined.0
                                            && oset[q] == combined.1) || (nset[p] == combined.1
                                            && oset[q] == combined.0)));
                                        assert(xw_done(
                                            nset,
                                            oset,
                                            i as int,
                                            j as int,
                                            combined.0,
                                            combined.1,
                                        ));
                                    }
                                }
                            } else {
                                assert(edge(self@, a, b) == edge(gpre, a, b)) by {
                                    if a != combined.0 && a != combined.1 {
                                        assert(self@[a as int] == gpre[a as int]);
                                    }
                                }
                                assert(xw_done(nset, oset, i as int, j + 1 as int, a, b)
                                    == xw_done(nset, oset, i as int, j as int, a, b)) by {
                                    if xw_done(nset, oset, i as int, j + 1 as int, a, b) {
                                        let (p, q) = choose|p: int, q: int|
                                            0 <= p < nset.len() && 0 <= q < oset.len() && (p
                                                < i as int || (p == i as int && q < j + 1 as int))
                                                && nset[p] != oset[q] && ((nset[p] == a && oset[q]
                                                == b) || (nset[p] == b && oset[q] == a));
                                        if p == i as int && q == j as int {
                                            assert((a == nval && b == oval) || (a == oval && b
                                                == nval));
                                        } else {
                                            assert(p < i as int || (p == i as int && q
                                                < j as int));
                                            assert(xw_done(nset, oset, i as int, j as int, a, b));
                                        }
                                    }
                                    if xw_done(nset, oset, i as int, j as int, a, b) {
                                        let (p, q) = choose|p: int, q: int|
                                            0 <= p < nset.len() && 0 <= q < oset.len() && (p
                                                < i as int || (p == i as int && q < j as int))
                                                && nset[p] != oset[q] && ((nset[p] == a && oset[q]
                                                == b) || (nset[p] == b && oset[q] == a));
                                        assert(p < i as int || (p == i as int && q < j
                                            + 1 as int));
                                        assert(xw_done(nset, oset, i as int, j + 1 as int, a, b));
                                    }
                                }
                            }
                        }
                        assert forall|x: usize, y: usize| #[trigger]
                            procced@.contains((x, y)) <==> (x < y && xw_done(
                                nset,
                                oset,
                                i as int,
                                j + 1 as int,
                                x,
                                y,
                            )) by {
                            vstd::seq_lib::lemma_seq_contains_after_push(ppre, combined, (x, y));
                            if (x, y) == combined {
                                assert(procced@.contains((x, y)));
                                assert(x < y);
                                assert(xw_done(nset, oset, i as int, j + 1 as int, x, y)) by {
                                    assert(0 <= (i as int) < nset.len() && 0 <= (j as int)
                                        < oset.len() && nset[i as int] != oset[j as int] && ((
                                    nset[i as int] == x && oset[j as int] == y) || (nset[i as int]
                                        == y && oset[j as int] == x)));
                                }
                            } else {
                                assert(procced@.contains((x, y)) == ppre.contains((x, y)));
                                if (x, y) == (combined.1, combined.0) {
                                    assert(!(x < y));
                                    assert(!ppre.contains((x, y))) by {
                                        if ppre.contains((x, y)) {
                                            assert(x < y && xw_done(
                                                nset,
                                                oset,
                                                i as int,
                                                j as int,
                                                x,
                                                y,
                                            ));
                                        }
                                    }
                                } else {
                                    assert(xw_done(nset, oset, i as int, j + 1 as int, x, y)
                                        == xw_done(nset, oset, i as int, j as int, x, y)) by {
                                        if xw_done(nset, oset, i as int, j + 1 as int, x, y) {
                                            let (p, q) = choose|p: int, q: int|
                                                0 <= p < nset.len() && 0 <= q < oset.len() && (p
                                                    < i as int || (p == i as int && q < j
                                                    + 1 as int)) && nset[p] != oset[q] && ((
                                                nset[p] == x && oset[q] == y) || (nset[p] == y
                                                    && oset[q] == x));
                                            if p == i as int && q == j as int {
                                                assert((x == nval && y == oval) || (x == oval && y
                                                    == nval));
                                                assert((x, y) == combined || (x, y) == (
                                                combined.1,
                                                combined.0,
                                                ));
                                            } else {
                                                assert(p < i as int || (p == i as int && q
                                                    < j as int));
                                                assert(xw_done(
                                                    nset,
                                                    oset,
                                                    i as int,
                                                    j as int,
                                                    x,
                                                    y,
                                                ));
                                            }
                                        }
                                        if xw_done(nset, oset, i as int, j as int, x, y) {
                                            let (p, q) = choose|p: int, q: int|
                                                0 <= p < nset.len() && 0 <= q < oset.len() && (p
                                                    < i as int || (p == i as int && q < j as int))
                                                    && nset[p] != oset[q] && ((nset[p] == x
                                                    && oset[q] == y) || (nset[p] == y && oset[q]
                                                    == x));
                                            assert(p < i as int || (p == i as int && q < j
                                                + 1 as int));
                                            assert(xw_done(
                                                nset,
                                                oset,
                                                i as int,
                                                j + 1 as int,
                                                x,
                                                y,
                                            ));
                                        }
                                    }
                                }
                            }
                        }
                        assert forall|p: int|
                            0 <= p < n && p != node as int && p != other as int && !nset.contains(
                                p as usize,
                            ) && !oset.contains(p as usize) implies (#[trigger] self@[p])
                            == gv[p] by {
                            assert(self@[p] == gpre[p]);
                        }
                        assert forall|p: int| 0 <= p < n implies (#[trigger] self@[p]).vop
                            == gv[p].vop by {
                            if p != combined.0 as int && p != combined.1 as int {
                                assert(self@[p] == gpre[p]);
                            } else {
                                assert(self@[p].vop == gpre[p].vop);
                            }
                        }
                    }
                } else {
                    proof {
                        assert forall|a: usize, b: usize| #[trigger]
                            xw_done(nset, oset, i as int, j + 1 as int, a, b) == xw_done(
                            nset,
                            oset,
                            i as int,
                            j as int,
                            a,
                            b,
                        ) by {
                            if xw_done(nset, oset, i as int, j + 1 as int, a, b) {
                                let (p, q) = choose|p: int, q: int|
                                    0 <= p < nset.len() && 0 <= q < oset.len() && (p < i as int
                                        || (p == i as int && q < j + 1 as int)) && nset[p]
                                        != oset[q] && ((nset[p] == a && oset[q] == b) || (nset[p]
                                        == b && oset[q] == a));
                                if p == i as int && q == j as int {
                                    assert(nval != oval);
                                    assert(procced@.contains(combined));
                                    assert(xw_done(
                                        nset,
                                        oset,
                                        i as int,
                                        j as int,
                                        combined.0,
                                        combined.1,
                                    ));
                                    let (p2, q2) = choose|p2: int, q2: int|
                                        0 <= p2 < nset.len() && 0 <= q2 < oset.len() && (p2
                                            < i as int || (p2 == i as int && q2 < j as int))
                                            && nset[p2] != oset[q2] && ((nset[p2] == combined.0
                                            && oset[q2] == combined.1) || (nset[p2] == combined.1
                                            && oset[q2] == combined.0));
                                    assert((nset[p2] == a && oset[q2] == b) || (nset[p2] == b
                                        && oset[q2] == a));
                                    assert(xw_done(nset, oset, i as int, j as int, a, b));
                                } else {
                                    assert(p < i as int || (p == i as int && q < j as int));
                                    assert(xw_done(nset, oset, i as int, j as int, a, b));
                                }
                            }
                            if xw_done(nset, oset, i as int, j as int, a, b) {
                                let (p, q) = choose|p: int, q: int|
                                    0 <= p < nset.len() && 0 <= q < oset.len() && (p < i as int
                                        || (p == i as int && q < j as int)) && nset[p] != oset[q]
                                        && ((nset[p] == a && oset[q] == b) || (nset[p] == b
                                        && oset[q] == a));
                                assert(p < i as int || (p == i as int && q < j + 1 as int));
                                assert(xw_done(nset, oset, i as int, j + 1 as int, a, b));
                            }
                        }
                    }
                }
                j += 1;
            }
            proof {
                lemma_xw_row_end(nset, oset, i as int);
            }
            i += 1;
        }
        let ghost gp1 = self@;
        // second rewrite stage: toggles inside the intersection of the two
        // neighborhoods
        let mut intersection: Vec<usize> = Vec::new();
        let mut i2: usize = 0;
        while i2 < nlen
            invariant
                nlen == nset.len(),
                node_nbs@ == nset,
                other_nbs@ == oset,
                i2 <= nlen,
                nset.no_duplicates(),
                intersection@.no_duplicates(),
                forall|y: usize| #[trigger]
                    intersection@.contains(y) <==> (nset.take(i2 as int).contains(y)
                        && oset.contains(y)),
            decreases nlen - i2,
        {
            let cand = node_nbs[i2];
            proof {
                assert(!nset.take(i2 as int).contains(nset[i2 as int])) by {
                    if nset.take(i2 as int).contains(nset[i2 as int]) {
                        let p = choose|p: int|
                            0 <= p < i2 as int && nset.take(i2 as int)[p] == nset[i2 as int];
                        assert(nset[p] == nset[i2 as int]);
                    }
                }
            }
            let ghost iprev = intersection@;
            let inos = crate::graph::vec_contains(&other_nbs, cand);
            if inos {
                proof {
                    lemma_push_no_duplicates(iprev, cand);
                }
                intersection.push(cand);
            }
            proof {
                assert(nset.take(i2 + 1 as int) =~= nset.take(i2 as int).push(nset[i2 as int]));
                assert forall|y: usize| #[trigger]
                    intersection@.contains(y) <==> (nset.take(i2 + 1 as int).contains(y)
                        && oset.contains(y)) by {
                    vstd::seq_lib::lemma_seq_contains_after_push(
                        nset.take(i2 as int),
                        nset[i2 as int],
                        y,
                    );
                    if inos {
                        vstd::seq_lib::lemma_seq_contains_after_push(iprev, cand, y);
                    }
                }
            }
            i2 += 1;
        }
        let ghost iset = intersection@;
        proof {
            assert(nset.take(nlen as int) =~= nset);
            assert forall|y: usize| #[trigger]
                iset.contains(y) <==> (nset.contains(y) && oset.contains(y)) by {}
            assert forall|p: int| 0 <= p < iset.len() implies ((#[trigger] iset[p]) as int)
                < n by {
                assert(iset.contains(iset[p]));
            }
        }
        let ilen = intersection.len();
        let mut i3: usize = 0;
        while i3 < ilen
            invariant
                wf(self@),
                self@.len() == n,
                n == g0.len(),
                n <= usize::MAX,
                gp1.len() == n,
                (node as int) < n,
                (other as int) < n,
                ilen == iset.len(),
                intersection@ == iset,
                i3 <= ilen,
                iset.no_duplicates(),
                forall|p: int| 0 <= p < iset.len() ==> ((#[trigger] iset[p]) as int) < n,
                forall|y: usize| #[trigger] iset.contains(y) <==> (nset.contains(y) && oset.contains(y)),
                forall|y: usize| #[trigger] nset.contains(y) ==> (y as int) < n && y != node,
                forall|y: usize| #[trigger] oset.contains(y) ==> (y as int) < n && y != other,
                forall|p: int| 0 <= p < n ==> (#[trigger] self@[p]).vop == gp1[p].vop,
                forall|p: int|
                    0 <= p < n && !iset.contains(p as usize) ==> (#[trigger] self@[p]) == gp1[p],
                forall|a: usize, b: usize|
                    (a as int) < n && (b as int) < n && a != b ==> (#[trigger] edge(self@, a, b)
                        <==> flip_if(
                        edge(gp1, a, b),
                        crate::graph::lc_pair_done(iset, i3 as int, 0, a, b),
                    )),
            decreases ilen - i3,
        {
            let va = intersection[i3];
            proof {
                assert(iset.contains(iset[i3 as int]));
            }
            let mut j3: usize = i3 + 1;
            while j3 < ilen
                invariant
                    wf(self@),
                    self@.len() == n,
                    n == g0.len(),
                    n <= usize::MAX,
                    gp1.len() == n,
                    (node as int) < n,
                    (other as int) < n,
                    ilen == iset.len(),
                    intersection@ == iset,
                    i3 < ilen,
                    i3 + 1 <= j3 <= ilen,
                    va == iset[i3 as int],
                    iset.no_duplicates(),
                    forall|p: int| 0 <= p < iset.len() ==> ((#[trigger] iset[p]) as int) < n,
                    forall|y: usize| #[trigger]
                        iset.contains(y) <==> (nset.contains(y) && oset.contains(y)),
                    forall|y: usize| #[trigger] nset.contains(y) ==> (y as int) < n && y != node,
                    forall|y: usize| #[trigger] oset.contains(y) ==> (y as int) < n && y != other,
                    forall|p: int| 0 <= p < n ==> (#[trigger] self@[p]).vop == gp1[p].vop,
                    forall|p: int|
                        0 <= p < n && !iset.contains(p as usize) ==> (#[trigger] self@[p])
                            == gp1[p],
                    forall|a: usize, b: usize|
                        (a as int) < n && (b as int) < n && a != b ==> (#[trigger] edge(
                            self@,
                            a,
                            b,
                        ) <==> flip_if(
                            edge(gp1, a, b),
                            crate::graph::lc_pair_done(iset, i3 as int, j3 as int, a, b),
                        )),
                decreases ilen - j3,
            {
                let vb = intersection[j3];
                proof {
                    assert(iset[i3 as int] != iset[j3 as int]);
                    assert(iset.contains(iset[i3 as int]));
                    assert(iset.contains(iset[j3 as int]));
                }
                let ghost gpre = self@;
                self.toggle_edge(va, vb);
                proof {
                    assert forall|a: usize, b: usize|
                        (a as int) < n && (b as int) < n && a != b implies (#[trigger] edge(
                        self@,
                        a,
                        b,
                    ) <==> flip_if(
                        edge(gp1, a, b),
                        crate::graph::lc_pair_done(iset, i3 as int, j3 + 1 as int, a, b),
                    )) by {
                        if (a == va && b == vb) || (a == vb && b == va) {
                            assert(edge(self@, a, b) == !edge(gpre, a, b));
                            assert(crate::graph::lc_pair_done(
                                iset,
                                i3 as int,
                                j3 + 1 as int,
                                a,
                                b,
                            )) by {
                                assert(0 <= i3 < j3 + 1 && ((iset[i3 as int] == a
                                    && iset[j3 as int] == b) || (iset[i3 as int] == b
                                    && iset[j3 as int] == a)));
                            }
                            assert(!crate::graph::lc_pair_done(iset, i3 as int, j3 as int, a, b))
                                by {
                                if crate::graph::lc_pair_done(iset, i3 as int, j3 as int, a, b) {
                                    let (p, q) = choose|p: int, q: int|
                                        0 <= p < q < iset.len() && (p < i3 as int || (p
                                            == i3 as int && q < j3 as int)) && ((iset[p] == a
                                            && iset[q] == b) || (iset[p] == b && iset[q] == a));
                                    if iset[p] == iset[i3 as int] {
                                        assert(p == i3 as int);
                                    } else {
                                        assert(iset[p] == iset[j3 as int]);
                                        assert(p == j3 as int);
                                    }
                                    if p == i3 as int {
                                        if iset[q] == iset[j3 as int] {
                                            assert(q == j3 as int);
                                        } else {
                                            assert(iset[q] == iset[i3 as int]);
                                            assert(q == i3 as int);
                                        }
                                    }
                                }
                            }
                        } else {
                            assert(edge(self@, a, b) == edge(gpre, a, b)) by {
                                if a != va && a != vb {
                                    assert(self@[a as int] == gpre[a as int]);
                                }
                            }
                            assert(crate::graph::lc_pair_done(iset, i3 as int, j3 + 1 as int, a, b)
                                == crate::graph::lc_pair_done(iset, i3 as int, j3 as int, a, b))
                                by {
                                if crate::graph::lc_pair_done(
                                    iset,
                                    i3 as int,
                                    j3 + 1 as int,
                                    a,
                                    b,
                                ) {
                                    let (p, q) = choose|p: int, q: int|
                                        0 <= p < q < iset.len() && (p < i3 as int || (p
                                            == i3 as int && q < j3 + 1 as int)) && ((iset[p] == a
                                            && iset[q] == b) || (iset[p] == b && iset[q] == a));
                                    if p == i3 as int && q == j3 as int {
                                        assert((a == va && b == vb) || (a == vb && b == va));
                                    } else {
                                        assert(p < i3 as int || (p == i3 as int && q < j3 as int));
                                        assert(crate::graph::lc_pair_done(
                                            iset,
                                            i3 as int,
                                            j3 as int,
                                            a,
                                            b,
                                        ));
                                    }
                                }
                                if crate::graph::lc_pair_done(iset, i3 as int, j3 as int, a, b) {
                                    let (p, q) = choose|p: int, q: int|
                                        0 <= p < q < iset.len() && (p < i3 as int || (p
                                            == i3 as int && q < j3 as int)) && ((iset[p] == a
                                            && iset[q] == b) || (iset[p] == b && iset[q] == a));
                                    assert(p < i3 as int || (p == i3 as int && q < j3 + 1 as int));
                                    assert(crate::graph::lc_pair_done(
                                        iset,
                                        i3 as int,
                                        j3 + 1 as int,
                                        a,
                                        b,
                                    ));
                                }
                            }
                        }
                    }
                    assert forall|p: int| 0 <= p < n implies (#[trigger] self@[p]).vop
                        == gp1[p].vop by {
                        if p != va as int && p != vb as int {
                            assert(self@[p] == gpre[p]);
                        } else {
                            assert(self@[p].vop == gpre[p].vop);
                        }
                    }
                    assert forall|p: int|
                        0 <= p < n && !iset.contains(p as usize) implies (#[trigger] self@[p])
                        == gp1[p] by {
                        assert(self@[p] == gpre[p]);
                    }
                }
                j3 += 1;
            }
            proof {
                crate::graph::lemma_lc_pair_row_end_all(iset, i3 as int);
            }
            i3 += 1;
        }
        let ghost gp2 = self@;
        // third rewrite stage: join the chosen neighbor to the rest of the
        // node's old neighborhood
        let mut i4: usize = 0;
        while i4 < nlen
            invariant
                wf(self@),
                self@.len() == n,
                n == g0.len(),
                n <= usize::MAX,
                gp2.len() == n,
                (node as int) < n,
                (other as int) < n,
                node != other,
                nlen == nset.len(),
                node_nbs@ == nset,
                nset.no_duplicates(),
                i4 <= nlen,
                forall|y: usize| #[trigger] nset.contains(y) ==> (y as int) < n && y != node,
                forall|p: int| 0 <= p < n ==> (#[trigger] self@[p]).vop == gp2[p].vop,
                forall|p: int|
                    0 <= p < n && p != other as int && !nset.contains(p as usize) ==> (
                    #[trigger] self@[p]) == gp2[p],
                forall|a: usize, b: usize|
                    (a as int) < n && (b as int) < n && a != b ==> (#[trigger] edge(self@, a, b)
                        <==> flip_if(edge(gp2, a, b), xs_done(nset, other, i4 as int, a, b))),
            decreases nlen - i4,
        {
            let nadj_i = node_nbs[i4];
            proof {
                assert(nset.contains(nset[i4 as int]));
            }
            if nadj_i != other {
                let ghost gpre = self@;
                self.toggle_edge(other, nadj_i);
                proof {
                    assert forall|a: usize, b: usize|
                        (a as int) < n && (b as int) < n && a != b implies (#[trigger] edge(
                        self@,
                        a,
                        b,
                    ) <==> flip_if(edge(gp2, a, b), xs_done(nset, other, i4 + 1 as int, a, b)))
                        by {
                        if (a == other && b == nadj_i) || (a == nadj_i && b == other) {
                            assert(edge(self@, a, b) == !edge(gpre, a, b));
                            assert(xs_done(nset, other, i4 + 1 as int, a, b)) by {
                                assert(0 <= (i4 as int) < i4 + 1 && (i4 as int) < nset.len()
                                    && nset[i4 as int] != other && ((a == other && b
                                    == nset[i4 as int]) || (b == other && a == nset[i4 as int])));
                            }
                            assert(!xs_done(nset, other, i4 as int, a, b)) by {
                                if xs_done(nset, other, i4 as int, a, b) {
                                    let p = choose|p: int|
                                        0 <= p < i4 as int && p < nset.len() && nset[p] != other
                                            && ((a == other && b == nset[p]) || (b == other && a
                                            == nset[p]));
                                    assert(nset[p] == nset[i4 as int]);
                                }
                            }
                        } else {
                            assert(edge(self@, a, b) == edge(gpre, a, b)) by {
                                if a != other && a != nadj_i {
                                    assert(self@[a as int] == gpre[a as int]);
                                }
                            }
                            assert(xs_done(nset, other, i4 + 1 as int, a, b) == xs_done(
                                nset,
                                other,
                                i4 as int,
                                a,
                                b,
                            )) by {
                                if xs_done(nset, other, i4 + 1 as int, a, b) {
                                    let p = choose|p: int|
                                        0 <= p < i4 + 1 as int && p < nset.len() && nset[p]
                                            != other && ((a == other && b == nset[p]) || (b
                                            == other && a == nset[p]));
                                    if p == i4 as int {
                                        assert((a == other && b == nadj_i) || (a == nadj_i && b
                                            == other));
                                    } else {
                                        assert(xs_done(nset, other, i4 as int, a, b));
                                    }
                                }
                                if xs_done(nset, other, i4 as int, a, b) {
                                    let p = choose|p: int|
                                        0 <= p < i4 as int && p < nset.len() && nset[p] != other
                                            && ((a == other && b == nset[p]) || (b == other && a
                                            == nset[p]));
                                    assert(0 <= p < i4 + 1 as int && p < nset.len() && nset[p]
                                        != other && ((a == other && b == nset[p]) || (b == other
                                        && a == nset[p])));
                                }
                            }
                        }
                    }
                    assert forall|p: int| 0 <= p < n implies (#[trigger] self@[p]).vop
                        == gp2[p].vop by {
                        if p != other as int && p != nadj_i as int {
                            assert(self@[p] == gpre[p]);
                        } else {
                            assert(self@[p].vop == gpre[p].vop);
                        }
                    }
                    assert forall|p: int|
                        0 <= p < n && p != other as int && !nset.contains(p as usize) implies (
                    #[trigger] self@[p]) == gp2[p] by {
                        assert(self@[p] == gpre[p]);
                    }
                }
            } else {
                proof {
                    assert forall|a: usize, b: usize|
                        (a as int) < n && (b as int) < n && a != b implies (#[trigger] edge(
                        self@,
                        a,
                        b,
                    ) <==> flip_if(edge(gp2, a, b), xs_done(nset, other, i4 + 1 as int, a, b)))
                        by {
                        assert(xs_done(nset, other, i4 + 1 as int, a, b) == xs_done(
                            nset,
                            other,
                            i4 as int,
                            a,
                            b,
                        )) by {
                            if xs_done(nset, other, i4 + 1 as int, a, b) {
                                let p = choose|p: int|
                                    0 <= p < i4 + 1 as int && p < nset.len() && nset[p] != other
                                        && ((a == other && b == nset[p]) || (b == other && a
                                        == nset[p]));
                                assert(p != i4 as int);
                                assert(xs_done(nset, other, i4 as int, a, b));
                            }
                            if xs_done(nset, other, i4 as int, a, b) {
                                let p = choose|p: int|
                                    0 <= p < i4 as int && p < nset.len() && nset[p] != other && ((
                                    a == other && b == nset[p]) || (b == other && a == nset[p]));
                                assert(0 <= p < i4 + 1 as int && p < nset.len() && nset[p]
                                    != other && ((a == other && b == nset[p]) || (b == other && a
                                    == nset[p])));
                            }
                        }
                    }
                }
            }
            i4 += 1;
        }
        proof {
            assert forall|j: int| 0 <= j < n implies (#[trigger] self@[j]).vop == x_vop_after(
                g0,
                node,
                other,
                res,
                j,
            ) by {
                assert(self@[j].vop == gp2[j].vop);
                assert(gp2[j].vop == gp1[j].vop);
                assert(gp1[j].vop == gv[j].vop);
            }
            assert forall|a: usize, b: usize|
                (a as int) < n && (b as int) < n && a != b implies (#[trigger] edge(self@, a, b)
                <==> flip_if(
                flip_if(
                    flip_if(edge(g0, a, b), x_between(nset, oset, a, b)),
                    x_inter(nset, oset, a, b),
                ),
                x_spoke(nset, other, a, b),
            )) by {
                lemma_xs_full(nset, other, a, b);
                crate::graph::lemma_lc_pair_done_full(iset, a, b);
                lemma_xw_full(nset, oset, a, b);
                assert(edge(self@, a, b) <==> flip_if(
                    edge(gp2, a, b),
                    xs_done(nset, other, nlen as int, a, b),
                ));
                assert(edge(gp2, a, b) <==> flip_if(
                    edge(gp1, a, b),
                    crate::graph::lc_pair_done(iset, ilen as int, 0, a, b),
                ));
                assert(edge(gp1, a, b) <==> flip_if(
                    edge(gv, a, b),
                    xw_done(nset, oset, nlen as int, 0, a, b),
                ));
                assert(edge(gv, a, b) == edge(g0, a, b)) by {
                    assert(gv[a as int].adj == g0[a as int].adj);
                }
                assert(x_inter(nset, oset, a, b) == (iset.contains(a) && iset.contains(b) && a
                    != b));
            }
            assert forall|j: int|
                0 <= j < n && j != node as int && j != other as int && !nset.contains(j as usize)
                    && !oset.contains(j as usize) implies (#[trigger] self@[j]) == g0[j] by {
                assert(!iset.contains(j as usize));
                assert(self@[j] == gp2[j]);
                assert(gp2[j] == gp1[j]);
                assert(gp1[j] == gv[j]);
                assert(gv[j].adj == g0[j].adj);
                assert(gv[j].vop == g0[j].vop);
            }
            assert(measure_x_post(g0, self@, node, res)) by {
                assert(g0[node as int].adj[0] == other);
            }
            assert forall|j: int|
                0 <= j < n && j != node as int && g0[j].adj.len() == 0 implies (
            #[trigger] self@[j]) == g0[j] by {
                assert(!nset.contains(j as usize)) by {
                    if nset.contains(j as usize) {
                        assert(g0[j as int].adj.len() > 0);
                    }
                }
                assert(!oset.contains(j as usize)) by {
                    if oset.contains(j as usize) {
                        assert(g0[j as int].adj.len() > 0);
                    }
                }
                assert(j != other as int) by {
                    if j == other as int {
                        assert(edge(g0, node, other));
                        assert(edge(g0, other, node));
                        let p = choose|p: int|
                            0 <= p < g0[j].adj.len() && g0[j].adj[p] == node;
                    }
                }
            }
        }
        (res, false)
    }
}

/// What a graph-frame Z measurement of `node` with inner outcome `inner`
/// does to the state: the node is cut loose, its operator picks up H (after
/// an X for a -1 outcome), each old neighbor picks up a Z exactly for -1,
/// everything else stands still.
pub open spec fn measure_z_post(
    g0: Seq<NodeV>,
    g1: Seq<NodeV>,
    node: usize,
    inner: MeasurementResult,
) -> bool {
    &&& g1[node as int].adj.len() == 0
    &&& g1[node as int].vop == (match inner {
        MeasurementResult::PlusOne => mul_spec(g0[node as int].vop, H_GATE),
        MeasurementResult::MinusOne => mul_spec(mul_spec(g0[node as int].vop, X_GATE), H_GATE),
    })
    &&& forall|j: int|
        0 <= j < g0.len() && j != node as int && g0[node as int].adj.contains(j as usize) ==> (
        #[trigger] g1[j]).vop == (match inner {
            MeasurementResult::PlusOne => g0[j].vop,
            MeasurementResult::MinusOne => mul_spec(g0[j].vop, Z_GATE),
        })
    &&& forall|j: int|
        0 <= j < g0.len() && j != node as int && !g0[node as int].adj.contains(j as usize)
            ==> g1[j] == g0[j]
    &&& forall|a: usize, b: usize|
        (a as int) < g0.len() && (b as int) < g0.len() && a != node && b != node ==> (
        #[trigger] edge(g1, a, b) <==> edge(g0, a, b))
}

/// What a graph-frame Y measurement of `node` with inner outcome `inner`
/// does to the state: the node and each neighbor pick up S (for +1) or
/// S-dagger (for -1), every edge inside the closed neighborhood is toggled,
/// everything else stands still.
pub open spec fn measure_y_post(
    g0: Seq<NodeV>,
    g1: Seq<NodeV>,
    node: usize,
    inner: MeasurementResult,
) -> bool {
    &&& g1[node as int].vop == mul_spec(g0[node as int].vop, s_or_sdag(inner))
    &&& forall|j: int|
        0 <= j < g0.len() && j != node as int && g0[node as int].adj.contains(j as usize) ==> (
        #[trigger] g1[j]).vop == mul_spec(g0[j].vop, s_or_sdag(inner))
    &&& forall|j: int|
        0 <= j < g0.len() && j != node as int && !g0[node as int].adj.contains(j as usize)
            ==> g1[j] == g0[j]
    &&& forall|a: usize, b: usize|
        (a as int) < g0.len() && (b as int) < g0.len() && a != b ==> (#[trigger] edge(g1, a, b)
            <==> (if (a == node || g0[node as int].adj.contains(a)) && (b == node
            || g0[node as int].adj.contains(b)) {
            !edge(g0, a, b)
        } else {
            edge(g0, a, b)
        }))
}

/// `base` with its truth value flipped when `flip` holds.
pub open spec fn flip_if(base: bool, flip: bool) -> bool {
    if flip {
        !base
    } else {
        base
    }
}

/// The first stage of the X-measurement rewrite toggles the unordered pair
/// {a, b}: one endpoint neighbors the measured node, the other its chosen
/// neighbor.
pub open spec fn x_between(nset: Seq<usize>, oset: Seq<usize>, a: usize, b: usize) -> bool {
    a != b && ((nset.contains(a) && oset.contains(b)) || (nset.contains(b) && oset.contains(a)))
}

/// The second stage toggles {a, b}: both endpoints neighbor the measured
/// node and its chosen neighbor alike.
pub open spec fn x_inter(nset: Seq<usize>, oset: Seq<usize>, a: usize, b: usize) -> bool {
    a != b && nset.contains(a) && oset.contains(a) && nset.contains(b) && oset.contains(b)
}

/// The third stage toggles {a, b}: the pair joins the chosen neighbor to
/// another neighbor of the measured node.
pub open spec fn x_spoke(nset: Seq<usize>, other: usize, a: usize, b: usize) -> bool {
    (a == other && b != other && nset.contains(b)) || (b == other && a != other && nset.contains(
        a,
    ))
}

/// The vertex operator node `j` carries after an X measurement of `node`
/// with inner outcome `inner`, when `other` is the chosen neighbor: the
/// neighbor picks up ZC (+1) or XC (-1); the node itself picks up ZA for
/// -1; a third party picks up a Z when it neighbors one of the two but not
/// the other, on the side the outcome selects.
pub open spec fn x_vop_after(
    g0: Seq<NodeV>,
    node: usize,
    other: usize,
    inner: MeasurementResult,
    j: int,
) -> Vop {
    let nset = g0[node as int].adj;
    let oset = g0[other as int].adj;
    if j == other as int {
        match inner {
            MeasurementResult::PlusOne => mul_spec(g0[j].vop, Vop::ZC),
            MeasurementResult::MinusOne => mul_spec(g0[j].vop, Vop::XC),
        }
    } else if j == node as int {
        match inner {
            MeasurementResult::PlusOne => g0[j].vop,
            MeasurementResult::MinusOne => mul_spec(g0[j].vop, Vop::ZA),
        }
    } else {
        match inner {
            MeasurementResult::PlusOne => if nset.contains(j as usize) && !oset.contains(
                j as usize,
            ) {
                mul_spec(g0[j].vop, Z_GATE)
            } else {
                g0[j].vop
            },
            MeasurementResult::MinusOne => if oset.contains(j as usize) && !nset.contains(
                j as usize,
            ) {
                mul_spec(g0[j].vop, Z_GATE)
            } else {
                g0[j].vop
            },
        }
    }
}

/// What a graph-frame X measurement of a `node` that has a neighbor does to
/// the state, for the inner outcome `inner`: with `other` the first listed
/// neighbor, every vertex operator is corrected per `x_vop_after`, and an
/// edge {a, b} is toggled once for each stage of the stabilizer rewrite
/// that covers it. Nodes away from the two neighborhoods are untouched.
pub open spec fn measure_x_post(
    g0: Seq<NodeV>,
    g1: Seq<NodeV>,
    node: usize,
    inner: MeasurementResult,
) -> bool {
    let other = g0[node as int].adj[0];
    let nset = g0[node as int].adj;
    let oset = g0[other as int].adj;
    &&& forall|j: int|
        0 <= j < g0.len() ==> (#[trigger] g1[j]).vop == x_vop_after(g0, node, other, inner, j)
    &&& forall|a: usize, b: usize|
        (a as int) < g0.len() && (b as int) < g0.len() && a != b ==> (#[trigger] edge(g1, a, b)
            <==> flip_if(
            flip_if(
                flip_if(edge(g0, a, b), x_between(nset, oset, a, b)),
                x_inter(nset, oset, a, b),
            ),
            x_spoke(nset, other, a, b),
        ))
    &&& forall|j: int|
        0 <= j < g0.len() && j != node as int && j != other as int && !nset.contains(j as usize)
            && !oset.contains(j as usize) ==> g1[j] == g0[j]
}

/// What a measurement of `node` in `axis` promises of the pair of old and
/// new state and the returned eigenvalue `r`, whatever the sampled outcome
/// was. The request is first conjugated through the adjoint of the node's
/// vertex operator; the routine the conjugated basis picks then acts with
/// the inner, unflipped outcome, and `r` flips it when the phase table says
/// Two.
pub open spec fn measure_post(
    g0: Seq<NodeV>,
    g1: Seq<NodeV>,
    node: usize,
    axis: Axis,
    r: MeasurementResult,
) -> bool {
    let a = adj_spec(g0[node as int].vop);
    let basis = conj_spec(axis, a);
    let inner = if zeta_spec(a, axis) == Zeta::Two {
        flipped(r)
    } else {
        r
    };
    &&& g1.len() == g0.len()
    &&& (basis == Axis::Z ==> measure_z_post(g0, g1, node, inner))
    &&& (basis == Axis::Y ==> measure_y_post(g0, g1, node, inner))
    &&& (basis == Axis::X && g0[node as int].adj.len() == 0 ==> g1 == g0 && r
        == deterministic_outcome(g0[node as int].vop, axis))
    &&& (basis == Axis::X && g0[node as int].adj.len() > 0 ==> measure_x_post(g0, g1, node, inner))
}

/// The pairs the first rewrite stage has walked so far: {a, b} stood, with
/// distinct values, at some position (p, q) of the two neighbor lists, in a
/// row before `i` or in row `i` before column `j`.
pub open spec fn xw_done(
    ns: Seq<usize>,
    os: Seq<usize>,
    i: int,
    j: int,
    a: usize,
    b: usize,
) -> bool {
    exists|p: int, q: int|
        0 <= p < ns.len() && 0 <= q < os.len() && (p < i || (p == i && q < j)) && ns[p] != os[q]
            && ((ns[p] == a && os[q] == b) || (ns[p] == b && os[q] == a))
}

/// Walking a row of the first stage to its end covers the same pairs as
/// standing at the start of the next row.
proof fn lemma_xw_row_end(ns: Seq<usize>, os: Seq<usize>, i: int)
    ensures
        forall|a: usize, b: usize| #[trigger]
            xw_done(ns, os, i, os.len() as int, a, b) == xw_done(ns, os, i + 1, 0, a, b),
{
    assert forall|a: usize, b: usize| #[trigger]
        xw_done(ns, os, i, os.len() as int, a, b) == xw_done(ns, os, i + 1, 0, a, b) by {
        if xw_done(ns, os, i, os.len() as int, a, b) {
            let (p, q) = choose|p: int, q: int|
                0 <= p < ns.len() && 0 <= q < os.len() && (p < i || (p == i && q < os.len()))
                    && ns[p] != os[q] && ((ns[p] == a && os[q] == b) || (ns[p] == b && os[q] == a));
            assert(0 <= p < ns.len() && 0 <= q < os.len() && p < i + 1 && ns[p] != os[q] && ((
            ns[p] == a && os[q] == b) || (ns[p] == b && os[q] == a)));
        }
        if xw_done(ns, os, i + 1, 0, a, b) {
            let (p, q) = choose|p: int, q: int|
                0 <= p < ns.len() && 0 <= q < os.len() && p < i + 1 && ns[p] != os[q] && ((ns[p]
                    == a && os[q] == b) || (ns[p] == b && os[q] == a));
            assert(0 <= p < ns.len() && 0 <= q < os.len() && (p < i || (p == i && q < os.len()))
                && ns[p] != os[q] && ((ns[p] == a && os[q] == b) || (ns[p] == b && os[q] == a)));
        }
    }
}

/// After the whole first stage the walked pairs are exactly those with one
/// end in each list.
proof fn lemma_xw_full(ns: Seq<usize>, os: Seq<usize>, a: usize, b: usize)
    ensures
        xw_done(ns, os, ns.len() as int, 0, a, b) == x_between(ns, os, a, b),
{
    if xw_done(ns, os, ns.len() as int, 0, a, b) {
        let (p, q) = choose|p: int, q: int|
            0 <= p < ns.len() && 0 <= q < os.len() && p < ns.len() && ns[p] != os[q] && ((ns[p]
                == a && os[q] == b) || (ns[p] == b && os[q] == a));
        assert(ns.contains(ns[p]));
        assert(os.contains(os[q]));
    }
    if x_between(ns, os, a, b) {
        if ns.contains(a) && os.contains(b) {
            let p = choose|p: int| 0 <= p < ns.len() && ns[p] == a;
            let q = choose|q: int| 0 <= q < os.len() && os[q] == b;
            assert(0 <= p < ns.len() && 0 <= q < os.len() && p < ns.len() as int && ns[p] != os[q]
                && ns[p] == a && os[q] == b);
            assert(xw_done(ns, os, ns.len() as int, 0, a, b));
        } else {
            let p = choose|p: int| 0 <= p < ns.len() && ns[p] == b;
            let q = choose|q: int| 0 <= q < os.len() && os[q] == a;
            assert(0 <= p < ns.len() && 0 <= q < os.len() && p < ns.len() as int && ns[p] != os[q]
                && ns[p] == b && os[q] == a);
            assert(xw_done(ns, os, ns.len() as int, 0, a, b));
        }
    }
}

/// The pairs the third rewrite stage has walked so far: {a, b} joins the
/// chosen neighbor to one of the first `i` listed neighbors of the node.
pub open spec fn xs_done(ns: Seq<usize>, other: usize, i: int, a: usize, b: usize) -> bool {
    exists|p: int|
        0 <= p < i && p < ns.len() && ns[p] != other && ((a == other && b == ns[p]) || (b == other
            && a == ns[p]))
}

/// After the whole third stage the walked pairs are exactly the spokes.
proof fn lemma_xs_full(ns: Seq<usize>, other: usize, a: usize, b: usize)
    ensures
        xs_done(ns, other, ns.len() as int, a, b) == x_spoke(ns, other, a, b),
{
    if xs_done(ns, other, ns.len() as int, a, b) {
        let p = choose|p: int|
            0 <= p < ns.len() as int && p < ns.len() && ns[p] != other && ((a == other && b
                == ns[p]) || (b == other && a == ns[p]));
        assert(ns.contains(ns[p]));
    }
    if x_spoke(ns, other, a, b) {
        if a == other && b != other && ns.contains(b) {
            let p = choose|p: int| 0 <= p < ns.len() && ns[p] == b;
            assert(0 <= p < ns.len() as int && p < ns.len() && ns[p] != other && a == other && b
                == ns[p]);
            assert(xs_done(ns, other, ns.len() as int, a, b));
        } else {
            let p = choose|p: int| 0 <= p < ns.len() && ns[p] == a;
            assert(0 <= p < ns.len() as int && p < ns.len() && ns[p] != other && b == other && a
                == ns[p]);
            assert(xs_done(ns, other, ns.len() as int, a, b));
        }
    }
}

/// What one turn of the peek loop promises: the clone moved from `st` to
/// `st2` by a measurement of `q` in the recorded axis with the recorded
/// result, and the axis was the deterministic one whenever `q` stood
/// isolated on the clone at its turn.
pub open spec fn peek_step(st: Seq<NodeV>, st2: Seq<NodeV>, q: usize, o: Outcome) -> bool {
    &&& measure_post(st, st2, q, o.axis, o.result)
    &&& st[q as int].adj.len() == 0 ==> o.axis == detm_spec(adj_spec(st[q as int].vop))
}

/// Measuring an isolated node along its deterministic axis always lands in
/// the X branch of the dispatch, the branch that asks no randomness and
/// leaves the state alone.
pub proof fn lemma_detm_axis_lands_in_x(a: Vop)
    ensures
        conj_spec(detm_spec(a), a) == Axis::X,
{
}

/// The eigenvalue an isolated node with vertex operator `v`, measured in
/// `axis`, returns with certainty when the dispatch lands in the X branch.
pub open spec fn deterministic_outcome(v: Vop, axis: Axis) -> MeasurementResult {
    if zeta_spec(adj_spec(v), axis) == Zeta::Two {
        MeasurementResult::MinusOne
    } else {
        MeasurementResult::PlusOne
    }
}

impl GraphSim {
    /// Projective measurement of `node` in the given Pauli basis: the
    /// request is conjugated through the node's vertex operator, dispatched
    /// to the matching graph-frame routine, and the eigenvalue is flipped
    /// when the phase table says so. The boolean names the outcome
    /// deterministic, which happens exactly when the conjugated basis is X
    /// and the node is isolated; the state is then untouched and the outcome
    /// is fixed by the node's operator. Nodes that start out isolated, other
    /// than `node`, are never touched.
    pub(crate) fn measure(&mut self, node: usize, axis: Axis) -> (r: (MeasurementResult, bool))
        requires
            wf(old(self)@),
            (node as int) < old(self)@.len(),
        ensures
            wf(final(self)@),
            final(self)@.len() == old(self)@.len(),
            r.1 == (conj_spec(axis, adj_spec(old(self)@[node as int].vop)) == Axis::X && old(
                self,
            )@[node as int].adj.len() == 0),
            measure_post(old(self)@, final(self)@, node, axis, r.0),
            forall|j: int|
                0 <= j < old(self)@.len() && j != node as int && old(self)@[j].adj.len() == 0
                    ==> final(self)@[j] == old(self)@[j],
    {
        let ghost g0 = self@;
        let a = self.index(node).vop().adj();
        let zeta = find_zeta(a, axis);
        let basis = axis.conj_through(a);
        proof {
            crate::graph::lemma_len_bounded(self);
            assert forall|j: int|
                0 <= j < g0.len() && j != node as int && g0[j].adj.len() == 0 implies !g0[node as int].adj.contains(
                j as usize,
            ) by {
                if g0[node as int].adj.contains(j as usize) {
                    assert(edge(g0, node, j as usize));
                    assert(edge(g0, j as usize, node));
                    let p = choose|p: int| 0 <= p < g0[j].adj.len() && g0[j].adj[p] == node;
                }
            }
        }
        let (res0, det) = match basis {
            Axis::X => self.int_measure_x(node),
            Axis::Y => (self.int_measure_y(node), false),
            Axis::Z => (self.int_measure_z(node), false),
        };
        let res = match zeta {
            Zeta::Two => flip(res0),
            Zeta::Zero => res0,
        };
        proof {
            let av = adj_spec(g0[node as int].vop);
            let inner = if zeta_spec(av, axis) == Zeta::Two {
                flipped(res)
            } else {
                res
            };
            assert(inner == res0) by {
                match res0 {
                    MeasurementResult::PlusOne => {},
                    MeasurementResult::MinusOne => {},
                }
            }
        }
        (res, det)
    }

    /// Measure `node` in the X basis. On an isolated node whose operator
    /// conjugates X to X the state is untouched and the outcome is fixed.
    pub fn measure_x(&mut self, node: usize) -> (res: MeasurementResult)
        requires
            wf(old(self)@),
            (node as int) < old(self)@.len(),
        ensures
            wf(final(self)@),
            final(self)@.len() == old(self)@.len(),
            measure_post(old(self)@, final(self)@, node, Axis::X, res),
            forall|j: int|
                0 <= j < old(self)@.len() && j != node as int && old(self)@[j].adj.len() == 0
                    ==> final(self)@[j] == old(self)@[j],
    {
        let (res, _) = self.measure(node, Axis::X);
        res
    }

    /// Measure `node` in the Y basis. On an isolated node whose operator
    /// conjugates Y to X the state is untouched and the outcome is fixed.
    pub fn measure_y(&mut self, node: usize) -> (res: MeasurementResult)
        requires
            wf(old(self)@),
            (node as int) < old(self)@.len(),
        ensures
            wf(final(self)@),
            final(self)@.len() == old(self)@.len(),
            measure_post(old(self)@, final(self)@, node, Axis::Y, res),
            forall|j: int|
                0 <= j < old(self)@.len() && j != node as int && old(self)@[j].adj.len() == 0
                    ==> final(self)@[j] == old(self)@[j],
    {
        let (res, _) = self.measure(node, Axis::Y);
        res
    }

    /// Measure `node` in the Z basis. On an isolated node whose operator
    /// conjugates Z to X the state is untouched and the outcome is fixed; a
    /// fresh |0> qubit is the plainest case and always answers +1.
    pub fn measure_z(&mut self, node: usize) -> (res: MeasurementResult)
        requires
            wf(old(self)@),
            (node as int) < old(self)@.len(),
        ensures
            wf(final(self)@),
            final(self)@.len() == old(self)@.len(),
            measure_post(old(self)@, final(self)@, node, Axis::Z, res),
            forall|j: int|
                0 <= j < old(self)@.len() && j != node as int && old(self)@[j].adj.len() == 0
                    ==> final(self)@[j] == old(self)@[j],
    {
        let (res, _) = self.measure(node, Axis::Z);
        res
    }

    /// Simulate measurements of the listed qubits without disturbing the
    /// state: the simulator is only read, and all measuring happens on a
    /// private copy. Each listed qubit is paired with the outcome and the
    /// axis used: the deterministic axis where the qubit is isolated, a
    /// uniformly random axis otherwise. A qubit that is isolated in the real
    /// state keeps its fixed axis and fixed outcome whatever else the list
    /// asks for.
    pub fn peek_measure_set(&self, qubits: &Vec<usize>) -> (r: Vec<(usize, Outcome)>)
        requires
            wf(self@),
            forall|k: int| 0 <= k < qubits@.len() ==> ((#[trigger] qubits@[k]) as int) < self@.len(),
        ensures
            r@.len() == qubits@.len(),
            forall|k: int| 0 <= k < r@.len() ==> (#[trigger] r@[k]).0 == qubits@[k],
            forall|k: int|
                0 <= k < r@.len() && self@[qubits@[k] as int].adj.len() == 0 ==> (
                #[trigger] r@[k]).1.axis == detm_spec(adj_spec(self@[qubits@[k] as int].vop)),
            forall|k: int|
                0 <= k < r@.len() && self@[qubits@[k] as int].adj.len() == 0 ==> (
                #[trigger] r@[k]).1.result == deterministic_outcome(
                    self@[qubits@[k] as int].vop,
                    detm_spec(adj_spec(self@[qubits@[k] as int].vop)),
                ),
            exists|chain: Seq<Seq<NodeV>>|
                {
                    &&& #[trigger] chain.len() == qubits@.len() + 1
                    &&& chain[0] == self@
                    &&& forall|k: int|
                        0 <= k < qubits@.len() ==> peek_step(
                            #[trigger] chain[k],
                            chain[k + 1],
                            qubits@[k],
                            r@[k].1,
                        )
                },
    {
        let ghost g = self@;
        let mut changeset = self.duplicate();
        let ghost mut chain: Seq<Seq<NodeV>> = seq![g];
        let mut out: Vec<(usize, Outcome)> = Vec::new();
        let mut k: usize = 0;
        while k < qubits.len()
            invariant
                wf(g),
                g == self@,
                wf(changeset@),
                changeset@.len() == g.len(),
                forall|p: int|
                    0 <= p < qubits@.len() ==> ((#[trigger] qubits@[p]) as int) < g.len(),
                k <= qubits@.len(),
                out@.len() == k,
                forall|j: int|
                    0 <= j < g.len() && g[j].adj.len() == 0 ==> (#[trigger] changeset@[j]) == g[j],
                forall|p: int| 0 <= p < k ==> (#[trigger] out@[p]).0 == qubits@[p],
                forall|p: int|
                    0 <= p < k && g[qubits@[p] as int].adj.len() == 0 ==> (#[trigger] out@[p]).1.axis
                        == detm_spec(adj_spec(g[qubits@[p] as int].vop)),
                forall|p: int|
                    0 <= p < k && g[qubits@[p] as int].adj.len() == 0 ==> (
                    #[trigger] out@[p]).1.result == deterministic_outcome(
                        g[qubits@[p] as int].vop,
                        detm_spec(adj_spec(g[qubits@[p] as int].vop)),
                    ),
                chain.len() == k + 1,
                chain[0] == g,
                chain[k as int] == changeset@,
                forall|p: int|
                    0 <= p < k ==> peek_step(
                        #[trigger] chain[p],
                        chain[p + 1],
                        qubits@[p],
                        out@[p].1,
                    ),
            decreases qubits@.len() - k,
        {
            let idx = qubits[k];
            let ghost cpre = changeset@;
            let axis = match changeset.find_deterministic(idx) {
                Some(ax) => ax,
                None => random_axis(),
            };
            proof {
                if g[idx as int].adj.len() == 0 {
                    assert(cpre[idx as int] == g[idx as int]);
                    assert(axis == detm_spec(adj_spec(cpre[idx as int].vop)));
                    lemma_detm_axis_lands_in_x(adj_spec(g[idx as int].vop));
                }
            }
            let (result, _) = changeset.measure(idx, axis);
            let ghost out_pre = out@;
            let ghost chain_pre = chain;
            out.push((idx, Outcome { result, axis }));
            proof {
                chain = chain.push(changeset@);
                assert(chain[k as int] == cpre);
                assert(chain[k + 1] == changeset@);
                assert(peek_step(chain[k as int], chain[k + 1], idx, out@[k as int].1)) by {
                    assert(out@[k as int] == (idx, Outcome { result, axis }));
                }
                assert forall|p: int|
                    0 <= p < k + 1 implies peek_step(
                    #[trigger] chain[p],
                    chain[p + 1],
                    qubits@[p],
                    out@[p].1,
                ) by {
                    if p < k as int {
                        assert(chain[p] == chain_pre[p]);
                        assert(chain[p + 1] == chain_pre[p + 1]);
                        assert(out@[p] == out_pre[p]);
                        assert(peek_step(chain_pre[p], chain_pre[p + 1], qubits@[p], out_pre[p].1));
                    }
                }
                assert forall|p: int| 0 <= p < k + 1 implies (#[trigger] out@[p]).0
                    == qubits@[p] by {
                    if p < k as int {
                        assert(out@[p] == out_pre[p]);
                    }
                }
                assert forall|j: int|
                    0 <= j < g.len() && g[j].adj.len() == 0 implies (#[trigger] changeset@[j])
                    == g[j] by {
                    if j != idx as int {
                        assert(cpre[j] == g[j]);
                    } else {
                        assert(cpre[idx as int] == g[idx as int]);
                    }
                }
            }
            k += 1;
        }
        proof {
            assert(exists|c: Seq<Seq<NodeV>>|
                {
                    &&& #[trigger] c.len() == qubits@.len() + 1
                    &&& c[0] == g
                    &&& forall|p: int|
                        0 <= p < qubits@.len() ==> peek_step(
                            #[trigger] c[p],
                            c[p + 1],
                            qubits@[p],
                            out@[p].1,
                        )
                }) by {
                assert(chain.len() == qubits@.len() + 1 && chain[0] == g && (forall|p: int|
                    0 <= p < qubits@.len() ==> peek_step(
                        #[trigger] chain[p],
                        chain[p + 1],
                        qubits@[p],
                        out@[p].1,
                    )));
            }
        }
        out
    }
}

/// A fresh qubit is |0>: it is isolated, its vertex operator conjugates a Z
/// request into the X branch of the dispatch, and no flip applies, so
/// measuring it in Z answers +1 with certainty.
pub proof fn lemma_fresh_measure_z_plus_one()
    ensures
        conj_spec(Axis::Z, adj_spec(Vop::YC)) == Axis::X,
        deterministic_outcome(Vop::YC, Axis::Z) == MeasurementResult::PlusOne,
{
}

/// One Hadamard takes a fresh qubit to |+>: while it stays isolated,
/// measuring it in X answers +1 with certainty.
pub proof fn lemma_fresh_h_measure_x_plus_one()
    ensures
        conj_spec(Axis::X, adj_spec(mul_spec(H_GATE, Vop::YC))) == Axis::X,
        deterministic_outcome(mul_spec(H_GATE, Vop::YC), Axis::X) == MeasurementResult::PlusOne,
{
}

/// Whether the pair `x` occurs in the vector.
fn pair_contains(v: &Vec<(usize, usize)>, x: (usize, usize)) -> (b: bool)
    ensures
        b == v@.contains(x),
{
    let mut k: usize = 0;
    while k < v.len()
        invariant
            k <= v@.len(),
            forall|p: int| 0 <= p < k ==> v@[p] != x,
        decreases v@.len() - k,
    {
        if v[k].0 == x.0 && v[k].1 == x.1 {
            assert(v@.contains(x)) by {
                assert(v@[k as int] == x);
            }
            return true;
        }
        k += 1;
    }
    false
}

} // verus!
