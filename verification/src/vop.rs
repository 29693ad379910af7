use vstd::prelude::*;

use crate::vop_aux::{adj_spec, decomp_spec, idx_spec};
use crate::vop_mul::mul_spec;

verus! {

/// A vertex operator: one of the 24 single-qubit Clifford operators modulo
/// global phase. The letter names the coset, the Pauli prefix the factor.
#[derive(Clone, Copy, Debug, PartialEq, Eq, Structural)]
pub enum Vop {
    IA,
    XA,
    YA,
    ZA,
    IB,
    XB,
    YB,
    ZB,
    IC,
    XC,
    YC,
    ZC,
    ID,
    XD,
    YD,
    ZD,
    IE,
    XE,
    YE,
    ZE,
    IF,
    XF,
    YF,
    ZF,
}

/// One of the three Pauli measurement bases.
#[derive(Clone, Copy, Debug, PartialEq, Eq, Structural)]
pub enum Axis {
    X,
    Y,
    Z,
}

/// Result of a single-qubit projective measurement: the +1 or -1 eigenvalue.
#[derive(Clone, Copy, Debug, PartialEq, Eq, Structural)]
pub enum MeasurementResult {
    PlusOne,
    MinusOne,
}

/// A measurement outcome together with the axis that was measured; returned
/// by the non-disturbing peek operation.
#[derive(Clone, Copy, Debug, PartialEq, Eq, Structural)]
pub struct Outcome {
    pub result: MeasurementResult,
    pub axis: Axis,
}

/// A letter of the local-complementation word of a vertex operator: `U`
/// complements at the node itself, `V` at a chosen neighbor.
#[derive(Clone, Copy, Debug, PartialEq, Eq, Structural)]
pub enum DecompUnit {
    U,
    V,
}

/// The phase correction a measurement needs after basis conjugation: flip the
/// eigenvalue (`Two`) or keep it (`Zero`).
#[derive(Clone, Copy, Debug, PartialEq, Eq, Structural)]
pub enum Zeta {
    Zero,
    Two,
}

/// The Pauli X gate as a vertex operator.
pub const X_GATE: Vop = Vop::XA;

/// The Pauli Y gate as a vertex operator.
pub const Y_GATE: Vop = Vop::YA;

/// The Pauli Z gate as a vertex operator.
pub const Z_GATE: Vop = Vop::ZA;

/// The Hadamard gate as a vertex operator.
pub const H_GATE: Vop = Vop::YC;

/// The phase gate S as a vertex operator.
pub const S_GATE: Vop = Vop::YB;

/// The inverse phase gate S-dagger as a vertex operator.
pub const SDAG_GATE: Vop = Vop::XB;

/// True of the four vertex operators that commute with a Z on the neighbor
/// through a CZ gate: exactly those the conjugation table is entered with.
pub open spec fn is_in_z_spec(v: Vop) -> bool {
    v == Vop::IA || v == Vop::ZA || v == Vop::YB || v == Vop::XB
}

impl Vop {
    /// Whether this vertex operator commutes with Z on the neighbor under CZ.
    pub fn is_in_z(self) -> (r: bool)
        ensures
            r == is_in_z_spec(self),
    {
        match self {
            Vop::IA | Vop::ZA | Vop::YB | Vop::XB => true,
            _ => false,
        }
    }
}

/// The index of an axis in the enumeration X, Y, Z.
pub open spec fn axis_idx_spec(axis: Axis) -> u8 {
    match axis {
        Axis::X => 0u8,
        Axis::Y => 1u8,
        Axis::Z => 2u8,
    }
}

/// The phase correction for measuring in `axis` through the adjoint vertex
/// operator `v`: `Two` exactly when the residue of `v`'s index modulo 4 is 0
/// or one past the axis index, if and only if `v` lies in the letter range
/// IB..=ZD.
pub open spec fn zeta_spec(v: Vop, axis: Axis) -> Zeta {
    let r = idx_spec(v) % 4;
    let in_bcd = 4 <= idx_spec(v) < 16;
    if (r == 0 || r == axis_idx_spec(axis) + 1) == in_bcd {
        Zeta::Two
    } else {
        Zeta::Zero
    }
}

/// The phase correction for measuring in `axis` through the adjoint vertex
/// operator `vop`.
pub fn find_zeta(vop: Vop, axis: Axis) -> (z: Zeta)
    ensures
        z == zeta_spec(vop, axis),
{
    let i = vop.index();
    let r = i % 4;
    let in_bcd = 4 <= i && i < 16;
    let hit = r == 0 || r == match axis {
        Axis::X => 1,
        Axis::Y => 2,
        Axis::Z => 3,
    };
    if hit == in_bcd {
        Zeta::Two
    } else {
        Zeta::Zero
    }
}

/// The vertex operator a single local complementation multiplies into a node:
/// `U` acts on the complemented node itself, `V` on a node adjacent to it.
pub open spec fn step_vop(u: DecompUnit) -> Vop {
    match u {
        DecompUnit::U => Vop::YD,
        DecompUnit::V => S_GATE,
    }
}

/// The vertex operator left on a node after the letters of `w` from position
/// `i` on have each multiplied their step operator into `v` from the right.
pub open spec fn word_apply_from(v: Vop, w: Seq<DecompUnit>, i: int) -> Vop
    decreases w.len() - i,
{
    if i < 0 || i >= w.len() {
        v
    } else {
        word_apply_from(mul_spec(v, step_vop(w[i])), w, i + 1)
    }
}

/// The identity IA is neutral for the composition table.
pub proof fn lemma_mul_identity(v: Vop)
    ensures
        mul_spec(Vop::IA, v) == v,
        mul_spec(v, Vop::IA) == v,
{
}

/// Composing a vertex operator with its adjoint, on either side, yields the
/// identity, and the adjoint is an involution.
pub proof fn lemma_mul_adj(v: Vop)
    ensures
        mul_spec(v, adj_spec(v)) == Vop::IA,
        mul_spec(adj_spec(v), v) == Vop::IA,
        adj_spec(adj_spec(v)) == v,
{
}

/// Applying H twice, X twice, Y twice, Z twice, or S then S-dagger (and
/// S-dagger then S) to any vertex operator gives that operator back, so a
/// doubled gate leaves every node label, and with it the whole state, as it
/// was.
pub proof fn lemma_gate_involution(v: Vop)
    ensures
        mul_spec(H_GATE, mul_spec(H_GATE, v)) == v,
        mul_spec(X_GATE, mul_spec(X_GATE, v)) == v,
        mul_spec(Y_GATE, mul_spec(Y_GATE, v)) == v,
        mul_spec(Z_GATE, mul_spec(Z_GATE, v)) == v,
        mul_spec(SDAG_GATE, mul_spec(S_GATE, v)) == v,
        mul_spec(S_GATE, mul_spec(SDAG_GATE, v)) == v,
{
}

/// Walking the whole local-complementation word of a vertex operator, each
/// letter multiplying its step operator in from the right, lands in the
/// Z-commuting set.
pub proof fn lemma_decomp_lands_in_z(v: Vop)
    ensures
        is_in_z_spec(word_apply_from(v, decomp_spec(v), 0)),
{
    reveal_with_fuel(word_apply_from, 7);
}

/// The composition table is associative: reading the product of three vertex
/// operators off the table gives the same element however it is parenthesised.
#[verifier::rlimit(100)]
pub proof fn lemma_mul_assoc(a: Vop, b: Vop, c: Vop)
    ensures
        mul_spec(mul_spec(a, b), c) == mul_spec(a, mul_spec(b, c)),
{
}

} // verus!
