use vstd::prelude::*;

use crate::vop::Vop;

use crate::vop::{Axis, DecompUnit};
verus! {

/// Adjoint (group inverse) of each vertex operator, from the 24-entry table.
pub open spec fn adj_spec(v: Vop) -> Vop {
    match v {
        Vop::IA => Vop::IA,
        Vop::XA => Vop::XA,
        Vop::YA => Vop::YA,
        Vop::ZA => Vop::ZA,
        Vop::IB => Vop::IB,
        Vop::XB => Vop::YB,
        Vop::YB => Vop::XB,
        Vop::ZB => Vop::ZB,
        Vop::IC => Vop::IC,
        Vop::XC => Vop::ZC,
        Vop::YC => Vop::YC,
        Vop::ZC => Vop::XC,
        Vop::ID => Vop::ID,
        Vop::XD => Vop::XD,
        Vop::YD => Vop::ZD,
        Vop::ZD => Vop::YD,
        Vop::IE => Vop::IF,
        Vop::XE => Vop::YF,
        Vop::YE => Vop::ZF,
        Vop::ZE => Vop::XF,
        Vop::IF => Vop::IE,
        Vop::XF => Vop::ZE,
        Vop::YF => Vop::XE,
        Vop::ZF => Vop::YE,
    }
}

/// The measurement axis whose outcome is already determined on an isolated
/// node carrying the adjoint vertex operator `v`, from the 24-entry table.
pub open spec fn detm_spec(v: Vop) -> Axis {
    match v {
        Vop::IA => Axis::X,
        Vop::XA => Axis::X,
        Vop::YA => Axis::X,
        Vop::ZA => Axis::X,
        Vop::IB => Axis::Y,
        Vop::XB => Axis::Y,
        Vop::YB => Axis::Y,
        Vop::ZB => Axis::Y,
        Vop::IC => Axis::Z,
        Vop::XC => Axis::Z,
        Vop::YC => Axis::Z,
        Vop::ZC => Axis::Z,
        Vop::ID => Axis::X,
        Vop::XD => Axis::X,
        Vop::YD => Axis::X,
        Vop::ZD => Axis::X,
        Vop::IE => Axis::Z,
        Vop::XE => Axis::Z,
        Vop::YE => Axis::Z,
        Vop::ZE => Axis::Z,
        Vop::IF => Axis::Y,
        Vop::XF => Axis::Y,
        Vop::YF => Axis::Y,
        Vop::ZF => Axis::Y,
    }
}

/// The Pauli basis a measurement request in `axis` turns into once it is
/// conjugated through the vertex operator `v`, from the 3 x 24 table.
pub open spec fn conj_spec(axis: Axis, v: Vop) -> Axis {
    match axis {
        Axis::X => match v {
            Vop::IA => Axis::X,
            Vop::XA => Axis::X,
            Vop::YA => Axis::X,
            Vop::ZA => Axis::X,
            Vop::IB => Axis::Y,
            Vop::XB => Axis::Y,
            Vop::YB => Axis::Y,
            Vop::ZB => Axis::Y,
            Vop::IC => Axis::Z,
            Vop::XC => Axis::Z,
            Vop::YC => Axis::Z,
            Vop::ZC => Axis::Z,
            Vop::ID => Axis::X,
            Vop::XD => Axis::X,
            Vop::YD => Axis::X,
            Vop::ZD => Axis::X,
            Vop::IE => Axis::Y,
            Vop::XE => Axis::Y,
            Vop::YE => Axis::Y,
            Vop::ZE => Axis::Y,
            Vop::IF => Axis::Z,
            Vop::XF => Axis::Z,
            Vop::YF => Axis::Z,
            Vop::ZF => Axis::Z,
        },
        Axis::Y => match v {
            Vop::IA => Axis::Y,
            Vop::XA => Axis::Y,
            Vop::YA => Axis::Y,
            Vop::ZA => Axis::Y,
            Vop::IB => Axis::X,
            Vop::XB => Axis::X,
            Vop::YB => Axis::X,
            Vop::ZB => Axis::X,
            Vop::IC => Axis::Y,
            Vop::XC => Axis::Y,
            Vop::YC => Axis::Y,
            Vop::ZC => Axis::Y,
            Vop::ID => Axis::Z,
            Vop::XD => Axis::Z,
            Vop::YD => Axis::Z,
            Vop::ZD => Axis::Z,
            Vop::IE => Axis::Z,
            Vop::XE => Axis::Z,
            Vop::YE => Axis::Z,
            Vop::ZE => Axis::Z,
            Vop::IF => Axis::X,
            Vop::XF => Axis::X,
            Vop::YF => Axis::X,
            Vop::ZF => Axis::X,
        },
        Axis::Z => match v {
            Vop::IA => Axis::Z,
            Vop::XA => Axis::Z,
            Vop::YA => Axis::Z,
            Vop::ZA => Axis::Z,
            Vop::IB => Axis::Z,
            Vop::XB => Axis::Z,
            Vop::YB => Axis::Z,
            Vop::ZB => Axis::Z,
            Vop::IC => Axis::X,
            Vop::XC => Axis::X,
            Vop::YC => Axis::X,
            Vop::ZC => Axis::X,
            Vop::ID => Axis::Y,
            Vop::XD => Axis::Y,
            Vop::YD => Axis::Y,
            Vop::ZD => Axis::Y,
            Vop::IE => Axis::X,
            Vop::XE => Axis::X,
            Vop::YE => Axis::X,
            Vop::ZE => Axis::X,
            Vop::IF => Axis::Y,
            Vop::XF => Axis::Y,
            Vop::YF => Axis::Y,
            Vop::ZF => Axis::Y,
        },
    }
}

/// Position of a vertex operator in the canonical enumeration IA, XA, ... ZF.
pub open spec fn idx_spec(v: Vop) -> u8 {
    match v {
        Vop::IA => 0u8,
        Vop::XA => 1u8,
        Vop::YA => 2u8,
        Vop::ZA => 3u8,
        Vop::IB => 4u8,
        Vop::XB => 5u8,
        Vop::YB => 6u8,
        Vop::ZB => 7u8,
        Vop::IC => 8u8,
        Vop::XC => 9u8,
        Vop::YC => 10u8,
        Vop::ZC => 11u8,
        Vop::ID => 12u8,
        Vop::XD => 13u8,
        Vop::YD => 14u8,
        Vop::ZD => 15u8,
        Vop::IE => 16u8,
        Vop::XE => 17u8,
        Vop::YE => 18u8,
        Vop::ZE => 19u8,
        Vop::IF => 20u8,
        Vop::XF => 21u8,
        Vop::YF => 22u8,
        Vop::ZF => 23u8,
    }
}

/// The fixed short word over {U, V} that rewrites the vertex operator `v`
/// into the graph by local complementations.
pub open spec fn decomp_spec(v: Vop) -> Seq<DecompUnit> {
    match v {
        Vop::IA => seq![DecompUnit::U, DecompUnit::U, DecompUnit::U, DecompUnit::U],
        Vop::XA => seq![DecompUnit::U, DecompUnit::U],
        Vop::YA => seq![DecompUnit::U, DecompUnit::U, DecompUnit::V, DecompUnit::V],
        Vop::ZA => seq![DecompUnit::V, DecompUnit::V],
        Vop::IB => seq![DecompUnit::U, DecompUnit::U, DecompUnit::V],
        Vop::XB => seq![DecompUnit::V],
        Vop::YB => seq![DecompUnit::V, DecompUnit::V, DecompUnit::V],
        Vop::ZB => seq![DecompUnit::V, DecompUnit::U, DecompUnit::U],
        Vop::IC => seq![DecompUnit::U, DecompUnit::V, DecompUnit::U],
        Vop::XC => seq![DecompUnit::U, DecompUnit::U, DecompUnit::U, DecompUnit::V, DecompUnit::U],
        Vop::YC => seq![DecompUnit::U, DecompUnit::V, DecompUnit::V, DecompUnit::V, DecompUnit::U],
        Vop::ZC => seq![DecompUnit::U, DecompUnit::V, DecompUnit::U, DecompUnit::U, DecompUnit::U],
        Vop::ID => seq![DecompUnit::V, DecompUnit::V, DecompUnit::U],
        Vop::XD => seq![DecompUnit::U, DecompUnit::V, DecompUnit::V],
        Vop::YD => seq![DecompUnit::U, DecompUnit::U, DecompUnit::U],
        Vop::ZD => seq![DecompUnit::U],
        Vop::IE => seq![DecompUnit::U, DecompUnit::V, DecompUnit::V, DecompUnit::V],
        Vop::XE => seq![DecompUnit::U, DecompUnit::V, DecompUnit::U, DecompUnit::U],
        Vop::YE => seq![DecompUnit::U, DecompUnit::V],
        Vop::ZE => seq![DecompUnit::U, DecompUnit::U, DecompUnit::U, DecompUnit::V],
        Vop::IF => seq![DecompUnit::V, DecompUnit::U, DecompUnit::U, DecompUnit::U],
        Vop::XF => seq![DecompUnit::V, DecompUnit::V, DecompUnit::V, DecompUnit::U],
        Vop::YF => seq![DecompUnit::V, DecompUnit::U],
        Vop::ZF => seq![DecompUnit::U, DecompUnit::U, DecompUnit::V, DecompUnit::U],
    }
}

impl Vop {
    /// Adjoint of a vertex operator, read from the adjoint table.
    pub fn adj(self) -> (r: Vop)
        ensures
            r == adj_spec(self),
    {
        let v = self;
        match v {
            Vop::IA => Vop::IA,
            Vop::XA => Vop::XA,
            Vop::YA => Vop::YA,
            Vop::ZA => Vop::ZA,
            Vop::IB => Vop::IB,
            Vop::XB => Vop::YB,
            Vop::YB => Vop::XB,
            Vop::ZB => Vop::ZB,
            Vop::IC => Vop::IC,
            Vop::XC => Vop::ZC,
            Vop::YC => Vop::YC,
            Vop::ZC => Vop::XC,
            Vop::ID => Vop::ID,
            Vop::XD => Vop::XD,
            Vop::YD => Vop::ZD,
            Vop::ZD => Vop::YD,
            Vop::IE => Vop::IF,
            Vop::XE => Vop::YF,
            Vop::YE => Vop::ZF,
            Vop::ZE => Vop::XF,
            Vop::IF => Vop::IE,
            Vop::XF => Vop::ZE,
            Vop::YF => Vop::XE,
            Vop::ZF => Vop::YE,
        }
    }

    /// Position of this vertex operator in the canonical enumeration.
    pub fn index(self) -> (i: u8)
        ensures
            i == idx_spec(self),
            i < 24,
    {
        let v = self;
        match v {
            Vop::IA => 0u8,
            Vop::XA => 1u8,
            Vop::YA => 2u8,
            Vop::ZA => 3u8,
            Vop::IB => 4u8,
            Vop::XB => 5u8,
            Vop::YB => 6u8,
            Vop::ZB => 7u8,
            Vop::IC => 8u8,
            Vop::XC => 9u8,
            Vop::YC => 10u8,
            Vop::ZC => 11u8,
            Vop::ID => 12u8,
            Vop::XD => 13u8,
            Vop::YD => 14u8,
            Vop::ZD => 15u8,
            Vop::IE => 16u8,
            Vop::XE => 17u8,
            Vop::YE => 18u8,
            Vop::ZE => 19u8,
            Vop::IF => 20u8,
            Vop::XF => 21u8,
            Vop::YF => 22u8,
            Vop::ZF => 23u8,
        }
    }

    /// Length of the local-complementation word of this vertex operator.
    pub fn decomp_len(self) -> (n: usize)
        ensures
            n == decomp_spec(self).len(),
            1 <= n <= 5,
    {
        let v = self;
        match v {
            Vop::IA => 4,
            Vop::XA => 2,
            Vop::YA => 4,
            Vop::ZA => 2,
            Vop::IB => 3,
            Vop::XB => 1,
            Vop::YB => 3,
            Vop::ZB => 3,
            Vop::IC => 3,
            Vop::XC => 5,
            Vop::YC => 5,
            Vop::ZC => 5,
            Vop::ID => 3,
            Vop::XD => 3,
            Vop::YD => 3,
            Vop::ZD => 1,
            Vop::IE => 4,
            Vop::XE => 4,
            Vop::YE => 2,
            Vop::ZE => 4,
            Vop::IF => 4,
            Vop::XF => 4,
            Vop::YF => 2,
            Vop::ZF => 4,
        }
    }

    /// The letter at position `i` of the local-complementation word.
    pub fn decomp_at(self, i: usize) -> (u: DecompUnit)
        requires
            i < decomp_spec(self).len(),
        ensures
            u == decomp_spec(self)[i as int],
    {
        let v = self;
        match v {
            Vop::IA => if i == 0 { DecompUnit::U } else if i == 1 { DecompUnit::U } else if i == 2 { DecompUnit::U } else { DecompUnit::U },
            Vop::XA => if i == 0 { DecompUnit::U } else { DecompUnit::U },
            Vop::YA => if i == 0 { DecompUnit::U } else if i == 1 { DecompUnit::U } else if i == 2 { DecompUnit::V } else { DecompUnit::V },
            Vop::ZA => if i == 0 { DecompUnit::V } else { DecompUnit::V },
            Vop::IB => if i == 0 { DecompUnit::U } else if i == 1 { DecompUnit::U } else { DecompUnit::V },
            Vop::XB => { DecompUnit::V },
            Vop::YB => if i == 0 { DecompUnit::V } else if i == 1 { DecompUnit::V } else { DecompUnit::V },
            Vop::ZB => if i == 0 { DecompUnit::V } else if i == 1 { DecompUnit::U } else { DecompUnit::U },
            Vop::IC => if i == 0 { DecompUnit::U } else if i == 1 { DecompUnit::V } else { DecompUnit::U },
            Vop::XC => if i == 0 { DecompUnit::U } else if i == 1 { DecompUnit::U } else if i == 2 { DecompUnit::U } else if i == 3 { DecompUnit::V } else { DecompUnit::U },
            Vop::YC => if i == 0 { DecompUnit::U } else if i == 1 { DecompUnit::V } else if i == 2 { DecompUnit::V } else if i == 3 { DecompUnit::V } else { DecompUnit::U },
            Vop::ZC => if i == 0 { DecompUnit::U } else if i == 1 { DecompUnit::V } else if i == 2 { DecompUnit::U } else if i == 3 { DecompUnit::U } else { DecompUnit::U },
            Vop::ID => if i == 0 { DecompUnit::V } else if i == 1 { DecompUnit::V } else { DecompUnit::U },
            Vop::XD => if i == 0 { DecompUnit::U } else if i == 1 { DecompUnit::V } else { DecompUnit::V },
            Vop::YD => if i == 0 { DecompUnit::U } else if i == 1 { DecompUnit::U } else { DecompUnit::U },
            Vop::ZD => { DecompUnit::U },
            Vop::IE => if i == 0 { DecompUnit::U } else if i == 1 { DecompUnit::V } else if i == 2 { DecompUnit::V } else { DecompUnit::V },
            Vop::XE => if i == 0 { DecompUnit::U } else if i == 1 { DecompUnit::V } else if i == 2 { DecompUnit::U } else { DecompUnit::U },
            Vop::YE => if i == 0 { DecompUnit::U } else { DecompUnit::V },
            Vop::ZE => if i == 0 { DecompUnit::U } else if i == 1 { DecompUnit::U } else if i == 2 { DecompUnit::U } else { DecompUnit::V },
            Vop::IF => if i == 0 { DecompUnit::V } else if i == 1 { DecompUnit::U } else if i == 2 { DecompUnit::U } else { DecompUnit::U },
            Vop::XF => if i == 0 { DecompUnit::V } else if i == 1 { DecompUnit::V } else if i == 2 { DecompUnit::V } else { DecompUnit::U },
            Vop::YF => if i == 0 { DecompUnit::V } else { DecompUnit::U },
            Vop::ZF => if i == 0 { DecompUnit::U } else if i == 1 { DecompUnit::U } else if i == 2 { DecompUnit::V } else { DecompUnit::U },
        }
    }
}

impl Axis {
    /// The basis this axis becomes after conjugation through `v`.
    pub fn conj_through(self, v: Vop) -> (r: Axis)
        ensures
            r == conj_spec(self, v),
    {
        let axis = self;
        match axis {
            Axis::X => match v {
                Vop::IA => Axis::X,
                Vop::XA => Axis::X,
                Vop::YA => Axis::X,
                Vop::ZA => Axis::X,
                Vop::IB => Axis::Y,
                Vop::XB => Axis::Y,
                Vop::YB => Axis::Y,
                Vop::ZB => Axis::Y,
                Vop::IC => Axis::Z,
                Vop::XC => Axis::Z,
                Vop::YC => Axis::Z,
                Vop::ZC => Axis::Z,
                Vop::ID => Axis::X,
                Vop::XD => Axis::X,
                Vop::YD => Axis::X,
                Vop::ZD => Axis::X,
                Vop::IE => Axis::Y,
                Vop::XE => Axis::Y,
                Vop::YE => Axis::Y,
                Vop::ZE => Axis::Y,
                Vop::IF => Axis::Z,
                Vop::XF => Axis::Z,
                Vop::YF => Axis::Z,
                Vop::ZF => Axis::Z,
            },
            Axis::Y => match v {
                Vop::IA => Axis::Y,
                Vop::XA => Axis::Y,
                Vop::YA => Axis::Y,
                Vop::ZA => Axis::Y,
                Vop::IB => Axis::X,
                Vop::XB => Axis::X,
                Vop::YB => Axis::X,
                Vop::ZB => Axis::X,
                Vop::IC => Axis::Y,
                Vop::XC => Axis::Y,
                Vop::YC => Axis::Y,
                Vop::ZC => Axis::Y,
                Vop::ID => Axis::Z,
                Vop::XD => Axis::Z,
                Vop::YD => Axis::Z,
                Vop::ZD => Axis::Z,
                Vop::IE => Axis::Z,
                Vop::XE => Axis::Z,
                Vop::YE => Axis::Z,
                Vop::ZE => Axis::Z,
                Vop::IF => Axis::X,
                Vop::XF => Axis::X,
                Vop::YF => Axis::X,
                Vop::ZF => Axis::X,
            },
            Axis::Z => match v {
                Vop::IA => Axis::Z,
                Vop::XA => Axis::Z,
                Vop::YA => Axis::Z,
                Vop::ZA => Axis::Z,
                Vop::IB => Axis::Z,
                Vop::XB => Axis::Z,
                Vop::YB => Axis::Z,
                Vop::ZB => Axis::Z,
                Vop::IC => Axis::X,
                Vop::XC => Axis::X,
                Vop::YC => Axis::X,
                Vop::ZC => Axis::X,
                Vop::ID => Axis::Y,
                Vop::XD => Axis::Y,
                Vop::YD => Axis::Y,
                Vop::ZD => Axis::Y,
                Vop::IE => Axis::X,
                Vop::XE => Axis::X,
                Vop::YE => Axis::X,
                Vop::ZE => Axis::X,
                Vop::IF => Axis::Y,
                Vop::XF => Axis::Y,
                Vop::YF => Axis::Y,
                Vop::ZF => Axis::Y,
            },
        }
    }

    /// The deterministic axis of an isolated node whose adjoint operator is `v`.
    pub fn deterministic_for(v: Vop) -> (r: Axis)
        ensures
            r == detm_spec(v),
    {
        match v {
            Vop::IA => Axis::X,
            Vop::XA => Axis::X,
            Vop::YA => Axis::X,
            Vop::ZA => Axis::X,
            Vop::IB => Axis::Y,
            Vop::XB => Axis::Y,
            Vop::YB => Axis::Y,
            Vop::ZB => Axis::Y,
            Vop::IC => Axis::Z,
            Vop::XC => Axis::Z,
            Vop::YC => Axis::Z,
            Vop::ZC => Axis::Z,
            Vop::ID => Axis::X,
            Vop::XD => Axis::X,
            Vop::YD => Axis::X,
            Vop::ZD => Axis::X,
            Vop::IE => Axis::Z,
            Vop::XE => Axis::Z,
            Vop::YE => Axis::Z,
            Vop::ZE => Axis::Z,
            Vop::IF => Axis::Y,
            Vop::XF => Axis::Y,
            Vop::YF => Axis::Y,
            Vop::ZF => Axis::Y,
        }
    }
}

} // verus!
