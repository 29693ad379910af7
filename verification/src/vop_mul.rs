use vstd::prelude::*;

use crate::vop::Vop;

verus! {

/// The 24 x 24 composition table of the local Clifford group: the vertex
/// operator that acts as `a` followed by nothing else than what `b` already
/// did, i.e. the group product a * b.
pub open spec fn mul_spec(a: Vop, b: Vop) -> Vop {
    match a {
        Vop::IA => match b {
            Vop::IA => Vop::IA,
            Vop::XA => Vop::XA,
            Vop::YA => Vop::YA,
            Vop::ZA => Vop::ZA,
            Vop::IB => Vop::IB,
            Vop::XB => Vop::XB,
            Vop::YB => Vop::YB,
            Vop::ZB => Vop::ZB,
            Vop::IC => Vop::IC,
            Vop::XC => Vop::XC,
            Vop::YC => Vop::YC,
            Vop::ZC => Vop::ZC,
            Vop::ID => Vop::ID,
            Vop::XD => Vop::XD,
            Vop::YD => Vop::YD,
            Vop::ZD => Vop::ZD,
            Vop::IE => Vop::IE,
            Vop::XE => Vop::XE,
            Vop::YE => Vop::YE,
            Vop::ZE => Vop::ZE,
            Vop::IF => Vop::IF,
            Vop::XF => Vop::XF,
            Vop::YF => Vop::YF,
            Vop::ZF => Vop::ZF,
        },
        Vop::XA => match b {
            Vop::IA => Vop::XA,
            Vop::XA => Vop::IA,
            Vop::YA => Vop::ZA,
            Vop::ZA => Vop::YA,
            Vop::IB => Vop::YB,
            Vop::XB => Vop::ZB,
            Vop::YB => Vop::IB,
            Vop::ZB => Vop::XB,
            Vop::IC => Vop::ZC,
            Vop::XC => Vop::YC,
            Vop::YC => Vop::XC,
            Vop::ZC => Vop::IC,
            Vop::ID => Vop::XD,
            Vop::XD => Vop::ID,
            Vop::YD => Vop::ZD,
            Vop::ZD => Vop::YD,
            Vop::IE => Vop::ZE,
            Vop::XE => Vop::YE,
            Vop::YE => Vop::XE,
            Vop::ZE => Vop::IE,
            Vop::IF => Vop::YF,
            Vop::XF => Vop::ZF,
            Vop::YF => Vop::IF,
            Vop::ZF => Vop::XF,
        },
        Vop::YA => match b {
            Vop::IA => Vop::YA,
            Vop::XA => Vop::ZA,
            Vop::YA => Vop::IA,
            Vop::ZA => Vop::XA,
            Vop::IB => Vop::XB,
            Vop::XB => Vop::IB,
            Vop::YB => Vop::ZB,
            Vop::ZB => Vop::YB,
            Vop::IC => Vop::YC,
            Vop::XC => Vop::ZC,
            Vop::YC => Vop::IC,
            Vop::ZC => Vop::XC,
            Vop::ID => Vop::ZD,
            Vop::XD => Vop::YD,
            Vop::YD => Vop::XD,
            Vop::ZD => Vop::ID,
            Vop::IE => Vop::XE,
            Vop::XE => Vop::IE,
            Vop::YE => Vop::ZE,
            Vop::ZE => Vop::YE,
            Vop::IF => Vop::ZF,
            Vop::XF => Vop::YF,
            Vop::YF => Vop::XF,
            Vop::ZF => Vop::IF,
        },
        Vop::ZA => match b {
            Vop::IA => Vop::ZA,
            Vop::XA => Vop::YA,
            Vop::YA => Vop::XA,
            Vop::ZA => Vop::IA,
            Vop::IB => Vop::ZB,
            Vop::XB => Vop::YB,
            Vop::YB => Vop::XB,
            Vop::ZB => Vop::IB,
            Vop::IC => Vop::XC,
            Vop::XC => Vop::IC,
            Vop::YC => Vop::ZC,
            Vop::ZC => Vop::YC,
            Vop::ID => Vop::YD,
            Vop::XD => Vop::ZD,
            Vop::YD => Vop::ID,
            Vop::ZD => Vop::XD,
            Vop::IE => Vop::YE,
            Vop::XE => Vop::ZE,
            Vop::YE => Vop::IE,
            Vop::ZE => Vop::XE,
            Vop::IF => Vop::XF,
            Vop::XF => Vop::IF,
            Vop::YF => Vop::ZF,
            Vop::ZF => Vop::YF,
        },
        Vop::IB => match b {
            Vop::IA => Vop::IB,
            Vop::XA => Vop::XB,
            Vop::YA => Vop::YB,
            Vop::ZA => Vop::ZB,
            Vop::IB => Vop::IA,
            Vop::XB => Vop::XA,
            Vop::YB => Vop::YA,
            Vop::ZB => Vop::ZA,
            Vop::IC => Vop::IF,
            Vop::XC => Vop::XF,
            Vop::YC => Vop::YF,
            Vop::ZC => Vop::ZF,
            Vop::ID => Vop::IE,
            Vop::XD => Vop::XE,
            Vop::YD => Vop::YE,
            Vop::ZD => Vop::ZE,
            Vop::IE => Vop::ID,
            Vop::XE => Vop::XD,
            Vop::YE => Vop::YD,
            Vop::ZE => Vop::ZD,
            Vop::IF => Vop::IC,
            Vop::XF => Vop::XC,
            Vop::YF => Vop::YC,
            Vop::ZF => Vop::ZC,
        },
        Vop::XB => match b {
            Vop::IA => Vop::XB,
            Vop::XA => Vop::IB,
            Vop::YA => Vop::ZB,
            Vop::ZA => Vop::YB,
            Vop::IB => Vop::YA,
            Vop::XB => Vop::ZA,
            Vop::YB => Vop::IA,
            Vop::ZB => Vop::XA,
            Vop::IC => Vop::ZF,
            Vop::XC => Vop::YF,
            Vop::YC => Vop::XF,
            Vop::ZC => Vop::IF,
            Vop::ID => Vop::XE,
            Vop::XD => Vop::IE,
            Vop::YD => Vop::ZE,
            Vop::ZD => Vop::YE,
            Vop::IE => Vop::ZD,
            Vop::XE => Vop::YD,
            Vop::YE => Vop::XD,
            Vop::ZE => Vop::ID,
            Vop::IF => Vop::YC,
            Vop::XF => Vop::ZC,
            Vop::YF => Vop::IC,
            Vop::ZF => Vop::XC,
        },
        Vop::YB => match b {
            Vop::IA => Vop::YB,
            Vop::XA => Vop::ZB,
            Vop::YA => Vop::IB,
            Vop::ZA => Vop::XB,
            Vop::IB => Vop::XA,
            Vop::XB => Vop::IA,
            Vop::YB => Vop::ZA,
            Vop::ZB => Vop::YA,
            Vop::IC => Vop::YF,
            Vop::XC => Vop::ZF,
            Vop::YC => Vop::IF,
            Vop::ZC => Vop::XF,
            Vop::ID => Vop::ZE,
            Vop::XD => Vop::YE,
            Vop::YD => Vop::XE,
            Vop::ZD => Vop::IE,
            Vop::IE => Vop::XD,
            Vop::XE => Vop::ID,
            Vop::YE => Vop::ZD,
            Vop::ZE => Vop::YD,
            Vop::IF => Vop::ZC,
            Vop::XF => Vop::YC,
            Vop::YF => Vop::XC,
            Vop::ZF => Vop::IC,
        },
        Vop::ZB => match b {
            Vop::IA => Vop::ZB,
            Vop::XA => Vop::YB,
            Vop::YA => Vop::XB,
            Vop::ZA => Vop::IB,
            Vop::IB => Vop::ZA,
            Vop::XB => Vop::YA,
            Vop::YB => Vop::XA,
            Vop::ZB => Vop::IA,
            Vop::IC => Vop::XF,
            Vop::XC => Vop::IF,
            Vop::YC => Vop::ZF,
            Vop::ZC => Vop::YF,
            Vop::ID => Vop::YE,
            Vop::XD => Vop::ZE,
            Vop::YD => Vop::IE,
            Vop::ZD => Vop::XE,
            Vop::IE => Vop::YD,
            Vop::XE => Vop::ZD,
            Vop::YE => Vop::ID,
            Vop::ZE => Vop::XD,
            Vop::IF => Vop::XC,
            Vop::XF => Vop::IC,
            Vop::YF => Vop::ZC,
            Vop::ZF => Vop::YC,
        },
        Vop::IC => match b {
            Vop::IA => Vop::IC,
            Vop::XA => Vop::XC,
            Vop::YA => Vop::YC,
            Vop::ZA => Vop::ZC,
            Vop::IB => Vop::IE,
            Vop::XB => Vop::XE,
            Vop::YB => Vop::YE,
            Vop::ZB => Vop::ZE,
            Vop::IC => Vop::IA,
            Vop::XC => Vop::XA,
            Vop::YC => Vop::YA,
            Vop::ZC => Vop::ZA,
            Vop::ID => Vop::IF,
            Vop::XD => Vop::XF,
            Vop::YD => Vop::YF,
            Vop::ZD => Vop::ZF,
            Vop::IE => Vop::IB,
            Vop::XE => Vop::XB,
            Vop::YE => Vop::YB,
            Vop::ZE => Vop::ZB,
            Vop::IF => Vop::ID,
            Vop::XF => Vop::XD,
            Vop::YF => Vop::YD,
            Vop::ZF => Vop::ZD,
        },
        Vop::XC => match b {
            Vop::IA => Vop::XC,
            Vop::XA => Vop::IC,
            Vop::YA => Vop::ZC,
            Vop::ZA => Vop::YC,
            Vop::IB => Vop::YE,
            Vop::XB => Vop::ZE,
            Vop::YB => Vop::IE,
            Vop::ZB => Vop::XE,
            Vop::IC => Vop::ZA,
            Vop::XC => Vop::YA,
            Vop::YC => Vop::XA,
            Vop::ZC => Vop::IA,
            Vop::ID => Vop::XF,
            Vop::XD => Vop::IF,
            Vop::YD => Vop::ZF,
            Vop::ZD => Vop::YF,
            Vop::IE => Vop::ZB,
            Vop::XE => Vop::YB,
            Vop::YE => Vop::XB,
            Vop::ZE => Vop::IB,
            Vop::IF => Vop::YD,
            Vop::XF => Vop::ZD,
            Vop::YF => Vop::ID,
            Vop::ZF => Vop::XD,
        },
        Vop::YC => match b {
            Vop::IA => Vop::YC,
            Vop::XA => Vop::ZC,
            Vop::YA => Vop::IC,
            Vop::ZA => Vop::XC,
            Vop::IB => Vop::XE,
            Vop::XB => Vop::IE,
            Vop::YB => Vop::ZE,
            Vop::ZB => Vop::YE,
            Vop::IC => Vop::YA,
            Vop::XC => Vop::ZA,
            Vop::YC => Vop::IA,
            Vop::ZC => Vop::XA,
            Vop::ID => Vop::ZF,
            Vop::XD => Vop::YF,
            Vop::YD => Vop::XF,
            Vop::ZD => Vop::IF,
            Vop::IE => Vop::XB,
            Vop::XE => Vop::IB,
            Vop::YE => Vop::ZB,
            Vop::ZE => Vop::YB,
            Vop::IF => Vop::ZD,
            Vop::XF => Vop::YD,
            Vop::YF => Vop::XD,
            Vop::ZF => Vop::ID,
        },
        Vop::ZC => match b {
            Vop::IA => Vop::ZC,
            Vop::XA => Vop::YC,
            Vop::YA => Vop::XC,
            Vop::ZA => Vop::IC,
            Vop::IB => Vop::ZE,
            Vop::XB => Vop::YE,
            Vop::YB => Vop::XE,
            Vop::ZB => Vop::IE,
            Vop::IC => Vop::XA,
            Vop::XC => Vop::IA,
            Vop::YC => Vop::ZA,
            Vop::ZC => Vop::YA,
            Vop::ID => Vop::YF,
            Vop::XD => Vop::ZF,
            Vop::YD => Vop::IF,
            Vop::ZD => Vop::XF,
            Vop::IE => Vop::YB,
            Vop::XE => Vop::ZB,
            Vop::YE => Vop::IB,
            Vop::ZE => Vop::XB,
            Vop::IF => Vop::XD,
            Vop::XF => Vop::ID,
            Vop::YF => Vop::ZD,
            Vop::ZF => Vop::YD,
        },
        Vop::ID => match b {
            Vop::IA => Vop::ID,
            Vop::XA => Vop::XD,
            Vop::YA => Vop::YD,
            Vop::ZA => Vop::ZD,
            Vop::IB => Vop::IF,
            Vop::XB => Vop::XF,
            Vop::YB => Vop::YF,
            Vop::ZB => Vop::ZF,
            Vop::IC => Vop::IE,
            Vop::XC => Vop::XE,
            Vop::YC => Vop::YE,
            Vop::ZC => Vop::ZE,
            Vop::ID => Vop::IA,
            Vop::XD => Vop::XA,
            Vop::YD => Vop::YA,
            Vop::ZD => Vop::ZA,
            Vop::IE => Vop::IC,
            Vop::XE => Vop::XC,
            Vop::YE => Vop::YC,
            Vop::ZE => Vop::ZC,
            Vop::IF => Vop::IB,
            Vop::XF => Vop::XB,
            Vop::YF => Vop::YB,
            Vop::ZF => Vop::ZB,
        },
        Vop::XD => match b {
            Vop::IA => Vop::XD,
            Vop::XA => Vop::ID,
            Vop::YA => Vop::ZD,
            Vop::ZA => Vop::YD,
            Vop::IB => Vop::YF,
            Vop::XB => Vop::ZF,
            Vop::YB => Vop::IF,
            Vop::ZB => Vop::XF,
            Vop::IC => Vop::ZE,
            Vop::XC => Vop::YE,
            Vop::YC => Vop::XE,
            Vop::ZC => Vop::IE,
            Vop::ID => Vop::XA,
            Vop::XD => Vop::IA,
            Vop::YD => Vop::ZA,
            Vop::ZD => Vop::YA,
            Vop::IE => Vop::ZC,
            Vop::XE => Vop::YC,
            Vop::YE => Vop::XC,
            Vop::ZE => Vop::IC,
            Vop::IF => Vop::YB,
            Vop::XF => Vop::ZB,
            Vop::YF => Vop::IB,
            Vop::ZF => Vop::XB,
        },
        Vop::YD => match b {
            Vop::IA => Vop::YD,
            Vop::XA => Vop::ZD,
            Vop::YA => Vop::ID,
            Vop::ZA => Vop::XD,
            Vop::IB => Vop::XF,
            Vop::XB => Vop::IF,
            Vop::YB => Vop::ZF,
            Vop::ZB => Vop::YF,
            Vop::IC => Vop::YE,
            Vop::XC => Vop::ZE,
            Vop::YC => Vop::IE,
            Vop::ZC => Vop::XE,
            Vop::ID => Vop::ZA,
            Vop::XD => Vop::YA,
            Vop::YD => Vop::XA,
            Vop::ZD => Vop::IA,
            Vop::IE => Vop::XC,
            Vop::XE => Vop::IC,
            Vop::YE => Vop::ZC,
            Vop::ZE => Vop::YC,
            Vop::IF => Vop::ZB,
            Vop::XF => Vop::YB,
            Vop::YF => Vop::XB,
            Vop::ZF => Vop::IB,
        },
        Vop::ZD => match b {
            Vop::IA => Vop::ZD,
            Vop::XA => Vop::YD,
            Vop::YA => Vop::XD,
            Vop::ZA => Vop::ID,
            Vop::IB => Vop::ZF,
            Vop::XB => Vop::YF,
            Vop::YB => Vop::XF,
            Vop::ZB => Vop::IF,
            Vop::IC => Vop::XE,
            Vop::XC => Vop::IE,
            Vop::YC => Vop::ZE,
            Vop::ZC => Vop::YE,
            Vop::ID => Vop::YA,
            Vop::XD => Vop::ZA,
            Vop::YD => Vop::IA,
            Vop::ZD => Vop::XA,
            Vop::IE => Vop::YC,
            Vop::XE => Vop::ZC,
            Vop::YE => Vop::IC,
            Vop::ZE => Vop::XC,
            Vop::IF => Vop::XB,
            Vop::XF => Vop::IB,
            Vop::YF => Vop::ZB,
            Vop::ZF => Vop::YB,
        },
        Vop::IE => match b {
            Vop::IA => Vop::IE,
            Vop::XA => Vop::XE,
            Vop::YA => Vop::YE,
            Vop::ZA => Vop::ZE,
            Vop::IB => Vop::IC,
            Vop::XB => Vop::XC,
            Vop::YB => Vop::YC,
            Vop::ZB => Vop::ZC,
            Vop::IC => Vop::ID,
            Vop::XC => Vop::XD,
            Vop::YC => Vop::YD,
            Vop::ZC => Vop::ZD,
            Vop::ID => Vop::IB,
            Vop::XD => Vop::XB,
            Vop::YD => Vop::YB,
            Vop::ZD => Vop::ZB,
            Vop::IE => Vop::IF,
            Vop::XE => Vop::XF,
            Vop::YE => Vop::YF,
            Vop::ZE => Vop::ZF,
            Vop::IF => Vop::IA,
            Vop::XF => Vop::XA,
            Vop::YF => Vop::YA,
            Vop::ZF => Vop::ZA,
        },
        Vop::XE => match b {
            Vop::IA => Vop::XE,
            Vop::XA => Vop::IE,
            Vop::YA => Vop::ZE,
            Vop::ZA => Vop::YE,
            Vop::IB => Vop::YC,
            Vop::XB => Vop::ZC,
            Vop::YB => Vop::IC,
            Vop::ZB => Vop::XC,
            Vop::IC => Vop::ZD,
            Vop::XC => Vop::YD,
            Vop::YC => Vop::XD,
            Vop::ZC => Vop::ID,
            Vop::ID => Vop::XB,
            Vop::XD => Vop::IB,
            Vop::YD => Vop::ZB,
            Vop::ZD => Vop::YB,
            Vop::IE => Vop::ZF,
            Vop::XE => Vop::YF,
            Vop::YE => Vop::XF,
            Vop::ZE => Vop::IF,
            Vop::IF => Vop::YA,
            Vop::XF => Vop::ZA,
            Vop::YF => Vop::IA,
            Vop::ZF => Vop::XA,
        },
        Vop::YE => match b {
            Vop::IA => Vop::YE,
            Vop::XA => Vop::ZE,
            Vop::YA => Vop::IE,
            Vop::ZA => Vop::XE,
            Vop::IB => Vop::XC,
            Vop::XB => Vop::IC,
            Vop::YB => Vop::ZC,
            Vop::ZB => Vop::YC,
            Vop::IC => Vop::YD,
            Vop::XC => Vop::ZD,
            Vop::YC => Vop::ID,
            Vop::ZC => Vop::XD,
            Vop::ID => Vop::ZB,
            Vop::XD => Vop::YB,
            Vop::YD => Vop::XB,
            Vop::ZD => Vop::IB,
            Vop::IE => Vop::XF,
            Vop::XE => Vop::IF,
            Vop::YE => Vop::ZF,
            Vop::ZE => Vop::YF,
            Vop::IF => Vop::ZA,
            Vop::XF => Vop::YA,
            Vop::YF => Vop::XA,
            Vop::ZF => Vop::IA,
        },
        Vop::ZE => match b {
            Vop::IA => Vop::ZE,
            Vop::XA => Vop::YE,
            Vop::YA => Vop::XE,
            Vop::ZA => Vop::IE,
            Vop::IB => Vop::ZC,
            Vop::XB => Vop::YC,
            Vop::YB => Vop::XC,
            Vop::ZB => Vop::IC,
            Vop::IC => Vop::XD,
            Vop::XC => Vop::ID,
            Vop::YC => Vop::ZD,
            Vop::ZC => Vop::YD,
            Vop::ID => Vop::YB,
            Vop::XD => Vop::ZB,
            Vop::YD => Vop::IB,
            Vop::ZD => Vop::XB,
            Vop::IE => Vop::YF,
            Vop::XE => Vop::ZF,
            Vop::YE => Vop::IF,
            Vop::ZE => Vop::XF,
            Vop::IF => Vop::XA,
            Vop::XF => Vop::IA,
            Vop::YF => Vop::ZA,
            Vop::ZF => Vop::YA,
        },
        Vop::IF => match b {
            Vop::IA => Vop::IF,
            Vop::XA => Vop::XF,
            Vop::YA => Vop::YF,
            Vop::ZA => Vop::ZF,
            Vop::IB => Vop::ID,
            Vop::XB => Vop::XD,
            Vop::YB => Vop::YD,
            Vop::ZB => Vop::ZD,
            Vop::IC => Vop::IB,
            Vop::XC => Vop::XB,
            Vop::YC => Vop::YB,
            Vop::ZC => Vop::ZB,
            Vop::ID => Vop::IC,
            Vop::XD => Vop::XC,
            Vop::YD => Vop::YC,
            Vop::ZD => Vop::ZC,
            Vop::IE => Vop::IA,
            Vop::XE => Vop::XA,
            Vop::YE => Vop::YA,
            Vop::ZE => Vop::ZA,
            Vop::IF => Vop::IE,
            Vop::XF => Vop::XE,
            Vop::YF => Vop::YE,
            Vop::ZF => Vop::ZE,
        },
        Vop::XF => match b {
            Vop::IA => Vop::XF,
            Vop::XA => Vop::IF,
            Vop::YA => Vop::ZF,
            Vop::ZA => Vop::YF,
            Vop::IB => Vop::YD,
            Vop::XB => Vop::ZD,
            Vop::YB => Vop::ID,
            Vop::ZB => Vop::XD,
            Vop::IC => Vop::ZB,
            Vop::XC => Vop::YB,
            Vop::YC => Vop::XB,
            Vop::ZC => Vop::IB,
            Vop::ID => Vop::XC,
            Vop::XD => Vop::IC,
            Vop::YD => Vop::ZC,
            Vop::ZD => Vop::YC,
            Vop::IE => Vop::ZA,
            Vop::XE => Vop::YA,
            Vop::YE => Vop::XA,
            Vop::ZE => Vop::IA,
            Vop::IF => Vop::YE,
            Vop::XF => Vop::ZE,
            Vop::YF => Vop::IE,
            Vop::ZF => Vop::XE,
        },
        Vop::YF => match b {
            Vop::IA => Vop::YF,
            Vop::XA => Vop::ZF,
            Vop::YA => Vop::IF,
            Vop::ZA => Vop::XF,
            Vop::IB => Vop::XD,
            Vop::XB => Vop::ID,
            Vop::YB => Vop::ZD,
            Vop::ZB => Vop::YD,
            Vop::IC => Vop::YB,
            Vop::XC => Vop::ZB,
            Vop::YC => Vop::IB,
            Vop::ZC => Vop::XB,
            Vop::ID => Vop::ZC,
            Vop::XD => Vop::YC,
            Vop::YD => Vop::XC,
            Vop::ZD => Vop::IC,
            Vop::IE => Vop::XA,
            Vop::XE => Vop::IA,
            Vop::YE => Vop::ZA,
            Vop::ZE => Vop::YA,
            Vop::IF => Vop::ZE,
            Vop::XF => Vop::YE,
            Vop::YF => Vop::XE,
            Vop::ZF => Vop::IE,
        },
        Vop::ZF => match b {
            Vop::IA => Vop::ZF,
            Vop::XA => Vop::YF,
            Vop::YA => Vop::XF,
            Vop::ZA => Vop::IF,
            Vop::IB => Vop::ZD,
            Vop::XB => Vop::YD,
            Vop::YB => Vop::XD,
            Vop::ZB => Vop::ID,
            Vop::IC => Vop::XB,
            Vop::XC => Vop::IB,
            Vop::YC => Vop::ZB,
            Vop::ZC => Vop::YB,
            Vop::ID => Vop::YC,
            Vop::XD => Vop::ZC,
            Vop::YD => Vop::IC,
            Vop::ZD => Vop::XC,
            Vop::IE => Vop::YA,
            Vop::XE => Vop::ZA,
            Vop::YE => Vop::IA,
            Vop::ZE => Vop::XA,
            Vop::IF => Vop::XE,
            Vop::XF => Vop::IE,
            Vop::YF => Vop::ZE,
            Vop::ZF => Vop::YE,
        },
    }
}

impl Vop {
    /// Group product of two vertex operators, read from the composition table.
    pub fn mul(self, rhs: Vop) -> (r: Vop)
        ensures
            r == mul_spec(self, rhs),
    {
        let a = self;
        let b = rhs;
        match a {
            Vop::IA => match b {
                Vop::IA => Vop::IA,
                Vop::XA => Vop::XA,
                Vop::YA => Vop::YA,
                Vop::ZA => Vop::ZA,
                Vop::IB => Vop::IB,
                Vop::XB => Vop::XB,
                Vop::YB => Vop::YB,
                Vop::ZB => Vop::ZB,
                Vop::IC => Vop::IC,
                Vop::XC => Vop::XC,
                Vop::YC => Vop::YC,
                Vop::ZC => Vop::ZC,
                Vop::ID => Vop::ID,
                Vop::XD => Vop::XD,
                Vop::YD => Vop::YD,
                Vop::ZD => Vop::ZD,
                Vop::IE => Vop::IE,
                Vop::XE => Vop::XE,
                Vop::YE => Vop::YE,
                Vop::ZE => Vop::ZE,
                Vop::IF => Vop::IF,
                Vop::XF => Vop::XF,
                Vop::YF => Vop::YF,
                Vop::ZF => Vop::ZF,
            },
            Vop::XA => match b {
                Vop::IA => Vop::XA,
                Vop::XA => Vop::IA,
                Vop::YA => Vop::ZA,
                Vop::ZA => Vop::YA,
                Vop::IB => Vop::YB,
                Vop::XB => Vop::ZB,
                Vop::YB => Vop::IB,
                Vop::ZB => Vop::XB,
                Vop::IC => Vop::ZC,
                Vop::XC => Vop::YC,
                Vop::YC => Vop::XC,
                Vop::ZC => Vop::IC,
                Vop::ID => Vop::XD,
                Vop::XD => Vop::ID,
                Vop::YD => Vop::ZD,
                Vop::ZD => Vop::YD,
                Vop::IE => Vop::ZE,
                Vop::XE => Vop::YE,
                Vop::YE => Vop::XE,
                Vop::ZE => Vop::IE,
                Vop::IF => Vop::YF,
                Vop::XF => Vop::ZF,
                Vop::YF => Vop::IF,
                Vop::ZF => Vop::XF,
            },
            Vop::YA => match b {
                Vop::IA => Vop::YA,
                Vop::XA => Vop::ZA,
                Vop::YA => Vop::IA,
                Vop::ZA => Vop::XA,
                Vop::IB => Vop::XB,
                Vop::XB => Vop::IB,
                Vop::YB => Vop::ZB,
                Vop::ZB => Vop::YB,
                Vop::IC => Vop::YC,
                Vop::XC => Vop::ZC,
                Vop::YC => Vop::IC,
                Vop::ZC => Vop::XC,
                Vop::ID => Vop::ZD,
                Vop::XD => Vop::YD,
                Vop::YD => Vop::XD,
                Vop::ZD => Vop::ID,
                Vop::IE => Vop::XE,
                Vop::XE => Vop::IE,
                Vop::YE => Vop::ZE,
                Vop::ZE => Vop::YE,
                Vop::IF => Vop::ZF,
                Vop::XF => Vop::YF,
                Vop::YF => Vop::XF,
                Vop::ZF => Vop::IF,
            },
            Vop::ZA => match b {
                Vop::IA => Vop::ZA,
                Vop::XA => Vop::YA,
                Vop::YA => Vop::XA,
                Vop::ZA => Vop::IA,
                Vop::IB => Vop::ZB,
                Vop::XB => Vop::YB,
                Vop::YB => Vop::XB,
                Vop::ZB => Vop::IB,
                Vop::IC => Vop::XC,
                Vop::XC => Vop::IC,
                Vop::YC => Vop::ZC,
                Vop::ZC => Vop::YC,
                Vop::ID => Vop::YD,
                Vop::XD => Vop::ZD,
                Vop::YD => Vop::ID,
                Vop::ZD => Vop::XD,
                Vop::IE => Vop::YE,
                Vop::XE => Vop::ZE,
                Vop::YE => Vop::IE,
                Vop::ZE => Vop::XE,
                Vop::IF => Vop::XF,
                Vop::XF => Vop::IF,
                Vop::YF => Vop::ZF,
                Vop::ZF => Vop::YF,
            },
            Vop::IB => match b {
                Vop::IA => Vop::IB,
                Vop::XA => Vop::XB,
                Vop::YA => Vop::YB,
                Vop::ZA => Vop::ZB,
                Vop::IB => Vop::IA,
                Vop::XB => Vop::XA,
                Vop::YB => Vop::YA,
                Vop::ZB => Vop::ZA,
                Vop::IC => Vop::IF,
                Vop::XC => Vop::XF,
                Vop::YC => Vop::YF,
                Vop::ZC => Vop::ZF,
                Vop::ID => Vop::IE,
                Vop::XD => Vop::XE,
                Vop::YD => Vop::YE,
                Vop::ZD => Vop::ZE,
                Vop::IE => Vop::ID,
                Vop::XE => Vop::XD,
                Vop::YE => Vop::YD,
                Vop::ZE => Vop::ZD,
                Vop::IF => Vop::IC,
                Vop::XF => Vop::XC,
                Vop::YF => Vop::YC,
                Vop::ZF => Vop::ZC,
            },
            Vop::XB => match b {
                Vop::IA => Vop::XB,
                Vop::XA => Vop::IB,
                Vop::YA => Vop::ZB,
                Vop::ZA => Vop::YB,
                Vop::IB => Vop::YA,
                Vop::XB => Vop::ZA,
                Vop::YB => Vop::IA,
                Vop::ZB => Vop::XA,
                Vop::IC => Vop::ZF,
                Vop::XC => Vop::YF,
                Vop::YC => Vop::XF,
                Vop::ZC => Vop::IF,
                Vop::ID => Vop::XE,
                Vop::XD => Vop::IE,
                Vop::YD => Vop::ZE,
                Vop::ZD => Vop::YE,
                Vop::IE => Vop::ZD,
                Vop::XE => Vop::YD,
                Vop::YE => Vop::XD,
                Vop::ZE => Vop::ID,
                Vop::IF => Vop::YC,
                Vop::XF => Vop::ZC,
                Vop::YF => Vop::IC,
                Vop::ZF => Vop::XC,
            },
            Vop::YB => match b {
                Vop::IA => Vop::YB,
                Vop::XA => Vop::ZB,
                Vop::YA => Vop::IB,
                Vop::ZA => Vop::XB,
                Vop::IB => Vop::XA,
                Vop::XB => Vop::IA,
                Vop::YB => Vop::ZA,
                Vop::ZB => Vop::YA,
                Vop::IC => Vop::YF,
                Vop::XC => Vop::ZF,
                Vop::YC => Vop::IF,
                Vop::ZC => Vop::XF,
                Vop::ID => Vop::ZE,
                Vop::XD => Vop::YE,
                Vop::YD => Vop::XE,
                Vop::ZD => Vop::IE,
                Vop::IE => Vop::XD,
                Vop::XE => Vop::ID,
                Vop::YE => Vop::ZD,
                Vop::ZE => Vop::YD,
                Vop::IF => Vop::ZC,
                Vop::XF => Vop::YC,
                Vop::YF => Vop::XC,
                Vop::ZF => Vop::IC,
            },
            Vop::ZB => match b {
                Vop::IA => Vop::ZB,
                Vop::XA => Vop::YB,
                Vop::YA => Vop::XB,
                Vop::ZA => Vop::IB,
                Vop::IB => Vop::ZA,
                Vop::XB => Vop::YA,
                Vop::YB => Vop::XA,
                Vop::ZB => Vop::IA,
                Vop::IC => Vop::XF,
                Vop::XC => Vop::IF,
                Vop::YC => Vop::ZF,
                Vop::ZC => Vop::YF,
                Vop::ID => Vop::YE,
                Vop::XD => Vop::ZE,
                Vop::YD => Vop::IE,
                Vop::ZD => Vop::XE,
                Vop::IE => Vop::YD,
                Vop::XE => Vop::ZD,
                Vop::YE => Vop::ID,
                Vop::ZE => Vop::XD,
                Vop::IF => Vop::XC,
                Vop::XF => Vop::IC,
                Vop::YF => Vop::ZC,
                Vop::ZF => Vop::YC,
            },
            Vop::IC => match b {
                Vop::IA => Vop::IC,
                Vop::XA => Vop::XC,
                Vop::YA => Vop::YC,
                Vop::ZA => Vop::ZC,
                Vop::IB => Vop::IE,
                Vop::XB => Vop::XE,
                Vop::YB => Vop::YE,
                Vop::ZB => Vop::ZE,
                Vop::IC => Vop::IA,
                Vop::XC => Vop::XA,
                Vop::YC => Vop::YA,
                Vop::ZC => Vop::ZA,
                Vop::ID => Vop::IF,
                Vop::XD => Vop::XF,
                Vop::YD => Vop::YF,
                Vop::ZD => Vop::ZF,
                Vop::IE => Vop::IB,
                Vop::XE => Vop::XB,
                Vop::YE => Vop::YB,
                Vop::ZE => Vop::ZB,
                Vop::IF => Vop::ID,
                Vop::XF => Vop::XD,
                Vop::YF => Vop::YD,
                Vop::ZF => Vop::ZD,
            },
            Vop::XC => match b {
                Vop::IA => Vop::XC,
                Vop::XA => Vop::IC,
                Vop::YA => Vop::ZC,
                Vop::ZA => Vop::YC,
                Vop::IB => Vop::YE,
                Vop::XB => Vop::ZE,
                Vop::YB => Vop::IE,
                Vop::ZB => Vop::XE,
                Vop::IC => Vop::ZA,
                Vop::XC => Vop::YA,
                Vop::YC => Vop::XA,
                Vop::ZC => Vop::IA,
                Vop::ID => Vop::XF,
                Vop::XD => Vop::IF,
                Vop::YD => Vop::ZF,
                Vop::ZD => Vop::YF,
                Vop::IE => Vop::ZB,
                Vop::XE => Vop::YB,
                Vop::YE => Vop::XB,
                Vop::ZE => Vop::IB,
                Vop::IF => Vop::YD,
                Vop::XF => Vop::ZD,
                Vop::YF => Vop::ID,
                Vop::ZF => Vop::XD,
            },
            Vop::YC => match b {
                Vop::IA => Vop::YC,
                Vop::XA => Vop::ZC,
                Vop::YA => Vop::IC,
                Vop::ZA => Vop::XC,
                Vop::IB => Vop::XE,
                Vop::XB => Vop::IE,
                Vop::YB => Vop::ZE,
                Vop::ZB => Vop::YE,
                Vop::IC => Vop::YA,
                Vop::XC => Vop::ZA,
                Vop::YC => Vop::IA,
                Vop::ZC => Vop::XA,
                Vop::ID => Vop::ZF,
                Vop::XD => Vop::YF,
                Vop::YD => Vop::XF,
                Vop::ZD => Vop::IF,
                Vop::IE => Vop::XB,
                Vop::XE => Vop::IB,
                Vop::YE => Vop::ZB,
                Vop::ZE => Vop::YB,
                Vop::IF => Vop::ZD,
                Vop::XF => Vop::YD,
                Vop::YF => Vop::XD,
                Vop::ZF => Vop::ID,
            },
            Vop::ZC => match b {
                Vop::IA => Vop::ZC,
                Vop::XA => Vop::YC,
                Vop::YA => Vop::XC,
                Vop::ZA => Vop::IC,
                Vop::IB => Vop::ZE,
                Vop::XB => Vop::YE,
                Vop::YB => Vop::XE,
                Vop::ZB => Vop::IE,
                Vop::IC => Vop::XA,
                Vop::XC => Vop::IA,
                Vop::YC => Vop::ZA,
                Vop::ZC => Vop::YA,
                Vop::ID => Vop::YF,
                Vop::XD => Vop::ZF,
                Vop::YD => Vop::IF,
                Vop::ZD => Vop::XF,
                Vop::IE => Vop::YB,
                Vop::XE => Vop::ZB,
                Vop::YE => Vop::IB,
                Vop::ZE => Vop::XB,
                Vop::IF => Vop::XD,
                Vop::XF => Vop::ID,
                Vop::YF => Vop::ZD,
                Vop::ZF => Vop::YD,
            },
            Vop::ID => match b {
                Vop::IA => Vop::ID,
                Vop::XA => Vop::XD,
                Vop::YA => Vop::YD,
                Vop::ZA => Vop::ZD,
                Vop::IB => Vop::IF,
                Vop::XB => Vop::XF,
                Vop::YB => Vop::YF,
                Vop::ZB => Vop::ZF,
                Vop::IC => Vop::IE,
                Vop::XC => Vop::XE,
                Vop::YC => Vop::YE,
                Vop::ZC => Vop::ZE,
                Vop::ID => Vop::IA,
                Vop::XD => Vop::XA,
                Vop::YD => Vop::YA,
                Vop::ZD => Vop::ZA,
                Vop::IE => Vop::IC,
                Vop::XE => Vop::XC,
                Vop::YE => Vop::YC,
                Vop::ZE => Vop::ZC,
                Vop::IF => Vop::IB,
                Vop::XF => Vop::XB,
                Vop::YF => Vop::YB,
                Vop::ZF => Vop::ZB,
            },
            Vop::XD => match b {
                Vop::IA => Vop::XD,
                Vop::XA => Vop::ID,
                Vop::YA => Vop::ZD,
                Vop::ZA => Vop::YD,
                Vop::IB => Vop::YF,
                Vop::XB => Vop::ZF,
                Vop::YB => Vop::IF,
                Vop::ZB => Vop::XF,
                Vop::IC => Vop::ZE,
                Vop::XC => Vop::YE,
                Vop::YC => Vop::XE,
                Vop::ZC => Vop::IE,
                Vop::ID => Vop::XA,
                Vop::XD => Vop::IA,
                Vop::YD => Vop::ZA,
                Vop::ZD => Vop::YA,
                Vop::IE => Vop::ZC,
                Vop::XE => Vop::YC,
                Vop::YE => Vop::XC,
                Vop::ZE => Vop::IC,
                Vop::IF => Vop::YB,
                Vop::XF => Vop::ZB,
                Vop::YF => Vop::IB,
                Vop::ZF => Vop::XB,
            },
            Vop::YD => match b {
                Vop::IA => Vop::YD,
                Vop::XA => Vop::ZD,
                Vop::YA => Vop::ID,
                Vop::ZA => Vop::XD,
                Vop::IB => Vop::XF,
                Vop::XB => Vop::IF,
                Vop::YB => Vop::ZF,
                Vop::ZB => Vop::YF,
                Vop::IC => Vop::YE,
                Vop::XC => Vop::ZE,
                Vop::YC => Vop::IE,
                Vop::ZC => Vop::XE,
                Vop::ID => Vop::ZA,
                Vop::XD => Vop::YA,
                Vop::YD => Vop::XA,
                Vop::ZD => Vop::IA,
                Vop::IE => Vop::XC,
                Vop::XE => Vop::IC,
                Vop::YE => Vop::ZC,
                Vop::ZE => Vop::YC,
                Vop::IF => Vop::ZB,
                Vop::XF => Vop::YB,
                Vop::YF => Vop::XB,
                Vop::ZF => Vop::IB,
            },
            Vop::ZD => match b {
                Vop::IA => Vop::ZD,
                Vop::XA => Vop::YD,
                Vop::YA => Vop::XD,
                Vop::ZA => Vop::ID,
                Vop::IB => Vop::ZF,
                Vop::XB => Vop::YF,
                Vop::YB => Vop::XF,
                Vop::ZB => Vop::IF,
                Vop::IC => Vop::XE,
                Vop::XC => Vop::IE,
                Vop::YC => Vop::ZE,
                Vop::ZC => Vop::YE,
                Vop::ID => Vop::YA,
                Vop::XD => Vop::ZA,
                Vop::YD => Vop::IA,
                Vop::ZD => Vop::XA,
                Vop::IE => Vop::YC,
                Vop::XE => Vop::ZC,
                Vop::YE => Vop::IC,
                Vop::ZE => Vop::XC,
                Vop::IF => Vop::XB,
                Vop::XF => Vop::IB,
                Vop::YF => Vop::ZB,
                Vop::ZF => Vop::YB,
            },
            Vop::IE => match b {
                Vop::IA => Vop::IE,
                Vop::XA => Vop::XE,
                Vop::YA => Vop::YE,
                Vop::ZA => Vop::ZE,
                Vop::IB => Vop::IC,
                Vop::XB => Vop::XC,
                Vop::YB => Vop::YC,
                Vop::ZB => Vop::ZC,
                Vop::IC => Vop::ID,
                Vop::XC => Vop::XD,
                Vop::YC => Vop::YD,
                Vop::ZC => Vop::ZD,
                Vop::ID => Vop::IB,
                Vop::XD => Vop::XB,
                Vop::YD => Vop::YB,
                Vop::ZD => Vop::ZB,
                Vop::IE => Vop::IF,
                Vop::XE => Vop::XF,
                Vop::YE => Vop::YF,
                Vop::ZE => Vop::ZF,
                Vop::IF => Vop::IA,
                Vop::XF => Vop::XA,
                Vop::YF => Vop::YA,
                Vop::ZF => Vop::ZA,
            },
            Vop::XE => match b {
                Vop::IA => Vop::XE,
                Vop::XA => Vop::IE,
                Vop::YA => Vop::ZE,
                Vop::ZA => Vop::YE,
                Vop::IB => Vop::YC,
                Vop::XB => Vop::ZC,
                Vop::YB => Vop::IC,
                Vop::ZB => Vop::XC,
                Vop::IC => Vop::ZD,
                Vop::XC => Vop::YD,
                Vop::YC => Vop::XD,
                Vop::ZC => Vop::ID,
                Vop::ID => Vop::XB,
                Vop::XD => Vop::IB,
                Vop::YD => Vop::ZB,
                Vop::ZD => Vop::YB,
                Vop::IE => Vop::ZF,
                Vop::XE => Vop::YF,
                Vop::YE => Vop::XF,
                Vop::ZE => Vop::IF,
                Vop::IF => Vop::YA,
                Vop::XF => Vop::ZA,
                Vop::YF => Vop::IA,
                Vop::ZF => Vop::XA,
            },
            Vop::YE => match b {
                Vop::IA => Vop::YE,
                Vop::XA => Vop::ZE,
                Vop::YA => Vop::IE,
                Vop::ZA => Vop::XE,
                Vop::IB => Vop::XC,
                Vop::XB => Vop::IC,
                Vop::YB => Vop::ZC,
                Vop::ZB => Vop::YC,
                Vop::IC => Vop::YD,
                Vop::XC => Vop::ZD,
                Vop::YC => Vop::ID,
                Vop::ZC => Vop::XD,
                Vop::ID => Vop::ZB,
                Vop::XD => Vop::YB,
                Vop::YD => Vop::XB,
                Vop::ZD => Vop::IB,
                Vop::IE => Vop::XF,
                Vop::XE => Vop::IF,
                Vop::YE => Vop::ZF,
                Vop::ZE => Vop::YF,
                Vop::IF => Vop::ZA,
                Vop::XF => Vop::YA,
                Vop::YF => Vop::XA,
                Vop::ZF => Vop::IA,
            },
            Vop::ZE => match b {
                Vop::IA => Vop::ZE,
                Vop::XA => Vop::YE,
                Vop::YA => Vop::XE,
                Vop::ZA => Vop::IE,
                Vop::IB => Vop::ZC,
                Vop::XB => Vop::YC,
                Vop::YB => Vop::XC,
                Vop::ZB => Vop::IC,
                Vop::IC => Vop::XD,
                Vop::XC => Vop::ID,
                Vop::YC => Vop::ZD,
                Vop::ZC => Vop::YD,
                Vop::ID => Vop::YB,
                Vop::XD => Vop::ZB,
                Vop::YD => Vop::IB,
                Vop::ZD => Vop::XB,
                Vop::IE => Vop::YF,
                Vop::XE => Vop::ZF,
                Vop::YE => Vop::IF,
                Vop::ZE => Vop::XF,
                Vop::IF => Vop::XA,
                Vop::XF => Vop::IA,
                Vop::YF => Vop::ZA,
                Vop::ZF => Vop::YA,
            },
            Vop::IF => match b {
                Vop::IA => Vop::IF,
                Vop::XA => Vop::XF,
                Vop::YA => Vop::YF,
                Vop::ZA => Vop::ZF,
                Vop::IB => Vop::ID,
                Vop::XB => Vop::XD,
                Vop::YB => Vop::YD,
                Vop::ZB => Vop::ZD,
                Vop::IC => Vop::IB,
                Vop::XC => Vop::XB,
                Vop::YC => Vop::YB,
                Vop::ZC => Vop::ZB,
                Vop::ID => Vop::IC,
                Vop::XD => Vop::XC,
                Vop::YD => Vop::YC,
                Vop::ZD => Vop::ZC,
                Vop::IE => Vop::IA,
                Vop::XE => Vop::XA,
                Vop::YE => Vop::YA,
                Vop::ZE => Vop::ZA,
                Vop::IF => Vop::IE,
                Vop::XF => Vop::XE,
                Vop::YF => Vop::YE,
                Vop::ZF => Vop::ZE,
            },
            Vop::XF => match b {
                Vop::IA => Vop::XF,
                Vop::XA => Vop::IF,
                Vop::YA => Vop::ZF,
                Vop::ZA => Vop::YF,
                Vop::IB => Vop::YD,
                Vop::XB => Vop::ZD,
                Vop::YB => Vop::ID,
                Vop::ZB => Vop::XD,
                Vop::IC => Vop::ZB,
                Vop::XC => Vop::YB,
                Vop::YC => Vop::XB,
                Vop::ZC => Vop::IB,
                Vop::ID => Vop::XC,
                Vop::XD => Vop::IC,
                Vop::YD => Vop::ZC,
                Vop::ZD => Vop::YC,
                Vop::IE => Vop::ZA,
                Vop::XE => Vop::YA,
                Vop::YE => Vop::XA,
                Vop::ZE => Vop::IA,
                Vop::IF => Vop::YE,
                Vop::XF => Vop::ZE,
                Vop::YF => Vop::IE,
                Vop::ZF => Vop::XE,
            },
            Vop::YF => match b {
                Vop::IA => Vop::YF,
                Vop::XA => Vop::ZF,
                Vop::YA => Vop::IF,
                Vop::ZA => Vop::XF,
                Vop::IB => Vop::XD,
                Vop::XB => Vop::ID,
                Vop::YB => Vop::ZD,
                Vop::ZB => Vop::YD,
                Vop::IC => Vop::YB,
                Vop::XC => Vop::ZB,
                Vop::YC => Vop::IB,
                Vop::ZC => Vop::XB,
                Vop::ID => Vop::ZC,
                Vop::XD => Vop::YC,
                Vop::YD => Vop::XC,
                Vop::ZD => Vop::IC,
                Vop::IE => Vop::XA,
                Vop::XE => Vop::IA,
                Vop::YE => Vop::ZA,
                Vop::ZE => Vop::YA,
                Vop::IF => Vop::ZE,
                Vop::XF => Vop::YE,
                Vop::YF => Vop::XE,
                Vop::ZF => Vop::IE,
            },
            Vop::ZF => match b {
                Vop::IA => Vop::ZF,
                Vop::XA => Vop::YF,
                Vop::YA => Vop::XF,
                Vop::ZA => Vop::IF,
                Vop::IB => Vop::ZD,
                Vop::XB => Vop::YD,
                Vop::YB => Vop::XD,
                Vop::ZB => Vop::ID,
                Vop::IC => Vop::XB,
                Vop::XC => Vop::IB,
                Vop::YC => Vop::ZB,
                Vop::ZC => Vop::YB,
                Vop::ID => Vop::YC,
                Vop::XD => Vop::ZC,
                Vop::YD => Vop::IC,
                Vop::ZD => Vop::XC,
                Vop::IE => Vop::YA,
                Vop::XE => Vop::ZA,
                Vop::YE => Vop::IA,
                Vop::ZE => Vop::XA,
                Vop::IF => Vop::XE,
                Vop::XF => Vop::IE,
                Vop::YF => Vop::ZE,
                Vop::ZF => Vop::YE,
            },
        }
    }
}

} // verus!
