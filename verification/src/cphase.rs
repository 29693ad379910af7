use vstd::prelude::*;

use crate::vop::Vop;
use crate::vop::is_in_z_spec;

verus! {

/// The CZ conjugation table: given whether the edge between the two
/// endpoints is present and their two (Z-commuting) vertex operators, it
/// yields the edge state and the two vertex operators once CZ has acted.
pub open spec fn cphase_spec(had_edge: bool, a: Vop, b: Vop) -> (bool, Vop, Vop) {
    if had_edge {
        match a {
            Vop::IA => match b {
                Vop::IA => (false, Vop::IA, Vop::IA),
                Vop::XA => (false, Vop::ZA, Vop::IA),
                Vop::YA => (false, Vop::ZA, Vop::YA),
                Vop::ZA => (false, Vop::IA, Vop::ZA),
                Vop::IB => (false, Vop::ZA, Vop::IB),
                Vop::XB => (false, Vop::IA, Vop::XB),
                Vop::YB => (false, Vop::IA, Vop::YB),
                Vop::ZB => (false, Vop::ZA, Vop::YB),
                Vop::IC => (true, Vop::XB, Vop::ZF),
                Vop::XC => (true, Vop::XB, Vop::YF),
                Vop::YC => (true, Vop::XB, Vop::XF),
                Vop::ZC => (true, Vop::XB, Vop::IF),
                Vop::ID => (false, Vop::XB, Vop::YA),
                Vop::XD => (false, Vop::YB, Vop::YA),
                Vop::YD => (false, Vop::XB, Vop::IA),
                Vop::ZD => (false, Vop::YB, Vop::IA),
                Vop::IE => (false, Vop::YB, Vop::YB),
                Vop::XE => (false, Vop::XB, Vop::YB),
                Vop::YE => (false, Vop::YB, Vop::IB),
                Vop::ZE => (false, Vop::XB, Vop::IB),
                Vop::IF => (true, Vop::XB, Vop::YC),
                Vop::XF => (true, Vop::XB, Vop::ZC),
                Vop::YF => (true, Vop::XB, Vop::IC),
                Vop::ZF => (true, Vop::XB, Vop::XC),
            },
            Vop::XA => match b {
                Vop::IA => (false, Vop::IA, Vop::ZA),
                Vop::XA => (false, Vop::YA, Vop::YA),
                Vop::YA => (false, Vop::YA, Vop::IA),
                Vop::ZA => (false, Vop::IA, Vop::IA),
                Vop::IB => (false, Vop::YA, Vop::YB),
                Vop::XB => (false, Vop::IA, Vop::YB),
                Vop::YB => (false, Vop::IA, Vop::XB),
                Vop::ZB => (false, Vop::YA, Vop::IB),
                Vop::IC => (true, Vop::IB, Vop::ZF),
                Vop::XC => (true, Vop::IB, Vop::YF),
                Vop::YC => (true, Vop::IB, Vop::XF),
                Vop::ZC => (true, Vop::IB, Vop::IF),
                Vop::ID => (false, Vop::YB, Vop::IA),
                Vop::XD => (false, Vop::IB, Vop::IA),
                Vop::YD => (false, Vop::YB, Vop::YA),
                Vop::ZD => (false, Vop::IB, Vop::YA),
                Vop::IE => (false, Vop::IB, Vop::IB),
                Vop::XE => (false, Vop::YB, Vop::IB),
                Vop::YE => (false, Vop::IB, Vop::YB),
                Vop::ZE => (false, Vop::YB, Vop::YB),
                Vop::IF => (true, Vop::IB, Vop::YC),
                Vop::XF => (true, Vop::IB, Vop::ZC),
                Vop::YF => (true, Vop::IB, Vop::IC),
                Vop::ZF => (true, Vop::IB, Vop::XC),
            },
            Vop::YA => match b {
                Vop::IA => (false, Vop::YA, Vop::ZA),
                Vop::XA => (false, Vop::IA, Vop::YA),
                Vop::YA => (false, Vop::IA, Vop::IA),
                Vop::ZA => (false, Vop::YA, Vop::IA),
                Vop::IB => (false, Vop::IA, Vop::YB),
                Vop::XB => (false, Vop::YA, Vop::YB),
                Vop::YB => (false, Vop::YA, Vop::XB),
                Vop::ZB => (false, Vop::IA, Vop::IB),
                Vop::IC => (true, Vop::IB, Vop::YF),
                Vop::XC => (true, Vop::IB, Vop::ZF),
                Vop::YC => (true, Vop::IB, Vop::IF),
                Vop::ZC => (true, Vop::IB, Vop::XF),
                Vop::ID => (false, Vop::IB, Vop::IA),
                Vop::XD => (false, Vop::YB, Vop::IA),
                Vop::YD => (false, Vop::IB, Vop::YA),
                Vop::ZD => (false, Vop::YB, Vop::YA),
                Vop::IE => (false, Vop::YB, Vop::IB),
                Vop::XE => (false, Vop::IB, Vop::IB),
                Vop::YE => (false, Vop::YB, Vop::YB),
                Vop::ZE => (false, Vop::IB, Vop::YB),
                Vop::IF => (true, Vop::IB, Vop::ZC),
                Vop::XF => (true, Vop::IB, Vop::YC),
                Vop::YF => (true, Vop::IB, Vop::XC),
                Vop::ZF => (true, Vop::IB, Vop::IC),
            },
            Vop::ZA => match b {
                Vop::IA => (false, Vop::ZA, Vop::IA),
                Vop::XA => (false, Vop::IA, Vop::IA),
                Vop::YA => (false, Vop::IA, Vop::YA),
                Vop::ZA => (false, Vop::ZA, Vop::ZA),
                Vop::IB => (false, Vop::IA, Vop::IB),
                Vop::XB => (false, Vop::ZA, Vop::XB),
                Vop::YB => (false, Vop::ZA, Vop::YB),
                Vop::ZB => (false, Vop::IA, Vop::YB),
                Vop::IC => (true, Vop::XB, Vop::YF),
                Vop::XC => (true, Vop::XB, Vop::ZF),
                Vop::YC => (true, Vop::XB, Vop::IF),
                Vop::ZC => (true, Vop::XB, Vop::XF),
                Vop::ID => (false, Vop::YB, Vop::YA),
                Vop::XD => (false, Vop::XB, Vop::YA),
                Vop::YD => (false, Vop::YB, Vop::IA),
                Vop::ZD => (false, Vop::XB, Vop::IA),
                Vop::IE => (false, Vop::XB, Vop::YB),
                Vop::XE => (false, Vop::YB, Vop::YB),
                Vop::YE => (false, Vop::XB, Vop::IB),
                Vop::ZE => (false, Vop::YB, Vop::IB),
                Vop::IF => (true, Vop::XB, Vop::ZC),
                Vop::XF => (true, Vop::XB, Vop::YC),
                Vop::YF => (true, Vop::XB, Vop::XC),
                Vop::ZF => (true, Vop::XB, Vop::IC),
            },
            Vop::IB => match b {
                Vop::IA => (false, Vop::IB, Vop::ZA),
                Vop::XA => (false, Vop::YB, Vop::YA),
                Vop::YA => (false, Vop::YB, Vop::IA),
                Vop::ZA => (false, Vop::IB, Vop::IA),
                Vop::IB => (false, Vop::YB, Vop::YB),
                Vop::XB => (false, Vop::IB, Vop::YB),
                Vop::YB => (false, Vop::IB, Vop::XB),
                Vop::ZB => (false, Vop::YB, Vop::IB),
                Vop::IC => (true, Vop::IA, Vop::XF),
                Vop::XC => (true, Vop::IA, Vop::IF),
                Vop::YC => (true, Vop::IA, Vop::ZF),
                Vop::ZC => (true, Vop::IA, Vop::YF),
                Vop::ID => (false, Vop::IA, Vop::IA),
                Vop::XD => (false, Vop::YA, Vop::IA),
                Vop::YD => (false, Vop::IA, Vop::YA),
                Vop::ZD => (false, Vop::YA, Vop::YA),
                Vop::IE => (false, Vop::YA, Vop::IB),
                Vop::XE => (false, Vop::IA, Vop::IB),
                Vop::YE => (false, Vop::YA, Vop::YB),
                Vop::ZE => (false, Vop::IA, Vop::YB),
                Vop::IF => (true, Vop::IA, Vop::IC),
                Vop::XF => (true, Vop::IA, Vop::XC),
                Vop::YF => (true, Vop::IA, Vop::YC),
                Vop::ZF => (true, Vop::IA, Vop::ZC),
            },
            Vop::XB => match b {
                Vop::IA => (false, Vop::XB, Vop::IA),
                Vop::XA => (false, Vop::YB, Vop::IA),
                Vop::YA => (false, Vop::YB, Vop::YA),
                Vop::ZA => (false, Vop::XB, Vop::ZA),
                Vop::IB => (false, Vop::YB, Vop::IB),
                Vop::XB => (false, Vop::XB, Vop::XB),
                Vop::YB => (false, Vop::XB, Vop::YB),
                Vop::ZB => (false, Vop::YB, Vop::YB),
                Vop::IC => (true, Vop::IA, Vop::YF),
                Vop::XC => (true, Vop::IA, Vop::ZF),
                Vop::YC => (true, Vop::IA, Vop::IF),
                Vop::ZC => (true, Vop::IA, Vop::XF),
                Vop::ID => (false, Vop::ZA, Vop::YA),
                Vop::XD => (false, Vop::IA, Vop::YA),
                Vop::YD => (false, Vop::ZA, Vop::IA),
                Vop::ZD => (false, Vop::IA, Vop::IA),
                Vop::IE => (false, Vop::IA, Vop::YB),
                Vop::XE => (false, Vop::ZA, Vop::YB),
                Vop::YE => (false, Vop::IA, Vop::IB),
                Vop::ZE => (false, Vop::ZA, Vop::IB),
                Vop::IF => (true, Vop::IA, Vop::ZC),
                Vop::XF => (true, Vop::IA, Vop::YC),
                Vop::YF => (true, Vop::IA, Vop::XC),
                Vop::ZF => (true, Vop::IA, Vop::IC),
            },
            Vop::YB => match b {
                Vop::IA => (false, Vop::YB, Vop::IA),
                Vop::XA => (false, Vop::XB, Vop::IA),
                Vop::YA => (false, Vop::XB, Vop::YA),
                Vop::ZA => (false, Vop::YB, Vop::ZA),
                Vop::IB => (false, Vop::XB, Vop::IB),
                Vop::XB => (false, Vop::YB, Vop::XB),
                Vop::YB => (false, Vop::YB, Vop::YB),
                Vop::ZB => (false, Vop::XB, Vop::YB),
                Vop::IC => (true, Vop::IA, Vop::ZF),
                Vop::XC => (true, Vop::IA, Vop::YF),
                Vop::YC => (true, Vop::IA, Vop::XF),
                Vop::ZC => (true, Vop::IA, Vop::IF),
                Vop::ID => (false, Vop::IA, Vop::YA),
                Vop::XD => (false, Vop::ZA, Vop::YA),
                Vop::YD => (false, Vop::IA, Vop::IA),
                Vop::ZD => (false, Vop::ZA, Vop::IA),
                Vop::IE => (false, Vop::ZA, Vop::YB),
                Vop::XE => (false, Vop::IA, Vop::YB),
                Vop::YE => (false, Vop::ZA, Vop::IB),
                Vop::ZE => (false, Vop::IA, Vop::IB),
                Vop::IF => (true, Vop::IA, Vop::YC),
                Vop::XF => (true, Vop::IA, Vop::ZC),
                Vop::YF => (true, Vop::IA, Vop::IC),
                Vop::ZF => (true, Vop::IA, Vop::XC),
            },
            Vop::ZB => match b {
                Vop::IA => (false, Vop::YB, Vop::ZA),
                Vop::XA => (false, Vop::IB, Vop::YA),
                Vop::YA => (false, Vop::IB, Vop::IA),
                Vop::ZA => (false, Vop::YB, Vop::IA),
                Vop::IB => (false, Vop::IB, Vop::YB),
                Vop::XB => (false, Vop::YB, Vop::YB),
                Vop::YB => (false, Vop::YB, Vop::XB),
                Vop::ZB => (false, Vop::IB, Vop::IB),
                Vop::IC => (true, Vop::IA, Vop::IF),
                Vop::XC => (true, Vop::IA, Vop::XF),
                Vop::YC => (true, Vop::IA, Vop::YF),
                Vop::ZC => (true, Vop::IA, Vop::ZF),
                Vop::ID => (false, Vop::YA, Vop::IA),
                Vop::XD => (false, Vop::IA, Vop::IA),
                Vop::YD => (false, Vop::YA, Vop::YA),
                Vop::ZD => (false, Vop::IA, Vop::YA),
                Vop::IE => (false, Vop::IA, Vop::IB),
                Vop::XE => (false, Vop::YA, Vop::IB),
                Vop::YE => (false, Vop::IA, Vop::YB),
                Vop::ZE => (false, Vop::YA, Vop::YB),
                Vop::IF => (true, Vop::IA, Vop::XC),
                Vop::XF => (true, Vop::IA, Vop::IC),
                Vop::YF => (true, Vop::IA, Vop::ZC),
                Vop::ZF => (true, Vop::IA, Vop::YC),
            },
            Vop::IC => match b {
                Vop::IA => (true, Vop::YF, Vop::YB),
                Vop::XA => (true, Vop::IF, Vop::XB),
                Vop::YA => (true, Vop::IF, Vop::YB),
                Vop::ZA => (true, Vop::YF, Vop::XB),
                Vop::IB => (true, Vop::IF, Vop::ZA),
                Vop::XB => (true, Vop::YF, Vop::IA),
                Vop::YB => (true, Vop::YF, Vop::ZA),
                Vop::ZB => (true, Vop::IF, Vop::IA),
                Vop::IC => (false, Vop::IA, Vop::IA),
                Vop::XC => (false, Vop::IA, Vop::YA),
                Vop::YC => (false, Vop::YA, Vop::YA),
                Vop::ZC => (false, Vop::YA, Vop::IA),
                Vop::ID => (false, Vop::YB, Vop::YB),
                Vop::XD => (false, Vop::IB, Vop::IB),
                Vop::YD => (false, Vop::YB, Vop::IB),
                Vop::ZD => (false, Vop::IB, Vop::YB),
                Vop::IE => (false, Vop::IB, Vop::YA),
                Vop::XE => (false, Vop::YB, Vop::IA),
                Vop::YE => (false, Vop::IB, Vop::IA),
                Vop::ZE => (false, Vop::YB, Vop::YA),
                Vop::IF => (false, Vop::YA, Vop::IB),
                Vop::XF => (false, Vop::YA, Vop::YB),
                Vop::YF => (false, Vop::IA, Vop::YB),
                Vop::ZF => (false, Vop::IA, Vop::IB),
            },
            Vop::XC => match b {
                Vop::IA => (true, Vop::YF, Vop::XB),
                Vop::XA => (true, Vop::IF, Vop::YB),
                Vop::YA => (true, Vop::IF, Vop::XB),
                Vop::ZA => (true, Vop::YF, Vop::YB),
                Vop::IB => (true, Vop::IF, Vop::IA),
                Vop::XB => (true, Vop::YF, Vop::ZA),
                Vop::YB => (true, Vop::YF, Vop::IA),
                Vop::ZB => (true, Vop::IF, Vop::ZA),
                Vop::IC => (false, Vop::YA, Vop::IA),
                Vop::XC => (false, Vop::YA, Vop::YA),
                Vop::YC => (false, Vop::IA, Vop::YA),
                Vop::ZC => (false, Vop::IA, Vop::IA),
                Vop::ID => (false, Vop::IB, Vop::YB),
                Vop::XD => (false, Vop::YB, Vop::IB),
                Vop::YD => (false, Vop::IB, Vop::IB),
                Vop::ZD => (false, Vop::YB, Vop::YB),
                Vop::IE => (false, Vop::YB, Vop::YA),
                Vop::XE => (false, Vop::IB, Vop::IA),
                Vop::YE => (false, Vop::YB, Vop::IA),
                Vop::ZE => (false, Vop::IB, Vop::YA),
                Vop::IF => (false, Vop::IA, Vop::IB),
                Vop::XF => (false, Vop::IA, Vop::YB),
                Vop::YF => (false, Vop::YA, Vop::YB),
                Vop::ZF => (false, Vop::YA, Vop::IB),
            },
            Vop::YC => match b {
                Vop::IA => (true, Vop::IF, Vop::YB),
                Vop::XA => (true, Vop::IF, Vop::ZB),
                Vop::YA => (true, Vop::IF, Vop::IB),
                Vop::ZA => (true, Vop::IF, Vop::XB),
                Vop::IB => (true, Vop::IF, Vop::XA),
                Vop::XB => (true, Vop::IF, Vop::IA),
                Vop::YB => (true, Vop::IF, Vop::ZA),
                Vop::ZB => (true, Vop::IF, Vop::YA),
                Vop::IC => (false, Vop::YA, Vop::YA),
                Vop::XC => (false, Vop::YA, Vop::IA),
                Vop::YC => (false, Vop::IA, Vop::IA),
                Vop::ZC => (false, Vop::IA, Vop::YA),
                Vop::ID => (false, Vop::YB, Vop::IB),
                Vop::XD => (false, Vop::IB, Vop::YB),
                Vop::YD => (false, Vop::YB, Vop::YB),
                Vop::ZD => (false, Vop::IB, Vop::IB),
                Vop::IE => (false, Vop::IB, Vop::IA),
                Vop::XE => (false, Vop::YB, Vop::YA),
                Vop::YE => (false, Vop::IB, Vop::YA),
                Vop::ZE => (false, Vop::YB, Vop::IA),
                Vop::IF => (false, Vop::IA, Vop::YB),
                Vop::XF => (false, Vop::IA, Vop::IB),
                Vop::YF => (false, Vop::YA, Vop::IB),
                Vop::ZF => (false, Vop::YA, Vop::YB),
            },
            Vop::ZC => match b {
                Vop::IA => (true, Vop::IF, Vop::XB),
                Vop::XA => (true, Vop::IF, Vop::IB),
                Vop::YA => (true, Vop::IF, Vop::ZB),
                Vop::ZA => (true, Vop::IF, Vop::YB),
                Vop::IB => (true, Vop::IF, Vop::YA),
                Vop::XB => (true, Vop::IF, Vop::ZA),
                Vop::YB => (true, Vop::IF, Vop::IA),
                Vop::ZB => (true, Vop::IF, Vop::XA),
                Vop::IC => (false, Vop::IA, Vop::YA),
                Vop::XC => (false, Vop::IA, Vop::IA),
                Vop::YC => (false, Vop::YA, Vop::IA),
                Vop::ZC => (false, Vop::YA, Vop::YA),
                Vop::ID => (false, Vop::IB, Vop::IB),
                Vop::XD => (false, Vop::YB, Vop::YB),
                Vop::YD => (false, Vop::IB, Vop::YB),
                Vop::ZD => (false, Vop::YB, Vop::IB),
                Vop::IE => (false, Vop::YB, Vop::IA),
                Vop::XE => (false, Vop::IB, Vop::YA),
                Vop::YE => (false, Vop::YB, Vop::YA),
                Vop::ZE => (false, Vop::IB, Vop::IA),
                Vop::IF => (false, Vop::YA, Vop::YB),
                Vop::XF => (false, Vop::YA, Vop::IB),
                Vop::YF => (false, Vop::IA, Vop::IB),
                Vop::ZF => (false, Vop::IA, Vop::YB),
            },
            Vop::ID => match b {
                Vop::IA => (false, Vop::YA, Vop::XB),
                Vop::XA => (false, Vop::IA, Vop::YB),
                Vop::YA => (false, Vop::IA, Vop::IB),
                Vop::ZA => (false, Vop::YA, Vop::YB),
                Vop::IB => (false, Vop::IA, Vop::IA),
                Vop::XB => (false, Vop::YA, Vop::ZA),
                Vop::YB => (false, Vop::YA, Vop::IA),
                Vop::ZB => (false, Vop::IA, Vop::YA),
                Vop::IC => (false, Vop::YB, Vop::YB),
                Vop::XC => (false, Vop::YB, Vop::IB),
                Vop::YC => (false, Vop::IB, Vop::YB),
                Vop::ZC => (false, Vop::IB, Vop::IB),
                Vop::ID => (true, Vop::IE, Vop::YE),
                Vop::XD => (true, Vop::IE, Vop::ZE),
                Vop::YD => (true, Vop::IE, Vop::IE),
                Vop::ZD => (true, Vop::IE, Vop::XE),
                Vop::IE => (true, Vop::IE, Vop::ID),
                Vop::XE => (true, Vop::IE, Vop::XD),
                Vop::YE => (true, Vop::IE, Vop::YD),
                Vop::ZE => (true, Vop::IE, Vop::ZD),
                Vop::IF => (false, Vop::IB, Vop::YA),
                Vop::XF => (false, Vop::IB, Vop::IA),
                Vop::YF => (false, Vop::YB, Vop::YA),
                Vop::ZF => (false, Vop::YB, Vop::IA),
            },
            Vop::XD => match b {
                Vop::IA => (false, Vop::YA, Vop::YB),
                Vop::XA => (false, Vop::IA, Vop::IB),
                Vop::YA => (false, Vop::IA, Vop::YB),
                Vop::ZA => (false, Vop::YA, Vop::XB),
                Vop::IB => (false, Vop::IA, Vop::YA),
                Vop::XB => (false, Vop::YA, Vop::IA),
                Vop::YB => (false, Vop::YA, Vop::ZA),
                Vop::ZB => (false, Vop::IA, Vop::IA),
                Vop::IC => (false, Vop::IB, Vop::IB),
                Vop::XC => (false, Vop::IB, Vop::YB),
                Vop::YC => (false, Vop::YB, Vop::IB),
                Vop::ZC => (false, Vop::YB, Vop::YB),
                Vop::ID => (true, Vop::IE, Vop::XE),
                Vop::XD => (true, Vop::IE, Vop::IE),
                Vop::YD => (true, Vop::IE, Vop::ZE),
                Vop::ZD => (true, Vop::IE, Vop::YE),
                Vop::IE => (true, Vop::IE, Vop::ZD),
                Vop::XE => (true, Vop::IE, Vop::YD),
                Vop::YE => (true, Vop::IE, Vop::XD),
                Vop::ZE => (true, Vop::IE, Vop::ID),
                Vop::IF => (false, Vop::YB, Vop::IA),
                Vop::XF => (false, Vop::YB, Vop::YA),
                Vop::YF => (false, Vop::IB, Vop::IA),
                Vop::ZF => (false, Vop::IB, Vop::YA),
            },
            Vop::YD => match b {
                Vop::IA => (false, Vop::IA, Vop::XB),
                Vop::XA => (false, Vop::YA, Vop::YB),
                Vop::YA => (false, Vop::YA, Vop::IB),
                Vop::ZA => (false, Vop::IA, Vop::YB),
                Vop::IB => (false, Vop::YA, Vop::IA),
                Vop::XB => (false, Vop::IA, Vop::ZA),
                Vop::YB => (false, Vop::IA, Vop::IA),
                Vop::ZB => (false, Vop::YA, Vop::YA),
                Vop::IC => (false, Vop::IB, Vop::YB),
                Vop::XC => (false, Vop::IB, Vop::IB),
                Vop::YC => (false, Vop::YB, Vop::YB),
                Vop::ZC => (false, Vop::YB, Vop::IB),
                Vop::ID => (true, Vop::IE, Vop::IE),
                Vop::XD => (true, Vop::IE, Vop::XE),
                Vop::YD => (true, Vop::IE, Vop::YE),
                Vop::ZD => (true, Vop::IE, Vop::ZE),
                Vop::IE => (true, Vop::IE, Vop::YD),
                Vop::XE => (true, Vop::IE, Vop::ZD),
                Vop::YE => (true, Vop::IE, Vop::ID),
                Vop::ZE => (true, Vop::IE, Vop::XD),
                Vop::IF => (false, Vop::YB, Vop::YA),
                Vop::XF => (false, Vop::YB, Vop::IA),
                Vop::YF => (false, Vop::IB, Vop::YA),
                Vop::ZF => (false, Vop::IB, Vop::IA),
            },
            Vop::ZD => match b {
                Vop::IA => (false, Vop::IA, Vop::YB),
                Vop::XA => (false, Vop::YA, Vop::IB),
                Vop::YA => (false, Vop::YA, Vop::YB),
                Vop::ZA => (false, Vop::IA, Vop::XB),
                Vop::IB => (false, Vop::YA, Vop::YA),
                Vop::XB => (false, Vop::IA, Vop::IA),
                Vop::YB => (false, Vop::IA, Vop::ZA),
                Vop::ZB => (false, Vop::YA, Vop::IA),
                Vop::IC => (false, Vop::YB, Vop::IB),
                Vop::XC => (false, Vop::YB, Vop::YB),
                Vop::YC => (false, Vop::IB, Vop::IB),
                Vop::ZC => (false, Vop::IB, Vop::YB),
                Vop::ID => (true, Vop::IE, Vop::ZE),
                Vop::XD => (true, Vop::IE, Vop::YE),
                Vop::YD => (true, Vop::IE, Vop::XE),
                Vop::ZD => (true, Vop::IE, Vop::IE),
                Vop::IE => (true, Vop::IE, Vop::XD),
                Vop::XE => (true, Vop::IE, Vop::ID),
                Vop::YE => (true, Vop::IE, Vop::ZD),
                Vop::ZE => (true, Vop::IE, Vop::YD),
                Vop::IF => (false, Vop::IB, Vop::IA),
                Vop::XF => (false, Vop::IB, Vop::YA),
                Vop::YF => (false, Vop::YB, Vop::IA),
                Vop::ZF => (false, Vop::YB, Vop::YA),
            },
            Vop::IE => match b {
                Vop::IA => (false, Vop::YB, Vop::YB),
                Vop::XA => (false, Vop::IB, Vop::IB),
                Vop::YA => (false, Vop::IB, Vop::YB),
                Vop::ZA => (false, Vop::YB, Vop::XB),
                Vop::IB => (false, Vop::IB, Vop::YA),
                Vop::XB => (false, Vop::YB, Vop::IA),
                Vop::YB => (false, Vop::YB, Vop::ZA),
                Vop::ZB => (false, Vop::IB, Vop::IA),
                Vop::IC => (false, Vop::YA, Vop::IB),
                Vop::XC => (false, Vop::YA, Vop::YB),
                Vop::YC => (false, Vop::IA, Vop::IB),
                Vop::ZC => (false, Vop::IA, Vop::YB),
                Vop::ID => (true, Vop::ID, Vop::IE),
                Vop::XD => (true, Vop::ID, Vop::XE),
                Vop::YD => (true, Vop::ID, Vop::YE),
                Vop::ZD => (true, Vop::ID, Vop::ZE),
                Vop::IE => (true, Vop::ID, Vop::YD),
                Vop::XE => (true, Vop::ID, Vop::ZD),
                Vop::YE => (true, Vop::ID, Vop::ID),
                Vop::ZE => (true, Vop::ID, Vop::XD),
                Vop::IF => (false, Vop::IA, Vop::IA),
                Vop::XF => (false, Vop::IA, Vop::YA),
                Vop::YF => (false, Vop::YA, Vop::IA),
                Vop::ZF => (false, Vop::YA, Vop::YA),
            },
            Vop::XE => match b {
                Vop::IA => (false, Vop::YB, Vop::XB),
                Vop::XA => (false, Vop::IB, Vop::YB),
                Vop::YA => (false, Vop::IB, Vop::IB),
                Vop::ZA => (false, Vop::YB, Vop::YB),
                Vop::IB => (false, Vop::IB, Vop::IA),
                Vop::XB => (false, Vop::YB, Vop::ZA),
                Vop::YB => (false, Vop::YB, Vop::IA),
                Vop::ZB => (false, Vop::IB, Vop::YA),
                Vop::IC => (false, Vop::IA, Vop::YB),
                Vop::XC => (false, Vop::IA, Vop::IB),
                Vop::YC => (false, Vop::YA, Vop::YB),
                Vop::ZC => (false, Vop::YA, Vop::IB),
                Vop::ID => (true, Vop::ID, Vop::ZE),
                Vop::XD => (true, Vop::ID, Vop::YE),
                Vop::YD => (true, Vop::ID, Vop::XE),
                Vop::ZD => (true, Vop::ID, Vop::IE),
                Vop::IE => (true, Vop::ID, Vop::XD),
                Vop::XE => (true, Vop::ID, Vop::ID),
                Vop::YE => (true, Vop::ID, Vop::ZD),
                Vop::ZE => (true, Vop::ID, Vop::YD),
                Vop::IF => (false, Vop::YA, Vop::YA),
                Vop::XF => (false, Vop::YA, Vop::IA),
                Vop::YF => (false, Vop::IA, Vop::YA),
                Vop::ZF => (false, Vop::IA, Vop::IA),
            },
            Vop::YE => match b {
                Vop::IA => (false, Vop::IB, Vop::YB),
                Vop::XA => (false, Vop::YB, Vop::IB),
                Vop::YA => (false, Vop::YB, Vop::YB),
                Vop::ZA => (false, Vop::IB, Vop::XB),
                Vop::IB => (false, Vop::YB, Vop::YA),
                Vop::XB => (false, Vop::IB, Vop::IA),
                Vop::YB => (false, Vop::IB, Vop::ZA),
                Vop::ZB => (false, Vop::YB, Vop::IA),
                Vop::IC => (false, Vop::IA, Vop::IB),
                Vop::XC => (false, Vop::IA, Vop::YB),
                Vop::YC => (false, Vop::YA, Vop::IB),
                Vop::ZC => (false, Vop::YA, Vop::YB),
                Vop::ID => (true, Vop::ID, Vop::YE),
                Vop::XD => (true, Vop::ID, Vop::ZE),
                Vop::YD => (true, Vop::ID, Vop::IE),
                Vop::ZD => (true, Vop::ID, Vop::XE),
                Vop::IE => (true, Vop::ID, Vop::ID),
                Vop::XE => (true, Vop::ID, Vop::XD),
                Vop::YE => (true, Vop::ID, Vop::YD),
                Vop::ZE => (true, Vop::ID, Vop::ZD),
                Vop::IF => (false, Vop::YA, Vop::IA),
                Vop::XF => (false, Vop::YA, Vop::YA),
                Vop::YF => (false, Vop::IA, Vop::IA),
                Vop::ZF => (false, Vop::IA, Vop::YA),
            },
            Vop::ZE => match b {
                Vop::IA => (false, Vop::IB, Vop::XB),
                Vop::XA => (false, Vop::YB, Vop::YB),
                Vop::YA => (false, Vop::YB, Vop::IB),
                Vop::ZA => (false, Vop::IB, Vop::YB),
                Vop::IB => (false, Vop::YB, Vop::IA),
                Vop::XB => (false, Vop::IB, Vop::ZA),
                Vop::YB => (false, Vop::IB, Vop::IA),
                Vop::ZB => (false, Vop::YB, Vop::YA),
                Vop::IC => (false, Vop::YA, Vop::YB),
                Vop::XC => (false, Vop::YA, Vop::IB),
                Vop::YC => (false, Vop::IA, Vop::YB),
                Vop::ZC => (false, Vop::IA, Vop::IB),
                Vop::ID => (true, Vop::ID, Vop::XE),
                Vop::XD => (true, Vop::ID, Vop::IE),
                Vop::YD => (true, Vop::ID, Vop::ZE),
                Vop::ZD => (true, Vop::ID, Vop::YE),
                Vop::IE => (true, Vop::ID, Vop::ZD),
                Vop::XE => (true, Vop::ID, Vop::YD),
                Vop::YE => (true, Vop::ID, Vop::XD),
                Vop::ZE => (true, Vop::ID, Vop::ID),
                Vop::IF => (false, Vop::IA, Vop::YA),
                Vop::XF => (false, Vop::IA, Vop::IA),
                Vop::YF => (false, Vop::YA, Vop::YA),
                Vop::ZF => (false, Vop::YA, Vop::IA),
            },
            Vop::IF => match b {
                Vop::IA => (true, Vop::YC, Vop::XB),
                Vop::XA => (true, Vop::IC, Vop::YB),
                Vop::YA => (true, Vop::IC, Vop::XB),
                Vop::ZA => (true, Vop::YC, Vop::YB),
                Vop::IB => (true, Vop::IC, Vop::IA),
                Vop::XB => (true, Vop::YC, Vop::ZA),
                Vop::YB => (true, Vop::YC, Vop::IA),
                Vop::ZB => (true, Vop::IC, Vop::ZA),
                Vop::IC => (false, Vop::IB, Vop::YA),
                Vop::XC => (false, Vop::IB, Vop::IA),
                Vop::YC => (false, Vop::YB, Vop::IA),
                Vop::ZC => (false, Vop::YB, Vop::YA),
                Vop::ID => (false, Vop::YA, Vop::IB),
                Vop::XD => (false, Vop::IA, Vop::YB),
                Vop::YD => (false, Vop::YA, Vop::YB),
                Vop::ZD => (false, Vop::IA, Vop::IB),
                Vop::IE => (false, Vop::IA, Vop::IA),
                Vop::XE => (false, Vop::YA, Vop::YA),
                Vop::YE => (false, Vop::IA, Vop::YA),
                Vop::ZE => (false, Vop::YA, Vop::IA),
                Vop::IF => (false, Vop::YB, Vop::YB),
                Vop::XF => (false, Vop::YB, Vop::IB),
                Vop::YF => (false, Vop::IB, Vop::IB),
                Vop::ZF => (false, Vop::IB, Vop::YB),
            },
            Vop::XF => match b {
                Vop::IA => (true, Vop::YC, Vop::YB),
                Vop::XA => (true, Vop::IC, Vop::XB),
                Vop::YA => (true, Vop::IC, Vop::YB),
                Vop::ZA => (true, Vop::YC, Vop::XB),
                Vop::IB => (true, Vop::IC, Vop::ZA),
                Vop::XB => (true, Vop::YC, Vop::IA),
                Vop::YB => (true, Vop::YC, Vop::ZA),
                Vop::ZB => (true, Vop::IC, Vop::IA),
                Vop::IC => (false, Vop::YB, Vop::YA),
                Vop::XC => (false, Vop::YB, Vop::IA),
                Vop::YC => (false, Vop::IB, Vop::IA),
                Vop::ZC => (false, Vop::IB, Vop::YA),
                Vop::ID => (false, Vop::IA, Vop::IB),
                Vop::XD => (false, Vop::YA, Vop::YB),
                Vop::YD => (false, Vop::IA, Vop::YB),
                Vop::ZD => (false, Vop::YA, Vop::IB),
                Vop::IE => (false, Vop::YA, Vop::IA),
                Vop::XE => (false, Vop::IA, Vop::YA),
                Vop::YE => (false, Vop::YA, Vop::YA),
                Vop::ZE => (false, Vop::IA, Vop::IA),
                Vop::IF => (false, Vop::IB, Vop::YB),
                Vop::XF => (false, Vop::IB, Vop::IB),
                Vop::YF => (false, Vop::YB, Vop::IB),
                Vop::ZF => (false, Vop::YB, Vop::YB),
            },
            Vop::YF => match b {
                Vop::IA => (true, Vop::IC, Vop::XB),
                Vop::XA => (true, Vop::IC, Vop::IB),
                Vop::YA => (true, Vop::IC, Vop::ZB),
                Vop::ZA => (true, Vop::IC, Vop::YB),
                Vop::IB => (true, Vop::IC, Vop::YA),
                Vop::XB => (true, Vop::IC, Vop::ZA),
                Vop::YB => (true, Vop::IC, Vop::IA),
                Vop::ZB => (true, Vop::IC, Vop::XA),
                Vop::IC => (false, Vop::YB, Vop::IA),
                Vop::XC => (false, Vop::YB, Vop::YA),
                Vop::YC => (false, Vop::IB, Vop::YA),
                Vop::ZC => (false, Vop::IB, Vop::IA),
                Vop::ID => (false, Vop::YA, Vop::YB),
                Vop::XD => (false, Vop::IA, Vop::IB),
                Vop::YD => (false, Vop::YA, Vop::IB),
                Vop::ZD => (false, Vop::IA, Vop::YB),
                Vop::IE => (false, Vop::IA, Vop::YA),
                Vop::XE => (false, Vop::YA, Vop::IA),
                Vop::YE => (false, Vop::IA, Vop::IA),
                Vop::ZE => (false, Vop::YA, Vop::YA),
                Vop::IF => (false, Vop::IB, Vop::IB),
                Vop::XF => (false, Vop::IB, Vop::YB),
                Vop::YF => (false, Vop::YB, Vop::YB),
                Vop::ZF => (false, Vop::YB, Vop::IB),
            },
            Vop::ZF => match b {
                Vop::IA => (true, Vop::IC, Vop::YB),
                Vop::XA => (true, Vop::IC, Vop::ZB),
                Vop::YA => (true, Vop::IC, Vop::IB),
                Vop::ZA => (true, Vop::IC, Vop::XB),
                Vop::IB => (true, Vop::IC, Vop::XA),
                Vop::XB => (true, Vop::IC, Vop::IA),
                Vop::YB => (true, Vop::IC, Vop::ZA),
                Vop::ZB => (true, Vop::IC, Vop::YA),
                Vop::IC => (false, Vop::IB, Vop::IA),
                Vop::XC => (false, Vop::IB, Vop::YA),
                Vop::YC => (false, Vop::YB, Vop::YA),
                Vop::ZC => (false, Vop::YB, Vop::IA),
                Vop::ID => (false, Vop::IA, Vop::YB),
                Vop::XD => (false, Vop::YA, Vop::IB),
                Vop::YD => (false, Vop::IA, Vop::IB),
                Vop::ZD => (false, Vop::YA, Vop::YB),
                Vop::IE => (false, Vop::YA, Vop::YA),
                Vop::XE => (false, Vop::IA, Vop::IA),
                Vop::YE => (false, Vop::YA, Vop::IA),
                Vop::ZE => (false, Vop::IA, Vop::YA),
                Vop::IF => (false, Vop::YB, Vop::IB),
                Vop::XF => (false, Vop::YB, Vop::YB),
                Vop::YF => (false, Vop::IB, Vop::YB),
                Vop::ZF => (false, Vop::IB, Vop::IB),
            },
        }
    } else {
        match a {
            Vop::IA => match b {
                Vop::IA => (true, Vop::IA, Vop::IA),
                Vop::XA => (true, Vop::IA, Vop::IA),
                Vop::YA => (true, Vop::IA, Vop::ZA),
                Vop::ZA => (true, Vop::IA, Vop::ZA),
                Vop::IB => (true, Vop::IA, Vop::XB),
                Vop::XB => (true, Vop::IA, Vop::XB),
                Vop::YB => (true, Vop::IA, Vop::YB),
                Vop::ZB => (true, Vop::IA, Vop::YB),
                Vop::IC => (false, Vop::ZA, Vop::IC),
                Vop::XC => (false, Vop::ZA, Vop::IC),
                Vop::YC => (false, Vop::IA, Vop::YC),
                Vop::ZC => (false, Vop::IA, Vop::YC),
                Vop::ID => (true, Vop::IA, Vop::ZA),
                Vop::XD => (true, Vop::IA, Vop::ZA),
                Vop::YD => (true, Vop::IA, Vop::IA),
                Vop::ZD => (true, Vop::IA, Vop::IA),
                Vop::IE => (true, Vop::IA, Vop::YB),
                Vop::XE => (true, Vop::IA, Vop::YB),
                Vop::YE => (true, Vop::IA, Vop::XB),
                Vop::ZE => (true, Vop::IA, Vop::XB),
                Vop::IF => (false, Vop::IA, Vop::YC),
                Vop::XF => (false, Vop::IA, Vop::YC),
                Vop::YF => (false, Vop::ZA, Vop::IC),
                Vop::ZF => (false, Vop::ZA, Vop::IC),
            },
            Vop::XA => match b {
                Vop::IA => (true, Vop::IA, Vop::IA),
                Vop::XA => (true, Vop::IA, Vop::IA),
                Vop::YA => (true, Vop::IA, Vop::ZA),
                Vop::ZA => (true, Vop::IA, Vop::ZA),
                Vop::IB => (true, Vop::IA, Vop::XB),
                Vop::XB => (true, Vop::IA, Vop::XB),
                Vop::YB => (true, Vop::IA, Vop::YB),
                Vop::ZB => (true, Vop::IA, Vop::YB),
                Vop::IC => (false, Vop::YA, Vop::IC),
                Vop::XC => (false, Vop::YA, Vop::IC),
                Vop::YC => (false, Vop::IA, Vop::YC),
                Vop::ZC => (false, Vop::IA, Vop::YC),
                Vop::ID => (true, Vop::IA, Vop::ZA),
                Vop::XD => (true, Vop::IA, Vop::ZA),
                Vop::YD => (true, Vop::IA, Vop::IA),
                Vop::ZD => (true, Vop::IA, Vop::IA),
                Vop::IE => (true, Vop::IA, Vop::YB),
                Vop::XE => (true, Vop::IA, Vop::YB),
                Vop::YE => (true, Vop::IA, Vop::XB),
                Vop::ZE => (true, Vop::IA, Vop::XB),
                Vop::IF => (false, Vop::IA, Vop::YC),
                Vop::XF => (false, Vop::IA, Vop::YC),
                Vop::YF => (false, Vop::YA, Vop::IC),
                Vop::ZF => (false, Vop::YA, Vop::IC),
            },
            Vop::YA => match b {
                Vop::IA => (true, Vop::YA, Vop::ZA),
                Vop::XA => (true, Vop::IA, Vop::XA),
                Vop::YA => (true, Vop::IA, Vop::YA),
                Vop::ZA => (true, Vop::YA, Vop::IA),
                Vop::IB => (true, Vop::IA, Vop::IB),
                Vop::XB => (true, Vop::YA, Vop::YB),
                Vop::YB => (true, Vop::YA, Vop::XB),
                Vop::ZB => (true, Vop::IA, Vop::ZB),
                Vop::IC => (false, Vop::IA, Vop::IC),
                Vop::XC => (false, Vop::IA, Vop::IC),
                Vop::YC => (false, Vop::YA, Vop::YC),
                Vop::ZC => (false, Vop::YA, Vop::YC),
                Vop::ID => (true, Vop::IA, Vop::YA),
                Vop::XD => (true, Vop::IA, Vop::YA),
                Vop::YD => (true, Vop::IA, Vop::XA),
                Vop::ZD => (true, Vop::IA, Vop::XA),
                Vop::IE => (true, Vop::IA, Vop::ZB),
                Vop::XE => (true, Vop::IA, Vop::ZB),
                Vop::YE => (true, Vop::IA, Vop::IB),
                Vop::ZE => (true, Vop::IA, Vop::IB),
                Vop::IF => (false, Vop::YA, Vop::YC),
                Vop::XF => (false, Vop::YA, Vop::YC),
                Vop::YF => (false, Vop::IA, Vop::IC),
                Vop::ZF => (false, Vop::IA, Vop::IC),
            },
            Vop::ZA => match b {
                Vop::IA => (true, Vop::ZA, Vop::IA),
                Vop::XA => (true, Vop::IA, Vop::XA),
                Vop::YA => (true, Vop::IA, Vop::YA),
                Vop::ZA => (true, Vop::ZA, Vop::ZA),
                Vop::IB => (true, Vop::IA, Vop::IB),
                Vop::XB => (true, Vop::ZA, Vop::XB),
                Vop::YB => (true, Vop::ZA, Vop::YB),
                Vop::ZB => (true, Vop::IA, Vop::ZB),
                Vop::IC => (false, Vop::IA, Vop::IC),
                Vop::XC => (false, Vop::IA, Vop::IC),
                Vop::YC => (false, Vop::ZA, Vop::YC),
                Vop::ZC => (false, Vop::ZA, Vop::YC),
                Vop::ID => (true, Vop::IA, Vop::YA),
                Vop::XD => (true, Vop::IA, Vop::YA),
                Vop::YD => (true, Vop::IA, Vop::XA),
                Vop::ZD => (true, Vop::IA, Vop::XA),
                Vop::IE => (true, Vop::IA, Vop::ZB),
                Vop::XE => (true, Vop::IA, Vop::ZB),
                Vop::YE => (true, Vop::IA, Vop::IB),
                Vop::ZE => (true, Vop::IA, Vop::IB),
                Vop::IF => (false, Vop::ZA, Vop::YC),
                Vop::XF => (false, Vop::ZA, Vop::YC),
                Vop::YF => (false, Vop::IA, Vop::IC),
                Vop::ZF => (false, Vop::IA, Vop::IC),
            },
            Vop::IB => match b {
                Vop::IA => (true, Vop::IB, Vop::ZA),
                Vop::XA => (true, Vop::IB, Vop::ZA),
                Vop::YA => (true, Vop::IB, Vop::IA),
                Vop::ZA => (true, Vop::IB, Vop::IA),
                Vop::IB => (true, Vop::IB, Vop::YB),
                Vop::XB => (true, Vop::IB, Vop::YB),
                Vop::YB => (true, Vop::IB, Vop::XB),
                Vop::ZB => (true, Vop::IB, Vop::XB),
                Vop::IC => (false, Vop::YB, Vop::IC),
                Vop::XC => (false, Vop::YB, Vop::IC),
                Vop::YC => (false, Vop::IB, Vop::YC),
                Vop::ZC => (false, Vop::IB, Vop::YC),
                Vop::ID => (true, Vop::IB, Vop::IA),
                Vop::XD => (true, Vop::IB, Vop::IA),
                Vop::YD => (true, Vop::IB, Vop::ZA),
                Vop::ZD => (true, Vop::IB, Vop::ZA),
                Vop::IE => (true, Vop::IB, Vop::XB),
                Vop::XE => (true, Vop::IB, Vop::XB),
                Vop::YE => (true, Vop::IB, Vop::YB),
                Vop::ZE => (true, Vop::IB, Vop::YB),
                Vop::IF => (false, Vop::IB, Vop::YC),
                Vop::XF => (false, Vop::IB, Vop::YC),
                Vop::YF => (false, Vop::YB, Vop::IC),
                Vop::ZF => (false, Vop::YB, Vop::IC),
            },
            Vop::XB => match b {
                Vop::IA => (true, Vop::XB, Vop::IA),
                Vop::XA => (true, Vop::XB, Vop::IA),
                Vop::YA => (true, Vop::XB, Vop::ZA),
                Vop::ZA => (true, Vop::XB, Vop::ZA),
                Vop::IB => (true, Vop::XB, Vop::XB),
                Vop::XB => (true, Vop::XB, Vop::XB),
                Vop::YB => (true, Vop::XB, Vop::YB),
                Vop::ZB => (true, Vop::XB, Vop::YB),
                Vop::IC => (false, Vop::YB, Vop::IC),
                Vop::XC => (false, Vop::YB, Vop::IC),
                Vop::YC => (false, Vop::XB, Vop::YC),
                Vop::ZC => (false, Vop::XB, Vop::YC),
                Vop::ID => (true, Vop::XB, Vop::ZA),
                Vop::XD => (true, Vop::XB, Vop::ZA),
                Vop::YD => (true, Vop::XB, Vop::IA),
                Vop::ZD => (true, Vop::XB, Vop::IA),
                Vop::IE => (true, Vop::XB, Vop::YB),
                Vop::XE => (true, Vop::XB, Vop::YB),
                Vop::YE => (true, Vop::XB, Vop::XB),
                Vop::ZE => (true, Vop::XB, Vop::XB),
                Vop::IF => (false, Vop::XB, Vop::YC),
                Vop::XF => (false, Vop::XB, Vop::YC),
                Vop::YF => (false, Vop::YB, Vop::IC),
                Vop::ZF => (false, Vop::YB, Vop::IC),
            },
            Vop::YB => match b {
                Vop::IA => (true, Vop::YB, Vop::IA),
                Vop::XA => (true, Vop::XB, Vop::XA),
                Vop::YA => (true, Vop::XB, Vop::YA),
                Vop::ZA => (true, Vop::YB, Vop::ZA),
                Vop::IB => (true, Vop::XB, Vop::IB),
                Vop::XB => (true, Vop::YB, Vop::XB),
                Vop::YB => (true, Vop::YB, Vop::YB),
                Vop::ZB => (true, Vop::XB, Vop::ZB),
                Vop::IC => (false, Vop::XB, Vop::IC),
                Vop::XC => (false, Vop::XB, Vop::IC),
                Vop::YC => (false, Vop::YB, Vop::YC),
                Vop::ZC => (false, Vop::YB, Vop::YC),
                Vop::ID => (true, Vop::XB, Vop::YA),
                Vop::XD => (true, Vop::XB, Vop::YA),
                Vop::YD => (true, Vop::XB, Vop::XA),
                Vop::ZD => (true, Vop::XB, Vop::XA),
                Vop::IE => (true, Vop::XB, Vop::ZB),
                Vop::XE => (true, Vop::XB, Vop::ZB),
                Vop::YE => (true, Vop::XB, Vop::IB),
                Vop::ZE => (true, Vop::XB, Vop::IB),
                Vop::IF => (false, Vop::YB, Vop::YC),
                Vop::XF => (false, Vop::YB, Vop::YC),
                Vop::YF => (false, Vop::XB, Vop::IC),
                Vop::ZF => (false, Vop::XB, Vop::IC),
            },
            Vop::ZB => match b {
                Vop::IA => (true, Vop::YB, Vop::IA),
                Vop::XA => (true, Vop::IB, Vop::YA),
                Vop::YA => (true, Vop::IB, Vop::XA),
                Vop::ZA => (true, Vop::YB, Vop::ZA),
                Vop::IB => (true, Vop::IB, Vop::ZB),
                Vop::XB => (true, Vop::YB, Vop::XB),
                Vop::YB => (true, Vop::YB, Vop::YB),
                Vop::ZB => (true, Vop::IB, Vop::IB),
                Vop::IC => (false, Vop::IB, Vop::IC),
                Vop::XC => (false, Vop::IB, Vop::IC),
                Vop::YC => (false, Vop::YB, Vop::YC),
                Vop::ZC => (false, Vop::YB, Vop::YC),
                Vop::ID => (true, Vop::IB, Vop::XA),
                Vop::XD => (true, Vop::IB, Vop::XA),
                Vop::YD => (true, Vop::IB, Vop::YA),
                Vop::ZD => (true, Vop::IB, Vop::YA),
                Vop::IE => (true, Vop::IB, Vop::IB),
                Vop::XE => (true, Vop::IB, Vop::IB),
                Vop::YE => (true, Vop::IB, Vop::ZB),
                Vop::ZE => (true, Vop::IB, Vop::ZB),
                Vop::IF => (false, Vop::YB, Vop::YC),
                Vop::XF => (false, Vop::YB, Vop::YC),
                Vop::YF => (false, Vop::IB, Vop::IC),
                Vop::ZF => (false, Vop::IB, Vop::IC),
            },
            Vop::IC => match b {
                Vop::IA => (false, Vop::IC, Vop::ZA),
                Vop::XA => (false, Vop::IC, Vop::YA),
                Vop::YA => (false, Vop::IC, Vop::IA),
                Vop::ZA => (false, Vop::IC, Vop::IA),
                Vop::IB => (false, Vop::IC, Vop::YB),
                Vop::XB => (false, Vop::IC, Vop::YB),
                Vop::YB => (false, Vop::IC, Vop::XB),
                Vop::ZB => (false, Vop::IC, Vop::IB),
                Vop::IC => (false, Vop::IC, Vop::IC),
                Vop::XC => (false, Vop::IC, Vop::IC),
                Vop::YC => (false, Vop::IC, Vop::YC),
                Vop::ZC => (false, Vop::IC, Vop::YC),
                Vop::ID => (false, Vop::IC, Vop::IA),
                Vop::XD => (false, Vop::IC, Vop::IA),
                Vop::YD => (false, Vop::IC, Vop::YA),
                Vop::ZD => (false, Vop::IC, Vop::YA),
                Vop::IE => (false, Vop::IC, Vop::IB),
                Vop::XE => (false, Vop::IC, Vop::IB),
                Vop::YE => (false, Vop::IC, Vop::YB),
                Vop::ZE => (false, Vop::IC, Vop::YB),
                Vop::IF => (false, Vop::IC, Vop::YC),
                Vop::XF => (false, Vop::IC, Vop::YC),
                Vop::YF => (false, Vop::IC, Vop::IC),
                Vop::ZF => (false, Vop::IC, Vop::IC),
            },
            Vop::XC => match b {
                Vop::IA => (false, Vop::IC, Vop::ZA),
                Vop::XA => (false, Vop::IC, Vop::YA),
                Vop::YA => (false, Vop::IC, Vop::IA),
                Vop::ZA => (false, Vop::IC, Vop::IA),
                Vop::IB => (false, Vop::IC, Vop::YB),
                Vop::XB => (false, Vop::IC, Vop::YB),
                Vop::YB => (false, Vop::IC, Vop::XB),
                Vop::ZB => (false, Vop::IC, Vop::IB),
                Vop::IC => (false, Vop::IC, Vop::IC),
                Vop::XC => (false, Vop::IC, Vop::IC),
                Vop::YC => (false, Vop::IC, Vop::YC),
                Vop::ZC => (false, Vop::IC, Vop::YC),
                Vop::ID => (false, Vop::IC, Vop::IA),
                Vop::XD => (false, Vop::IC, Vop::IA),
                Vop::YD => (false, Vop::IC, Vop::YA),
                Vop::ZD => (false, Vop::IC, Vop::YA),
                Vop::IE => (false, Vop::IC, Vop::IB),
                Vop::XE => (false, Vop::IC, Vop::IB),
                Vop::YE => (false, Vop::IC, Vop::YB),
                Vop::ZE => (false, Vop::IC, Vop::YB),
                Vop::IF => (false, Vop::IC, Vop::YC),
                Vop::XF => (false, Vop::IC, Vop::YC),
                Vop::YF => (false, Vop::IC, Vop::IC),
                Vop::ZF => (false, Vop::IC, Vop::IC),
            },
            Vop::YC => match b {
                Vop::IA => (false, Vop::YC, Vop::IA),
                Vop::XA => (false, Vop::YC, Vop::IA),
                Vop::YA => (false, Vop::YC, Vop::YA),
                Vop::ZA => (false, Vop::YC, Vop::ZA),
                Vop::IB => (false, Vop::YC, Vop::IB),
                Vop::XB => (false, Vop::YC, Vop::XB),
                Vop::YB => (false, Vop::YC, Vop::YB),
                Vop::ZB => (false, Vop::YC, Vop::YB),
                Vop::IC => (false, Vop::YC, Vop::IC),
                Vop::XC => (false, Vop::YC, Vop::IC),
                Vop::YC => (false, Vop::YC, Vop::YC),
                Vop::ZC => (false, Vop::YC, Vop::YC),
                Vop::ID => (false, Vop::YC, Vop::YA),
                Vop::XD => (false, Vop::YC, Vop::YA),
                Vop::YD => (false, Vop::YC, Vop::IA),
                Vop::ZD => (false, Vop::YC, Vop::IA),
                Vop::IE => (false, Vop::YC, Vop::YB),
                Vop::XE => (false, Vop::YC, Vop::YB),
                Vop::YE => (false, Vop::YC, Vop::IB),
                Vop::ZE => (false, Vop::YC, Vop::IB),
                Vop::IF => (false, Vop::YC, Vop::YC),
                Vop::XF => (false, Vop::YC, Vop::YC),
                Vop::YF => (false, Vop::YC, Vop::IC),
                Vop::ZF => (false, Vop::YC, Vop::IC),
            },
            Vop::ZC => match b {
                Vop::IA => (false, Vop::YC, Vop::IA),
                Vop::XA => (false, Vop::YC, Vop::IA),
                Vop::YA => (false, Vop::YC, Vop::YA),
                Vop::ZA => (false, Vop::YC, Vop::ZA),
                Vop::IB => (false, Vop::YC, Vop::IB),
                Vop::XB => (false, Vop::YC, Vop::XB),
                Vop::YB => (false, Vop::YC, Vop::YB),
                Vop::ZB => (false, Vop::YC, Vop::YB),
                Vop::IC => (false, Vop::YC, Vop::IC),
                Vop::XC => (false, Vop::YC, Vop::IC),
                Vop::YC => (false, Vop::YC, Vop::YC),
                Vop::ZC => (false, Vop::YC, Vop::YC),
                Vop::ID => (false, Vop::YC, Vop::YA),
                Vop::XD => (false, Vop::YC, Vop::YA),
                Vop::YD => (false, Vop::YC, Vop::IA),
                Vop::ZD => (false, Vop::YC, Vop::IA),
                Vop::IE => (false, Vop::YC, Vop::YB),
                Vop::XE => (false, Vop::YC, Vop::YB),
                Vop::YE => (false, Vop::YC, Vop::IB),
                Vop::ZE => (false, Vop::YC, Vop::IB),
                Vop::IF => (false, Vop::YC, Vop::YC),
                Vop::XF => (false, Vop::YC, Vop::YC),
                Vop::YF => (false, Vop::YC, Vop::IC),
                Vop::ZF => (false, Vop::YC, Vop::IC),
            },
            Vop::ID => match b {
                Vop::IA => (true, Vop::YA, Vop::ZA),
                Vop::XA => (true, Vop::IA, Vop::XA),
                Vop::YA => (true, Vop::IA, Vop::YA),
                Vop::ZA => (true, Vop::YA, Vop::IA),
                Vop::IB => (true, Vop::IA, Vop::IB),
                Vop::XB => (true, Vop::YA, Vop::YB),
                Vop::YB => (true, Vop::YA, Vop::XB),
                Vop::ZB => (true, Vop::IA, Vop::ZB),
                Vop::IC => (false, Vop::IA, Vop::IC),
                Vop::XC => (false, Vop::IA, Vop::IC),
                Vop::YC => (false, Vop::YA, Vop::YC),
                Vop::ZC => (false, Vop::YA, Vop::YC),
                Vop::ID => (true, Vop::IA, Vop::YA),
                Vop::XD => (true, Vop::IA, Vop::YA),
                Vop::YD => (true, Vop::IA, Vop::XA),
                Vop::ZD => (true, Vop::IA, Vop::XA),
                Vop::IE => (true, Vop::IA, Vop::ZB),
                Vop::XE => (true, Vop::IA, Vop::ZB),
                Vop::YE => (true, Vop::IA, Vop::IB),
                Vop::ZE => (true, Vop::IA, Vop::IB),
                Vop::IF => (false, Vop::YA, Vop::YC),
                Vop::XF => (false, Vop::YA, Vop::YC),
                Vop::YF => (false, Vop::IA, Vop::IC),
                Vop::ZF => (false, Vop::IA, Vop::IC),
            },
            Vop::XD => match b {
                Vop::IA => (true, Vop::YA, Vop::ZA),
                Vop::XA => (true, Vop::IA, Vop::XA),
                Vop::YA => (true, Vop::IA, Vop::YA),
                Vop::ZA => (true, Vop::YA, Vop::IA),
                Vop::IB => (true, Vop::IA, Vop::IB),
                Vop::XB => (true, Vop::YA, Vop::YB),
                Vop::YB => (true, Vop::YA, Vop::XB),
                Vop::ZB => (true, Vop::IA, Vop::ZB),
                Vop::IC => (false, Vop::IA, Vop::IC),
                Vop::XC => (false, Vop::IA, Vop::IC),
                Vop::YC => (false, Vop::YA, Vop::YC),
                Vop::ZC => (false, Vop::YA, Vop::YC),
                Vop::ID => (true, Vop::IA, Vop::YA),
                Vop::XD => (true, Vop::IA, Vop::YA),
                Vop::YD => (true, Vop::IA, Vop::XA),
                Vop::ZD => (true, Vop::IA, Vop::XA),
                Vop::IE => (true, Vop::IA, Vop::ZB),
                Vop::XE => (true, Vop::IA, Vop::ZB),
                Vop::YE => (true, Vop::IA, Vop::IB),
                Vop::ZE => (true, Vop::IA, Vop::IB),
                Vop::IF => (false, Vop::YA, Vop::YC),
                Vop::XF => (false, Vop::YA, Vop::YC),
                Vop::YF => (false, Vop::IA, Vop::IC),
                Vop::ZF => (false, Vop::IA, Vop::IC),
            },
            Vop::YD => match b {
                Vop::IA => (true, Vop::IA, Vop::IA),
                Vop::XA => (true, Vop::IA, Vop::IA),
                Vop::YA => (true, Vop::IA, Vop::ZA),
                Vop::ZA => (true, Vop::IA, Vop::ZA),
                Vop::IB => (true, Vop::IA, Vop::XB),
                Vop::XB => (true, Vop::IA, Vop::XB),
                Vop::YB => (true, Vop::IA, Vop::YB),
                Vop::ZB => (true, Vop::IA, Vop::YB),
                Vop::IC => (false, Vop::YA, Vop::IC),
                Vop::XC => (false, Vop::YA, Vop::IC),
                Vop::YC => (false, Vop::IA, Vop::YC),
                Vop::ZC => (false, Vop::IA, Vop::YC),
                Vop::ID => (true, Vop::IA, Vop::ZA),
                Vop::XD => (true, Vop::IA, Vop::ZA),
                Vop::YD => (true, Vop::IA, Vop::IA),
                Vop::ZD => (true, Vop::IA, Vop::IA),
                Vop::IE => (true, Vop::IA, Vop::YB),
                Vop::XE => (true, Vop::IA, Vop::YB),
                Vop::YE => (true, Vop::IA, Vop::XB),
                Vop::ZE => (true, Vop::IA, Vop::XB),
                Vop::IF => (false, Vop::IA, Vop::YC),
                Vop::XF => (false, Vop::IA, Vop::YC),
                Vop::YF => (false, Vop::YA, Vop::IC),
                Vop::ZF => (false, Vop::YA, Vop::IC),
            },
            Vop::ZD => match b {
                Vop::IA => (true, Vop::IA, Vop::IA),
                Vop::XA => (true, Vop::IA, Vop::IA),
                Vop::YA => (true, Vop::IA, Vop::ZA),
                Vop::ZA => (true, Vop::IA, Vop::ZA),
                Vop::IB => (true, Vop::IA, Vop::XB),
                Vop::XB => (true, Vop::IA, Vop::XB),
                Vop::YB => (true, Vop::IA, Vop::YB),
                Vop::ZB => (true, Vop::IA, Vop::YB),
                Vop::IC => (false, Vop::YA, Vop::IC),
                Vop::XC => (false, Vop::YA, Vop::IC),
                Vop::YC => (false, Vop::IA, Vop::YC),
                Vop::ZC => (false, Vop::IA, Vop::YC),
                Vop::ID => (true, Vop::IA, Vop::ZA),
                Vop::XD => (true, Vop::IA, Vop::ZA),
                Vop::YD => (true, Vop::IA, Vop::IA),
                Vop::ZD => (true, Vop::IA, Vop::IA),
                Vop::IE => (true, Vop::IA, Vop::YB),
                Vop::XE => (true, Vop::IA, Vop::YB),
                Vop::YE => (true, Vop::IA, Vop::XB),
                Vop::ZE => (true, Vop::IA, Vop::XB),
                Vop::IF => (false, Vop::IA, Vop::YC),
                Vop::XF => (false, Vop::IA, Vop::YC),
                Vop::YF => (false, Vop::YA, Vop::IC),
                Vop::ZF => (false, Vop::YA, Vop::IC),
            },
            Vop::IE => match b {
                Vop::IA => (true, Vop::YB, Vop::IA),
                Vop::XA => (true, Vop::IB, Vop::YA),
                Vop::YA => (true, Vop::IB, Vop::XA),
                Vop::ZA => (true, Vop::YB, Vop::ZA),
                Vop::IB => (true, Vop::IB, Vop::ZB),
                Vop::XB => (true, Vop::YB, Vop::XB),
                Vop::YB => (true, Vop::YB, Vop::YB),
                Vop::ZB => (true, Vop::IB, Vop::IB),
                Vop::IC => (false, Vop::IB, Vop::IC),
                Vop::XC => (false, Vop::IB, Vop::IC),
                Vop::YC => (false, Vop::YB, Vop::YC),
                Vop::ZC => (false, Vop::YB, Vop::YC),
                Vop::ID => (true, Vop::IB, Vop::XA),
                Vop::XD => (true, Vop::IB, Vop::XA),
                Vop::YD => (true, Vop::IB, Vop::YA),
                Vop::ZD => (true, Vop::IB, Vop::YA),
                Vop::IE => (true, Vop::IB, Vop::IB),
                Vop::XE => (true, Vop::IB, Vop::IB),
                Vop::YE => (true, Vop::IB, Vop::ZB),
                Vop::ZE => (true, Vop::IB, Vop::ZB),
                Vop::IF => (false, Vop::YB, Vop::YC),
                Vop::XF => (false, Vop::YB, Vop::YC),
                Vop::YF => (false, Vop::IB, Vop::IC),
                Vop::ZF => (false, Vop::IB, Vop::IC),
            },
            Vop::XE => match b {
                Vop::IA => (true, Vop::YB, Vop::IA),
                Vop::XA => (true, Vop::IB, Vop::YA),
                Vop::YA => (true, Vop::IB, Vop::XA),
                Vop::ZA => (true, Vop::YB, Vop::ZA),
                Vop::IB => (true, Vop::IB, Vop::ZB),
                Vop::XB => (true, Vop::YB, Vop::XB),
                Vop::YB => (true, Vop::YB, Vop::YB),
                Vop::ZB => (true, Vop::IB, Vop::IB),
                Vop::IC => (false, Vop::IB, Vop::IC),
                Vop::XC => (false, Vop::IB, Vop::IC),
                Vop::YC => (false, Vop::YB, Vop::YC),
                Vop::ZC => (false, Vop::YB, Vop::YC),
                Vop::ID => (true, Vop::IB, Vop::XA),
                Vop::XD => (true, Vop::IB, Vop::XA),
                Vop::YD => (true, Vop::IB, Vop::YA),
                Vop::ZD => (true, Vop::IB, Vop::YA),
                Vop::IE => (true, Vop::IB, Vop::IB),
                Vop::XE => (true, Vop::IB, Vop::IB),
                Vop::YE => (true, Vop::IB, Vop::ZB),
                Vop::ZE => (true, Vop::IB, Vop::ZB),
                Vop::IF => (false, Vop::YB, Vop::YC),
                Vop::XF => (false, Vop::YB, Vop::YC),
                Vop::YF => (false, Vop::IB, Vop::IC),
                Vop::ZF => (false, Vop::IB, Vop::IC),
            },
            Vop::YE => match b {
                Vop::IA => (true, Vop::IB, Vop::ZA),
                Vop::XA => (true, Vop::IB, Vop::ZA),
                Vop::YA => (true, Vop::IB, Vop::IA),
                Vop::ZA => (true, Vop::IB, Vop::IA),
                Vop::IB => (true, Vop::IB, Vop::YB),
                Vop::XB => (true, Vop::IB, Vop::YB),
                Vop::YB => (true, Vop::IB, Vop::XB),
                Vop::ZB => (true, Vop::IB, Vop::XB),
                Vop::IC => (false, Vop::YB, Vop::IC),
                Vop::XC => (false, Vop::YB, Vop::IC),
                Vop::YC => (false, Vop::IB, Vop::YC),
                Vop::ZC => (false, Vop::IB, Vop::YC),
                Vop::ID => (true, Vop::IB, Vop::IA),
                Vop::XD => (true, Vop::IB, Vop::IA),
                Vop::YD => (true, Vop::IB, Vop::ZA),
                Vop::ZD => (true, Vop::IB, Vop::ZA),
                Vop::IE => (true, Vop::IB, Vop::XB),
                Vop::XE => (true, Vop::IB, Vop::XB),
                Vop::YE => (true, Vop::IB, Vop::YB),
                Vop::ZE => (true, Vop::IB, Vop::YB),
                Vop::IF => (false, Vop::IB, Vop::YC),
                Vop::XF => (false, Vop::IB, Vop::YC),
                Vop::YF => (false, Vop::YB, Vop::IC),
                Vop::ZF => (false, Vop::YB, Vop::IC),
            },
            Vop::ZE => match b {
                Vop::IA => (true, Vop::IB, Vop::ZA),
                Vop::XA => (true, Vop::IB, Vop::ZA),
                Vop::YA => (true, Vop::IB, Vop::IA),
                Vop::ZA => (true, Vop::IB, Vop::IA),
                Vop::IB => (true, Vop::IB, Vop::YB),
                Vop::XB => (true, Vop::IB, Vop::YB),
                Vop::YB => (true, Vop::IB, Vop::XB),
                Vop::ZB => (true, Vop::IB, Vop::XB),
                Vop::IC => (false, Vop::YB, Vop::IC),
                Vop::XC => (false, Vop::YB, Vop::IC),
                Vop::YC => (false, Vop::IB, Vop::YC),
                Vop::ZC => (false, Vop::IB, Vop::YC),
                Vop::ID => (true, Vop::IB, Vop::IA),
                Vop::XD => (true, Vop::IB, Vop::IA),
                Vop::YD => (true, Vop::IB, Vop::ZA),
                Vop::ZD => (true, Vop::IB, Vop::ZA),
                Vop::IE => (true, Vop::IB, Vop::XB),
                Vop::XE => (true, Vop::IB, Vop::XB),
                Vop::YE => (true, Vop::IB, Vop::YB),
                Vop::ZE => (true, Vop::IB, Vop::YB),
                Vop::IF => (false, Vop::IB, Vop::YC),
                Vop::XF => (false, Vop::IB, Vop::YC),
                Vop::YF => (false, Vop::YB, Vop::IC),
                Vop::ZF => (false, Vop::YB, Vop::IC),
            },
            Vop::IF => match b {
                Vop::IA => (false, Vop::YC, Vop::IA),
                Vop::XA => (false, Vop::YC, Vop::IA),
                Vop::YA => (false, Vop::YC, Vop::YA),
                Vop::ZA => (false, Vop::YC, Vop::ZA),
                Vop::IB => (false, Vop::YC, Vop::IB),
                Vop::XB => (false, Vop::YC, Vop::XB),
                Vop::YB => (false, Vop::YC, Vop::YB),
                Vop::ZB => (false, Vop::YC, Vop::YB),
                Vop::IC => (false, Vop::YC, Vop::IC),
                Vop::XC => (false, Vop::YC, Vop::IC),
                Vop::YC => (false, Vop::YC, Vop::YC),
                Vop::ZC => (false, Vop::YC, Vop::YC),
                Vop::ID => (false, Vop::YC, Vop::YA),
                Vop::XD => (false, Vop::YC, Vop::YA),
                Vop::YD => (false, Vop::YC, Vop::IA),
                Vop::ZD => (false, Vop::YC, Vop::IA),
                Vop::IE => (false, Vop::YC, Vop::YB),
                Vop::XE => (false, Vop::YC, Vop::YB),
                Vop::YE => (false, Vop::YC, Vop::IB),
                Vop::ZE => (false, Vop::YC, Vop::IB),
                Vop::IF => (false, Vop::YC, Vop::YC),
                Vop::XF => (false, Vop::YC, Vop::YC),
                Vop::YF => (false, Vop::YC, Vop::IC),
                Vop::ZF => (false, Vop::YC, Vop::IC),
            },
            Vop::XF => match b {
                Vop::IA => (false, Vop::YC, Vop::IA),
                Vop::XA => (false, Vop::YC, Vop::IA),
                Vop::YA => (false, Vop::YC, Vop::YA),
                Vop::ZA => (false, Vop::YC, Vop::ZA),
                Vop::IB => (false, Vop::YC, Vop::IB),
                Vop::XB => (false, Vop::YC, Vop::XB),
                Vop::YB => (false, Vop::YC, Vop::YB),
                Vop::ZB => (false, Vop::YC, Vop::YB),
                Vop::IC => (false, Vop::YC, Vop::IC),
                Vop::XC => (false, Vop::YC, Vop::IC),
                Vop::YC => (false, Vop::YC, Vop::YC),
                Vop::ZC => (false, Vop::YC, Vop::YC),
                Vop::ID => (false, Vop::YC, Vop::YA),
                Vop::XD => (false, Vop::YC, Vop::YA),
                Vop::YD => (false, Vop::YC, Vop::IA),
                Vop::ZD => (false, Vop::YC, Vop::IA),
                Vop::IE => (false, Vop::YC, Vop::YB),
                Vop::XE => (false, Vop::YC, Vop::YB),
                Vop::YE => (false, Vop::YC, Vop::IB),
                Vop::ZE => (false, Vop::YC, Vop::IB),
                Vop::IF => (false, Vop::YC, Vop::YC),
                Vop::XF => (false, Vop::YC, Vop::YC),
                Vop::YF => (false, Vop::YC, Vop::IC),
                Vop::ZF => (false, Vop::YC, Vop::IC),
            },
            Vop::YF => match b {
                Vop::IA => (false, Vop::IC, Vop::ZA),
                Vop::XA => (false, Vop::IC, Vop::YA),
                Vop::YA => (false, Vop::IC, Vop::IA),
                Vop::ZA => (false, Vop::IC, Vop::IA),
                Vop::IB => (false, Vop::IC, Vop::YB),
                Vop::XB => (false, Vop::IC, Vop::YB),
                Vop::YB => (false, Vop::IC, Vop::XB),
                Vop::ZB => (false, Vop::IC, Vop::IB),
                Vop::IC => (false, Vop::IC, Vop::IC),
                Vop::XC => (false, Vop::IC, Vop::IC),
                Vop::YC => (false, Vop::IC, Vop::YC),
                Vop::ZC => (false, Vop::IC, Vop::YC),
                Vop::ID => (false, Vop::IC, Vop::IA),
                Vop::XD => (false, Vop::IC, Vop::IA),
                Vop::YD => (false, Vop::IC, Vop::YA),
                Vop::ZD => (false, Vop::IC, Vop::YA),
                Vop::IE => (false, Vop::IC, Vop::IB),
                Vop::XE => (false, Vop::IC, Vop::IB),
                Vop::YE => (false, Vop::IC, Vop::YB),
                Vop::ZE => (false, Vop::IC, Vop::YB),
                Vop::IF => (false, Vop::IC, Vop::YC),
                Vop::XF => (false, Vop::IC, Vop::YC),
                Vop::YF => (false, Vop::IC, Vop::IC),
                Vop::ZF => (false, Vop::IC, Vop::IC),
            },
            Vop::ZF => match b {
                Vop::IA => (false, Vop::IC, Vop::ZA),
                Vop::XA => (false, Vop::IC, Vop::YA),
                Vop::YA => (false, Vop::IC, Vop::IA),
                Vop::ZA => (false, Vop::IC, Vop::IA),
                Vop::IB => (false, Vop::IC, Vop::YB),
                Vop::XB => (false, Vop::IC, Vop::YB),
                Vop::YB => (false, Vop::IC, Vop::XB),
                Vop::ZB => (false, Vop::IC, Vop::IB),
                Vop::IC => (false, Vop::IC, Vop::IC),
                Vop::XC => (false, Vop::IC, Vop::IC),
                Vop::YC => (false, Vop::IC, Vop::YC),
                Vop::ZC => (false, Vop::IC, Vop::YC),
                Vop::ID => (false, Vop::IC, Vop::IA),
                Vop::XD => (false, Vop::IC, Vop::IA),
                Vop::YD => (false, Vop::IC, Vop::YA),
                Vop::ZD => (false, Vop::IC, Vop::YA),
                Vop::IE => (false, Vop::IC, Vop::IB),
                Vop::XE => (false, Vop::IC, Vop::IB),
                Vop::YE => (false, Vop::IC, Vop::YB),
                Vop::ZE => (false, Vop::IC, Vop::YB),
                Vop::IF => (false, Vop::IC, Vop::YC),
                Vop::XF => (false, Vop::IC, Vop::YC),
                Vop::YF => (false, Vop::IC, Vop::IC),
                Vop::ZF => (false, Vop::IC, Vop::IC),
            },
        }
    }
}

/// The effect of a CZ gate on an edge flag and the two endpoint vertex
/// operators, read from the conjugation table.
pub fn cphase_lookup(had_edge: bool, a: Vop, b: Vop) -> (r: (bool, Vop, Vop))
    ensures
        r == cphase_spec(had_edge, a, b),
{
    if had_edge {
        match a {
            Vop::IA => match b {
                Vop::IA => (false, Vop::IA, Vop::IA),
                Vop::XA => (false, Vop::ZA, Vop::IA),
                Vop::YA => (false, Vop::ZA, Vop::YA),
                Vop::ZA => (false, Vop::IA, Vop::ZA),
                Vop::IB => (false, Vop::ZA, Vop::IB),
                Vop::XB => (false, Vop::IA, Vop::XB),
                Vop::YB => (false, Vop::IA, Vop::YB),
                Vop::ZB => (false, Vop::ZA, Vop::YB),
                Vop::IC => (true, Vop::XB, Vop::ZF),
                Vop::XC => (true, Vop::XB, Vop::YF),
                Vop::YC => (true, Vop::XB, Vop::XF),
                Vop::ZC => (true, Vop::XB, Vop::IF),
                Vop::ID => (false, Vop::XB, Vop::YA),
                Vop::XD => (false, Vop::YB, Vop::YA),
                Vop::YD => (false, Vop::XB, Vop::IA),
                Vop::ZD => (false, Vop::YB, Vop::IA),
                Vop::IE => (false, Vop::YB, Vop::YB),
                Vop::XE => (false, Vop::XB, Vop::YB),
                Vop::YE => (false, Vop::YB, Vop::IB),
                Vop::ZE => (false, Vop::XB, Vop::IB),
                Vop::IF => (true, Vop::XB, Vop::YC),
                Vop::XF => (true, Vop::XB, Vop::ZC),
                Vop::YF => (true, Vop::XB, Vop::IC),
                Vop::ZF => (true, Vop::XB, Vop::XC),
            },
            Vop::XA => match b {
                Vop::IA => (false, Vop::IA, Vop::ZA),
                Vop::XA => (false, Vop::YA, Vop::YA),
                Vop::YA => (false, Vop::YA, Vop::IA),
                Vop::ZA => (false, Vop::IA, Vop::IA),
                Vop::IB => (false, Vop::YA, Vop::YB),
                Vop::XB => (false, Vop::IA, Vop::YB),
                Vop::YB => (false, Vop::IA, Vop::XB),
                Vop::ZB => (false, Vop::YA, Vop::IB),
                Vop::IC => (true, Vop::IB, Vop::ZF),
                Vop::XC => (true, Vop::IB, Vop::YF),
                Vop::YC => (true, Vop::IB, Vop::XF),
                Vop::ZC => (true, Vop::IB, Vop::IF),
                Vop::ID => (false, Vop::YB, Vop::IA),
                Vop::XD => (false, Vop::IB, Vop::IA),
                Vop::YD => (false, Vop::YB, Vop::YA),
                Vop::ZD => (false, Vop::IB, Vop::YA),
                Vop::IE => (false, Vop::IB, Vop::IB),
                Vop::XE => (false, Vop::YB, Vop::IB),
                Vop::YE => (false, Vop::IB, Vop::YB),
                Vop::ZE => (false, Vop::YB, Vop::YB),
                Vop::IF => (true, Vop::IB, Vop::YC),
                Vop::XF => (true, Vop::IB, Vop::ZC),
                Vop::YF => (true, Vop::IB, Vop::IC),
                Vop::ZF => (true, Vop::IB, Vop::XC),
            },
            Vop::YA => match b {
                Vop::IA => (false, Vop::YA, Vop::ZA),
                Vop::XA => (false, Vop::IA, Vop::YA),
                Vop::YA => (false, Vop::IA, Vop::IA),
                Vop::ZA => (false, Vop::YA, Vop::IA),
                Vop::IB => (false, Vop::IA, Vop::YB),
                Vop::XB => (false, Vop::YA, Vop::YB),
                Vop::YB => (false, Vop::YA, Vop::XB),
                Vop::ZB => (false, Vop::IA, Vop::IB),
                Vop::IC => (true, Vop::IB, Vop::YF),
                Vop::XC => (true, Vop::IB, Vop::ZF),
                Vop::YC => (true, Vop::IB, Vop::IF),
                Vop::ZC => (true, Vop::IB, Vop::XF),
                Vop::ID => (false, Vop::IB, Vop::IA),
                Vop::XD => (false, Vop::YB, Vop::IA),
                Vop::YD => (false, Vop::IB, Vop::YA),
                Vop::ZD => (false, Vop::YB, Vop::YA),
                Vop::IE => (false, Vop::YB, Vop::IB),
                Vop::XE => (false, Vop::IB, Vop::IB),
                Vop::YE => (false, Vop::YB, Vop::YB),
                Vop::ZE => (false, Vop::IB, Vop::YB),
                Vop::IF => (true, Vop::IB, Vop::ZC),
                Vop::XF => (true, Vop::IB, Vop::YC),
                Vop::YF => (true, Vop::IB, Vop::XC),
                Vop::ZF => (true, Vop::IB, Vop::IC),
            },
            Vop::ZA => match b {
                Vop::IA => (false, Vop::ZA, Vop::IA),
                Vop::XA => (false, Vop::IA, Vop::IA),
                Vop::YA => (false, Vop::IA, Vop::YA),
                Vop::ZA => (false, Vop::ZA, Vop::ZA),
                Vop::IB => (false, Vop::IA, Vop::IB),
                Vop::XB => (false, Vop::ZA, Vop::XB),
                Vop::YB => (false, Vop::ZA, Vop::YB),
                Vop::ZB => (false, Vop::IA, Vop::YB),
                Vop::IC => (true, Vop::XB, Vop::YF),
                Vop::XC => (true, Vop::XB, Vop::ZF),
                Vop::YC => (true, Vop::XB, Vop::IF),
                Vop::ZC => (true, Vop::XB, Vop::XF),
                Vop::ID => (false, Vop::YB, Vop::YA),
                Vop::XD => (false, Vop::XB, Vop::YA),
                Vop::YD => (false, Vop::YB, Vop::IA),
                Vop::ZD => (false, Vop::XB, Vop::IA),
                Vop::IE => (false, Vop::XB, Vop::YB),
                Vop::XE => (false, Vop::YB, Vop::YB),
                Vop::YE => (false, Vop::XB, Vop::IB),
                Vop::ZE => (false, Vop::YB, Vop::IB),
                Vop::IF => (true, Vop::XB, Vop::ZC),
                Vop::XF => (true, Vop::XB, Vop::YC),
                Vop::YF => (true, Vop::XB, Vop::XC),
                Vop::ZF => (true, Vop::XB, Vop::IC),
            },
            Vop::IB => match b {
                Vop::IA => (false, Vop::IB, Vop::ZA),
                Vop::XA => (false, Vop::YB, Vop::YA),
                Vop::YA => (false, Vop::YB, Vop::IA),
                Vop::ZA => (false, Vop::IB, Vop::IA),
                Vop::IB => (false, Vop::YB, Vop::YB),
                Vop::XB => (false, Vop::IB, Vop::YB),
                Vop::YB => (false, Vop::IB, Vop::XB),
                Vop::ZB => (false, Vop::YB, Vop::IB),
                Vop::IC => (true, Vop::IA, Vop::XF),
                Vop::XC => (true, Vop::IA, Vop::IF),
                Vop::YC => (true, Vop::IA, Vop::ZF),
                Vop::ZC => (true, Vop::IA, Vop::YF),
                Vop::ID => (false, Vop::IA, Vop::IA),
                Vop::XD => (false, Vop::YA, Vop::IA),
                Vop::YD => (false, Vop::IA, Vop::YA),
                Vop::ZD => (false, Vop::YA, Vop::YA),
                Vop::IE => (false, Vop::YA, Vop::IB),
                Vop::XE => (false, Vop::IA, Vop::IB),
                Vop::YE => (false, Vop::YA, Vop::YB),
                Vop::ZE => (false, Vop::IA, Vop::YB),
                Vop::IF => (true, Vop::IA, Vop::IC),
                Vop::XF => (true, Vop::IA, Vop::XC),
                Vop::YF => (true, Vop::IA, Vop::YC),
                Vop::ZF => (true, Vop::IA, Vop::ZC),
            },
            Vop::XB => match b {
                Vop::IA => (false, Vop::XB, Vop::IA),
                Vop::XA => (false, Vop::YB, Vop::IA),
                Vop::YA => (false, Vop::YB, Vop::YA),
                Vop::ZA => (false, Vop::XB, Vop::ZA),
                Vop::IB => (false, Vop::YB, Vop::IB),
                Vop::XB => (false, Vop::XB, Vop::XB),
                Vop::YB => (false, Vop::XB, Vop::YB),
                Vop::ZB => (false, Vop::YB, Vop::YB),
                Vop::IC => (true, Vop::IA, Vop::YF),
                Vop::XC => (true, Vop::IA, Vop::ZF),
                Vop::YC => (true, Vop::IA, Vop::IF),
                Vop::ZC => (true, Vop::IA, Vop::XF),
                Vop::ID => (false, Vop::ZA, Vop::YA),
                Vop::XD => (false, Vop::IA, Vop::YA),
                Vop::YD => (false, Vop::ZA, Vop::IA),
                Vop::ZD => (false, Vop::IA, Vop::IA),
                Vop::IE => (false, Vop::IA, Vop::YB),
                Vop::XE => (false, Vop::ZA, Vop::YB),
                Vop::YE => (false, Vop::IA, Vop::IB),
                Vop::ZE => (false, Vop::ZA, Vop::IB),
                Vop::IF => (true, Vop::IA, Vop::ZC),
                Vop::XF => (true, Vop::IA, Vop::YC),
                Vop::YF => (true, Vop::IA, Vop::XC),
                Vop::ZF => (true, Vop::IA, Vop::IC),
            },
            Vop::YB => match b {
                Vop::IA => (false, Vop::YB, Vop::IA),
                Vop::XA => (false, Vop::XB, Vop::IA),
                Vop::YA => (false, Vop::XB, Vop::YA),
                Vop::ZA => (false, Vop::YB, Vop::ZA),
                Vop::IB => (false, Vop::XB, Vop::IB),
                Vop::XB => (false, Vop::YB, Vop::XB),
                Vop::YB => (false, Vop::YB, Vop::YB),
                Vop::ZB => (false, Vop::XB, Vop::YB),
                Vop::IC => (true, Vop::IA, Vop::ZF),
                Vop::XC => (true, Vop::IA, Vop::YF),
                Vop::YC => (true, Vop::IA, Vop::XF),
                Vop::ZC => (true, Vop::IA, Vop::IF),
                Vop::ID => (false, Vop::IA, Vop::YA),
                Vop::XD => (false, Vop::ZA, Vop::YA),
                Vop::YD => (false, Vop::IA, Vop::IA),
                Vop::ZD => (false, Vop::ZA, Vop::IA),
                Vop::IE => (false, Vop::ZA, Vop::YB),
                Vop::XE => (false, Vop::IA, Vop::YB),
                Vop::YE => (false, Vop::ZA, Vop::IB),
                Vop::ZE => (false, Vop::IA, Vop::IB),
                Vop::IF => (true, Vop::IA, Vop::YC),
                Vop::XF => (true, Vop::IA, Vop::ZC),
                Vop::YF => (true, Vop::IA, Vop::IC),
                Vop::ZF => (true, Vop::IA, Vop::XC),
            },
            Vop::ZB => match b {
                Vop::IA => (false, Vop::YB, Vop::ZA),
                Vop::XA => (false, Vop::IB, Vop::YA),
                Vop::YA => (false, Vop::IB, Vop::IA),
                Vop::ZA => (false, Vop::YB, Vop::IA),
                Vop::IB => (false, Vop::IB, Vop::YB),
                Vop::XB => (false, Vop::YB, Vop::YB),
                Vop::YB => (false, Vop::YB, Vop::XB),
                Vop::ZB => (false, Vop::IB, Vop::IB),
                Vop::IC => (true, Vop::IA, Vop::IF),
                Vop::XC => (true, Vop::IA, Vop::XF),
                Vop::YC => (true, Vop::IA, Vop::YF),
                Vop::ZC => (true, Vop::IA, Vop::ZF),
                Vop::ID => (false, Vop::YA, Vop::IA),
                Vop::XD => (false, Vop::IA, Vop::IA),
                Vop::YD => (false, Vop::YA, Vop::YA),
                Vop::ZD => (false, Vop::IA, Vop::YA),
                Vop::IE => (false, Vop::IA, Vop::IB),
                Vop::XE => (false, Vop::YA, Vop::IB),
                Vop::YE => (false, Vop::IA, Vop::YB),
                Vop::ZE => (false, Vop::YA, Vop::YB),
                Vop::IF => (true, Vop::IA, Vop::XC),
                Vop::XF => (true, Vop::IA, Vop::IC),
                Vop::YF => (true, Vop::IA, Vop::ZC),
                Vop::ZF => (true, Vop::IA, Vop::YC),
            },
            Vop::IC => match b {
                Vop::IA => (true, Vop::YF, Vop::YB),
                Vop::XA => (true, Vop::IF, Vop::XB),
                Vop::YA => (true, Vop::IF, Vop::YB),
                Vop::ZA => (true, Vop::YF, Vop::XB),
                Vop::IB => (true, Vop::IF, Vop::ZA),
                Vop::XB => (true, Vop::YF, Vop::IA),
                Vop::YB => (true, Vop::YF, Vop::ZA),
                Vop::ZB => (true, Vop::IF, Vop::IA),
                Vop::IC => (false, Vop::IA, Vop::IA),
                Vop::XC => (false, Vop::IA, Vop::YA),
                Vop::YC => (false, Vop::YA, Vop::YA),
                Vop::ZC => (false, Vop::YA, Vop::IA),
                Vop::ID => (false, Vop::YB, Vop::YB),
                Vop::XD => (false, Vop::IB, Vop::IB),
                Vop::YD => (false, Vop::YB, Vop::IB),
                Vop::ZD => (false, Vop::IB, Vop::YB),
                Vop::IE => (false, Vop::IB, Vop::YA),
                Vop::XE => (false, Vop::YB, Vop::IA),
                Vop::YE => (false, Vop::IB, Vop::IA),
                Vop::ZE => (false, Vop::YB, Vop::YA),
                Vop::IF => (false, Vop::YA, Vop::IB),
                Vop::XF => (false, Vop::YA, Vop::YB),
                Vop::YF => (false, Vop::IA, Vop::YB),
                Vop::ZF => (false, Vop::IA, Vop::IB),
            },
            Vop::XC => match b {
                Vop::IA => (true, Vop::YF, Vop::XB),
                Vop::XA => (true, Vop::IF, Vop::YB),
                Vop::YA => (true, Vop::IF, Vop::XB),
                Vop::ZA => (true, Vop::YF, Vop::YB),
                Vop::IB => (true, Vop::IF, Vop::IA),
                Vop::XB => (true, Vop::YF, Vop::ZA),
                Vop::YB => (true, Vop::YF, Vop::IA),
                Vop::ZB => (true, Vop::IF, Vop::ZA),
                Vop::IC => (false, Vop::YA, Vop::IA),
                Vop::XC => (false, Vop::YA, Vop::YA),
                Vop::YC => (false, Vop::IA, Vop::YA),
                Vop::ZC => (false, Vop::IA, Vop::IA),
                Vop::ID => (false, Vop::IB, Vop::YB),
                Vop::XD => (false, Vop::YB, Vop::IB),
                Vop::YD => (false, Vop::IB, Vop::IB),
                Vop::ZD => (false, Vop::YB, Vop::YB),
                Vop::IE => (false, Vop::YB, Vop::YA),
                Vop::XE => (false, Vop::IB, Vop::IA),
                Vop::YE => (false, Vop::YB, Vop::IA),
                Vop::ZE => (false, Vop::IB, Vop::YA),
                Vop::IF => (false, Vop::IA, Vop::IB),
                Vop::XF => (false, Vop::IA, Vop::YB),
                Vop::YF => (false, Vop::YA, Vop::YB),
                Vop::ZF => (false, Vop::YA, Vop::IB),
            },
            Vop::YC => match b {
                Vop::IA => (true, Vop::IF, Vop::YB),
                Vop::XA => (true, Vop::IF, Vop::ZB),
                Vop::YA => (true, Vop::IF, Vop::IB),
                Vop::ZA => (true, Vop::IF, Vop::XB),
                Vop::IB => (true, Vop::IF, Vop::XA),
                Vop::XB => (true, Vop::IF, Vop::IA),
                Vop::YB => (true, Vop::IF, Vop::ZA),
                Vop::ZB => (true, Vop::IF, Vop::YA),
                Vop::IC => (false, Vop::YA, Vop::YA),
                Vop::XC => (false, Vop::YA, Vop::IA),
                Vop::YC => (false, Vop::IA, Vop::IA),
                Vop::ZC => (false, Vop::IA, Vop::YA),
                Vop::ID => (false, Vop::YB, Vop::IB),
                Vop::XD => (false, Vop::IB, Vop::YB),
                Vop::YD => (false, Vop::YB, Vop::YB),
                Vop::ZD => (false, Vop::IB, Vop::IB),
                Vop::IE => (false, Vop::IB, Vop::IA),
                Vop::XE => (false, Vop::YB, Vop::YA),
                Vop::YE => (false, Vop::IB, Vop::YA),
                Vop::ZE => (false, Vop::YB, Vop::IA),
                Vop::IF => (false, Vop::IA, Vop::YB),
                Vop::XF => (false, Vop::IA, Vop::IB),
                Vop::YF => (false, Vop::YA, Vop::IB),
                Vop::ZF => (false, Vop::YA, Vop::YB),
            },
            Vop::ZC => match b {
                Vop::IA => (true, Vop::IF, Vop::XB),
                Vop::XA => (true, Vop::IF, Vop::IB),
                Vop::YA => (true, Vop::IF, Vop::ZB),
                Vop::ZA => (true, Vop::IF, Vop::YB),
                Vop::IB => (true, Vop::IF, Vop::YA),
                Vop::XB => (true, Vop::IF, Vop::ZA),
                Vop::YB => (true, Vop::IF, Vop::IA),
                Vop::ZB => (true, Vop::IF, Vop::XA),
                Vop::IC => (false, Vop::IA, Vop::YA),
                Vop::XC => (false, Vop::IA, Vop::IA),
                Vop::YC => (false, Vop::YA, Vop::IA),
                Vop::ZC => (false, Vop::YA, Vop::YA),
                Vop::ID => (false, Vop::IB, Vop::IB),
                Vop::XD => (false, Vop::YB, Vop::YB),
                Vop::YD => (false, Vop::IB, Vop::YB),
                Vop::ZD => (false, Vop::YB, Vop::IB),
                Vop::IE => (false, Vop::YB, Vop::IA),
                Vop::XE => (false, Vop::IB, Vop::YA),
                Vop::YE => (false, Vop::YB, Vop::YA),
                Vop::ZE => (false, Vop::IB, Vop::IA),
                Vop::IF => (false, Vop::YA, Vop::YB),
                Vop::XF => (false, Vop::YA, Vop::IB),
                Vop::YF => (false, Vop::IA, Vop::IB),
                Vop::ZF => (false, Vop::IA, Vop::YB),
            },
            Vop::ID => match b {
                Vop::IA => (false, Vop::YA, Vop::XB),
                Vop::XA => (false, Vop::IA, Vop::YB),
                Vop::YA => (false, Vop::IA, Vop::IB),
                Vop::ZA => (false, Vop::YA, Vop::YB),
                Vop::IB => (false, Vop::IA, Vop::IA),
                Vop::XB => (false, Vop::YA, Vop::ZA),
                Vop::YB => (false, Vop::YA, Vop::IA),
                Vop::ZB => (false, Vop::IA, Vop::YA),
                Vop::IC => (false, Vop::YB, Vop::YB),
                Vop::XC => (false, Vop::YB, Vop::IB),
                Vop::YC => (false, Vop::IB, Vop::YB),
                Vop::ZC => (false, Vop::IB, Vop::IB),
                Vop::ID => (true, Vop::IE, Vop::YE),
                Vop::XD => (true, Vop::IE, Vop::ZE),
                Vop::YD => (true, Vop::IE, Vop::IE),
                Vop::ZD => (true, Vop::IE, Vop::XE),
                Vop::IE => (true, Vop::IE, Vop::ID),
                Vop::XE => (true, Vop::IE, Vop::XD),
                Vop::YE => (true, Vop::IE, Vop::YD),
                Vop::ZE => (true, Vop::IE, Vop::ZD),
                Vop::IF => (false, Vop::IB, Vop::YA),
                Vop::XF => (false, Vop::IB, Vop::IA),
                Vop::YF => (false, Vop::YB, Vop::YA),
                Vop::ZF => (false, Vop::YB, Vop::IA),
            },
            Vop::XD => match b {
                Vop::IA => (false, Vop::YA, Vop::YB),
                Vop::XA => (false, Vop::IA, Vop::IB),
                Vop::YA => (false, Vop::IA, Vop::YB),
                Vop::ZA => (false, Vop::YA, Vop::XB),
                Vop::IB => (false, Vop::IA, Vop::YA),
                Vop::XB => (false, Vop::YA, Vop::IA),
                Vop::YB => (false, Vop::YA, Vop::ZA),
                Vop::ZB => (false, Vop::IA, Vop::IA),
                Vop::IC => (false, Vop::IB, Vop::IB),
                Vop::XC => (false, Vop::IB, Vop::YB),
                Vop::YC => (false, Vop::YB, Vop::IB),
                Vop::ZC => (false, Vop::YB, Vop::YB),
                Vop::ID => (true, Vop::IE, Vop::XE),
                Vop::XD => (true, Vop::IE, Vop::IE),
                Vop::YD => (true, Vop::IE, Vop::ZE),
                Vop::ZD => (true, Vop::IE, Vop::YE),
                Vop::IE => (true, Vop::IE, Vop::ZD),
                Vop::XE => (true, Vop::IE, Vop::YD),
                Vop::YE => (true, Vop::IE, Vop::XD),
                Vop::ZE => (true, Vop::IE, Vop::ID),
                Vop::IF => (false, Vop::YB, Vop::IA),
                Vop::XF => (false, Vop::YB, Vop::YA),
                Vop::YF => (false, Vop::IB, Vop::IA),
                Vop::ZF => (false, Vop::IB, Vop::YA),
            },
            Vop::YD => match b {
                Vop::IA => (false, Vop::IA, Vop::XB),
                Vop::XA => (false, Vop::YA, Vop::YB),
                Vop::YA => (false, Vop::YA, Vop::IB),
                Vop::ZA => (false, Vop::IA, Vop::YB),
                Vop::IB => (false, Vop::YA, Vop::IA),
                Vop::XB => (false, Vop::IA, Vop::ZA),
                Vop::YB => (false, Vop::IA, Vop::IA),
                Vop::ZB => (false, Vop::YA, Vop::YA),
                Vop::IC => (false, Vop::IB, Vop::YB),
                Vop::XC => (false, Vop::IB, Vop::IB),
                Vop::YC => (false, Vop::YB, Vop::YB),
                Vop::ZC => (false, Vop::YB, Vop::IB),
                Vop::ID => (true, Vop::IE, Vop::IE),
                Vop::XD => (true, Vop::IE, Vop::XE),
                Vop::YD => (true, Vop::IE, Vop::YE),
                Vop::ZD => (true, Vop::IE, Vop::ZE),
                Vop::IE => (true, Vop::IE, Vop::YD),
                Vop::XE => (true, Vop::IE, Vop::ZD),
                Vop::YE => (true, Vop::IE, Vop::ID),
                Vop::ZE => (true, Vop::IE, Vop::XD),
                Vop::IF => (false, Vop::YB, Vop::YA),
                Vop::XF => (false, Vop::YB, Vop::IA),
                Vop::YF => (false, Vop::IB, Vop::YA),
                Vop::ZF => (false, Vop::IB, Vop::IA),
            },
            Vop::ZD => match b {
                Vop::IA => (false, Vop::IA, Vop::YB),
                Vop::XA => (false, Vop::YA, Vop::IB),
                Vop::YA => (false, Vop::YA, Vop::YB),
                Vop::ZA => (false, Vop::IA, Vop::XB),
                Vop::IB => (false, Vop::YA, Vop::YA),
                Vop::XB => (false, Vop::IA, Vop::IA),
                Vop::YB => (false, Vop::IA, Vop::ZA),
                Vop::ZB => (false, Vop::YA, Vop::IA),
                Vop::IC => (false, Vop::YB, Vop::IB),
                Vop::XC => (false, Vop::YB, Vop::YB),
                Vop::YC => (false, Vop::IB, Vop::IB),
                Vop::ZC => (false, Vop::IB, Vop::YB),
                Vop::ID => (true, Vop::IE, Vop::ZE),
                Vop::XD => (true, Vop::IE, Vop::YE),
                Vop::YD => (true, Vop::IE, Vop::XE),
                Vop::ZD => (true, Vop::IE, Vop::IE),
                Vop::IE => (true, Vop::IE, Vop::XD),
                Vop::XE => (true, Vop::IE, Vop::ID),
                Vop::YE => (true, Vop::IE, Vop::ZD),
                Vop::ZE => (true, Vop::IE, Vop::YD),
                Vop::IF => (false, Vop::IB, Vop::IA),
                Vop::XF => (false, Vop::IB, Vop::YA),
                Vop::YF => (false, Vop::YB, Vop::IA),
                Vop::ZF => (false, Vop::YB, Vop::YA),
            },
            Vop::IE => match b {
                Vop::IA => (false, Vop::YB, Vop::YB),
                Vop::XA => (false, Vop::IB, Vop::IB),
                Vop::YA => (false, Vop::IB, Vop::YB),
                Vop::ZA => (false, Vop::YB, Vop::XB),
                Vop::IB => (false, Vop::IB, Vop::YA),
                Vop::XB => (false, Vop::YB, Vop::IA),
                Vop::YB => (false, Vop::YB, Vop::ZA),
                Vop::ZB => (false, Vop::IB, Vop::IA),
                Vop::IC => (false, Vop::YA, Vop::IB),
                Vop::XC => (false, Vop::YA, Vop::YB),
                Vop::YC => (false, Vop::IA, Vop::IB),
                Vop::ZC => (false, Vop::IA, Vop::YB),
                Vop::ID => (true, Vop::ID, Vop::IE),
                Vop::XD => (true, Vop::ID, Vop::XE),
                Vop::YD => (true, Vop::ID, Vop::YE),
                Vop::ZD => (true, Vop::ID, Vop::ZE),
                Vop::IE => (true, Vop::ID, Vop::YD),
                Vop::XE => (true, Vop::ID, Vop::ZD),
                Vop::YE => (true, Vop::ID, Vop::ID),
                Vop::ZE => (true, Vop::ID, Vop::XD),
                Vop::IF => (false, Vop::IA, Vop::IA),
                Vop::XF => (false, Vop::IA, Vop::YA),
                Vop::YF => (false, Vop::YA, Vop::IA),
                Vop::ZF => (false, Vop::YA, Vop::YA),
            },
            Vop::XE => match b {
                Vop::IA => (false, Vop::YB, Vop::XB),
                Vop::XA => (false, Vop::IB, Vop::YB),
                Vop::YA => (false, Vop::IB, Vop::IB),
                Vop::ZA => (false, Vop::YB, Vop::YB),
                Vop::IB => (false, Vop::IB, Vop::IA),
                Vop::XB => (false, Vop::YB, Vop::ZA),
                Vop::YB => (false, Vop::YB, Vop::IA),
                Vop::ZB => (false, Vop::IB, Vop::YA),
                Vop::IC => (false, Vop::IA, Vop::YB),
                Vop::XC => (false, Vop::IA, Vop::IB),
                Vop::YC => (false, Vop::YA, Vop::YB),
                Vop::ZC => (false, Vop::YA, Vop::IB),
                Vop::ID => (true, Vop::ID, Vop::ZE),
                Vop::XD => (true, Vop::ID, Vop::YE),
                Vop::YD => (true, Vop::ID, Vop::XE),
                Vop::ZD => (true, Vop::ID, Vop::IE),
                Vop::IE => (true, Vop::ID, Vop::XD),
                Vop::XE => (true, Vop::ID, Vop::ID),
                Vop::YE => (true, Vop::ID, Vop::ZD),
                Vop::ZE => (true, Vop::ID, Vop::YD),
                Vop::IF => (false, Vop::YA, Vop::YA),
                Vop::XF => (false, Vop::YA, Vop::IA),
                Vop::YF => (false, Vop::IA, Vop::YA),
                Vop::ZF => (false, Vop::IA, Vop::IA),
            },
            Vop::YE => match b {
                Vop::IA => (false, Vop::IB, Vop::YB),
                Vop::XA => (false, Vop::YB, Vop::IB),
                Vop::YA => (false, Vop::YB, Vop::YB),
                Vop::ZA => (false, Vop::IB, Vop::XB),
                Vop::IB => (false, Vop::YB, Vop::YA),
                Vop::XB => (false, Vop::IB, Vop::IA),
                Vop::YB => (false, Vop::IB, Vop::ZA),
                Vop::ZB => (false, Vop::YB, Vop::IA),
                Vop::IC => (false, Vop::IA, Vop::IB),
                Vop::XC => (false, Vop::IA, Vop::YB),
                Vop::YC => (false, Vop::YA, Vop::IB),
                Vop::ZC => (false, Vop::YA, Vop::YB),
                Vop::ID => (true, Vop::ID, Vop::YE),
                Vop::XD => (true, Vop::ID, Vop::ZE),
                Vop::YD => (true, Vop::ID, Vop::IE),
                Vop::ZD => (true, Vop::ID, Vop::XE),
                Vop::IE => (true, Vop::ID, Vop::ID),
                Vop::XE => (true, Vop::ID, Vop::XD),
                Vop::YE => (true, Vop::ID, Vop::YD),
                Vop::ZE => (true, Vop::ID, Vop::ZD),
                Vop::IF => (false, Vop::YA, Vop::IA),
                Vop::XF => (false, Vop::YA, Vop::YA),
                Vop::YF => (false, Vop::IA, Vop::IA),
                Vop::ZF => (false, Vop::IA, Vop::YA),
            },
            Vop::ZE => match b {
                Vop::IA => (false, Vop::IB, Vop::XB),
                Vop::XA => (false, Vop::YB, Vop::YB),
                Vop::YA => (false, Vop::YB, Vop::IB),
                Vop::ZA => (false, Vop::IB, Vop::YB),
                Vop::IB => (false, Vop::YB, Vop::IA),
                Vop::XB => (false, Vop::IB, Vop::ZA),
                Vop::YB => (false, Vop::IB, Vop::IA),
                Vop::ZB => (false, Vop::YB, Vop::YA),
                Vop::IC => (false, Vop::YA, Vop::YB),
                Vop::XC => (false, Vop::YA, Vop::IB),
                Vop::YC => (false, Vop::IA, Vop::YB),
                Vop::ZC => (false, Vop::IA, Vop::IB),
                Vop::ID => (true, Vop::ID, Vop::XE),
                Vop::XD => (true, Vop::ID, Vop::IE),
                Vop::YD => (true, Vop::ID, Vop::ZE),
                Vop::ZD => (true, Vop::ID, Vop::YE),
                Vop::IE => (true, Vop::ID, Vop::ZD),
                Vop::XE => (true, Vop::ID, Vop::YD),
                Vop::YE => (true, Vop::ID, Vop::XD),
                Vop::ZE => (true, Vop::ID, Vop::ID),
                Vop::IF => (false, Vop::IA, Vop::YA),
                Vop::XF => (false, Vop::IA, Vop::IA),
                Vop::YF => (false, Vop::YA, Vop::YA),
                Vop::ZF => (false, Vop::YA, Vop::IA),
            },
            Vop::IF => match b {
                Vop::IA => (true, Vop::YC, Vop::XB),
                Vop::XA => (true, Vop::IC, Vop::YB),
                Vop::YA => (true, Vop::IC, Vop::XB),
                Vop::ZA => (true, Vop::YC, Vop::YB),
                Vop::IB => (true, Vop::IC, Vop::IA),
                Vop::XB => (true, Vop::YC, Vop::ZA),
                Vop::YB => (true, Vop::YC, Vop::IA),
                Vop::ZB => (true, Vop::IC, Vop::ZA),
                Vop::IC => (false, Vop::IB, Vop::YA),
                Vop::XC => (false, Vop::IB, Vop::IA),
                Vop::YC => (false, Vop::YB, Vop::IA),
                Vop::ZC => (false, Vop::YB, Vop::YA),
                Vop::ID => (false, Vop::YA, Vop::IB),
                Vop::XD => (false, Vop::IA, Vop::YB),
                Vop::YD => (false, Vop::YA, Vop::YB),
                Vop::ZD => (false, Vop::IA, Vop::IB),
                Vop::IE => (false, Vop::IA, Vop::IA),
                Vop::XE => (false, Vop::YA, Vop::YA),
                Vop::YE => (false, Vop::IA, Vop::YA),
                Vop::ZE => (false, Vop::YA, Vop::IA),
                Vop::IF => (false, Vop::YB, Vop::YB),
                Vop::XF => (false, Vop::YB, Vop::IB),
                Vop::YF => (false, Vop::IB, Vop::IB),
                Vop::ZF => (false, Vop::IB, Vop::YB),
            },
            Vop::XF => match b {
                Vop::IA => (true, Vop::YC, Vop::YB),
                Vop::XA => (true, Vop::IC, Vop::XB),
                Vop::YA => (true, Vop::IC, Vop::YB),
                Vop::ZA => (true, Vop::YC, Vop::XB),
                Vop::IB => (true, Vop::IC, Vop::ZA),
                Vop::XB => (true, Vop::YC, Vop::IA),
                Vop::YB => (true, Vop::YC, Vop::ZA),
                Vop::ZB => (true, Vop::IC, Vop::IA),
                Vop::IC => (false, Vop::YB, Vop::YA),
                Vop::XC => (false, Vop::YB, Vop::IA),
                Vop::YC => (false, Vop::IB, Vop::IA),
                Vop::ZC => (false, Vop::IB, Vop::YA),
                Vop::ID => (false, Vop::IA, Vop::IB),
                Vop::XD => (false, Vop::YA, Vop::YB),
                Vop::YD => (false, Vop::IA, Vop::YB),
                Vop::ZD => (false, Vop::YA, Vop::IB),
                Vop::IE => (false, Vop::YA, Vop::IA),
                Vop::XE => (false, Vop::IA, Vop::YA),
                Vop::YE => (false, Vop::YA, Vop::YA),
                Vop::ZE => (false, Vop::IA, Vop::IA),
                Vop::IF => (false, Vop::IB, Vop::YB),
                Vop::XF => (false, Vop::IB, Vop::IB),
                Vop::YF => (false, Vop::YB, Vop::IB),
                Vop::ZF => (false, Vop::YB, Vop::YB),
            },
            Vop::YF => match b {
                Vop::IA => (true, Vop::IC, Vop::XB),
                Vop::XA => (true, Vop::IC, Vop::IB),
                Vop::YA => (true, Vop::IC, Vop::ZB),
                Vop::ZA => (true, Vop::IC, Vop::YB),
                Vop::IB => (true, Vop::IC, Vop::YA),
                Vop::XB => (true, Vop::IC, Vop::ZA),
                Vop::YB => (true, Vop::IC, Vop::IA),
                Vop::ZB => (true, Vop::IC, Vop::XA),
                Vop::IC => (false, Vop::YB, Vop::IA),
                Vop::XC => (false, Vop::YB, Vop::YA),
                Vop::YC => (false, Vop::IB, Vop::YA),
                Vop::ZC => (false, Vop::IB, Vop::IA),
                Vop::ID => (false, Vop::YA, Vop::YB),
                Vop::XD => (false, Vop::IA, Vop::IB),
                Vop::YD => (false, Vop::YA, Vop::IB),
                Vop::ZD => (false, Vop::IA, Vop::YB),
                Vop::IE => (false, Vop::IA, Vop::YA),
                Vop::XE => (false, Vop::YA, Vop::IA),
                Vop::YE => (false, Vop::IA, Vop::IA),
                Vop::ZE => (false, Vop::YA, Vop::YA),
                Vop::IF => (false, Vop::IB, Vop::IB),
                Vop::XF => (false, Vop::IB, Vop::YB),
                Vop::YF => (false, Vop::YB, Vop::YB),
                Vop::ZF => (false, Vop::YB, Vop::IB),
            },
            Vop::ZF => match b {
                Vop::IA => (true, Vop::IC, Vop::YB),
                Vop::XA => (true, Vop::IC, Vop::ZB),
                Vop::YA => (true, Vop::IC, Vop::IB),
                Vop::ZA => (true, Vop::IC, Vop::XB),
                Vop::IB => (true, Vop::IC, Vop::XA),
                Vop::XB => (true, Vop::IC, Vop::IA),
                Vop::YB => (true, Vop::IC, Vop::ZA),
                Vop::ZB => (true, Vop::IC, Vop::YA),
                Vop::IC => (false, Vop::IB, Vop::IA),
                Vop::XC => (false, Vop::IB, Vop::YA),
                Vop::YC => (false, Vop::YB, Vop::YA),
                Vop::ZC => (false, Vop::YB, Vop::IA),
                Vop::ID => (false, Vop::IA, Vop::YB),
                Vop::XD => (false, Vop::YA, Vop::IB),
                Vop::YD => (false, Vop::IA, Vop::IB),
                Vop::ZD => (false, Vop::YA, Vop::YB),
                Vop::IE => (false, Vop::YA, Vop::YA),
                Vop::XE => (false, Vop::IA, Vop::IA),
                Vop::YE => (false, Vop::YA, Vop::IA),
                Vop::ZE => (false, Vop::IA, Vop::YA),
                Vop::IF => (false, Vop::YB, Vop::IB),
                Vop::XF => (false, Vop::YB, Vop::YB),
                Vop::YF => (false, Vop::IB, Vop::YB),
                Vop::ZF => (false, Vop::IB, Vop::IB),
            },
        }
    } else {
        match a {
            Vop::IA => match b {
                Vop::IA => (true, Vop::IA, Vop::IA),
                Vop::XA => (true, Vop::IA, Vop::IA),
                Vop::YA => (true, Vop::IA, Vop::ZA),
                Vop::ZA => (true, Vop::IA, Vop::ZA),
                Vop::IB => (true, Vop::IA, Vop::XB),
                Vop::XB => (true, Vop::IA, Vop::XB),
                Vop::YB => (true, Vop::IA, Vop::YB),
                Vop::ZB => (true, Vop::IA, Vop::YB),
                Vop::IC => (false, Vop::ZA, Vop::IC),
                Vop::XC => (false, Vop::ZA, Vop::IC),
                Vop::YC => (false, Vop::IA, Vop::YC),
                Vop::ZC => (false, Vop::IA, Vop::YC),
                Vop::ID => (true, Vop::IA, Vop::ZA),
                Vop::XD => (true, Vop::IA, Vop::ZA),
                Vop::YD => (true, Vop::IA, Vop::IA),
                Vop::ZD => (true, Vop::IA, Vop::IA),
                Vop::IE => (true, Vop::IA, Vop::YB),
                Vop::XE => (true, Vop::IA, Vop::YB),
                Vop::YE => (true, Vop::IA, Vop::XB),
                Vop::ZE => (true, Vop::IA, Vop::XB),
                Vop::IF => (false, Vop::IA, Vop::YC),
                Vop::XF => (false, Vop::IA, Vop::YC),
                Vop::YF => (false, Vop::ZA, Vop::IC),
                Vop::ZF => (false, Vop::ZA, Vop::IC),
            },
            Vop::XA => match b {
                Vop::IA => (true, Vop::IA, Vop::IA),
                Vop::XA => (true, Vop::IA, Vop::IA),
                Vop::YA => (true, Vop::IA, Vop::ZA),
                Vop::ZA => (true, Vop::IA, Vop::ZA),
                Vop::IB => (true, Vop::IA, Vop::XB),
                Vop::XB => (true, Vop::IA, Vop::XB),
                Vop::YB => (true, Vop::IA, Vop::YB),
                Vop::ZB => (true, Vop::IA, Vop::YB),
                Vop::IC => (false, Vop::YA, Vop::IC),
                Vop::XC => (false, Vop::YA, Vop::IC),
                Vop::YC => (false, Vop::IA, Vop::YC),
                Vop::ZC => (false, Vop::IA, Vop::YC),
                Vop::ID => (true, Vop::IA, Vop::ZA),
                Vop::XD => (true, Vop::IA, Vop::ZA),
                Vop::YD => (true, Vop::IA, Vop::IA),
                Vop::ZD => (true, Vop::IA, Vop::IA),
                Vop::IE => (true, Vop::IA, Vop::YB),
                Vop::XE => (true, Vop::IA, Vop::YB),
                Vop::YE => (true, Vop::IA, Vop::XB),
                Vop::ZE => (true, Vop::IA, Vop::XB),
                Vop::IF => (false, Vop::IA, Vop::YC),
                Vop::XF => (false, Vop::IA, Vop::YC),
                Vop::YF => (false, Vop::YA, Vop::IC),
                Vop::ZF => (false, Vop::YA, Vop::IC),
            },
            Vop::YA => match b {
                Vop::IA => (true, Vop::YA, Vop::ZA),
                Vop::XA => (true, Vop::IA, Vop::XA),
                Vop::YA => (true, Vop::IA, Vop::YA),
                Vop::ZA => (true, Vop::YA, Vop::IA),
                Vop::IB => (true, Vop::IA, Vop::IB),
                Vop::XB => (true, Vop::YA, Vop::YB),
                Vop::YB => (true, Vop::YA, Vop::XB),
                Vop::ZB => (true, Vop::IA, Vop::ZB),
                Vop::IC => (false, Vop::IA, Vop::IC),
                Vop::XC => (false, Vop::IA, Vop::IC),
                Vop::YC => (false, Vop::YA, Vop::YC),
                Vop::ZC => (false, Vop::YA, Vop::YC),
                Vop::ID => (true, Vop::IA, Vop::YA),
                Vop::XD => (true, Vop::IA, Vop::YA),
                Vop::YD => (true, Vop::IA, Vop::XA),
                Vop::ZD => (true, Vop::IA, Vop::XA),
                Vop::IE => (true, Vop::IA, Vop::ZB),
                Vop::XE => (true, Vop::IA, Vop::ZB),
                Vop::YE => (true, Vop::IA, Vop::IB),
                Vop::ZE => (true, Vop::IA, Vop::IB),
                Vop::IF => (false, Vop::YA, Vop::YC),
                Vop::XF => (false, Vop::YA, Vop::YC),
                Vop::YF => (false, Vop::IA, Vop::IC),
                Vop::ZF => (false, Vop::IA, Vop::IC),
            },
            Vop::ZA => match b {
                Vop::IA => (true, Vop::ZA, Vop::IA),
                Vop::XA => (true, Vop::IA, Vop::XA),
                Vop::YA => (true, Vop::IA, Vop::YA),
                Vop::ZA => (true, Vop::ZA, Vop::ZA),
                Vop::IB => (true, Vop::IA, Vop::IB),
                Vop::XB => (true, Vop::ZA, Vop::XB),
                Vop::YB => (true, Vop::ZA, Vop::YB),
                Vop::ZB => (true, Vop::IA, Vop::ZB),
                Vop::IC => (false, Vop::IA, Vop::IC),
                Vop::XC => (false, Vop::IA, Vop::IC),
                Vop::YC => (false, Vop::ZA, Vop::YC),
                Vop::ZC => (false, Vop::ZA, Vop::YC),
                Vop::ID => (true, Vop::IA, Vop::YA),
                Vop::XD => (true, Vop::IA, Vop::YA),
                Vop::YD => (true, Vop::IA, Vop::XA),
                Vop::ZD => (true, Vop::IA, Vop::XA),
                Vop::IE => (true, Vop::IA, Vop::ZB),
                Vop::XE => (true, Vop::IA, Vop::ZB),
                Vop::YE => (true, Vop::IA, Vop::IB),
                Vop::ZE => (true, Vop::IA, Vop::IB),
                Vop::IF => (false, Vop::ZA, Vop::YC),
                Vop::XF => (false, Vop::ZA, Vop::YC),
                Vop::YF => (false, Vop::IA, Vop::IC),
                Vop::ZF => (false, Vop::IA, Vop::IC),
            },
            Vop::IB => match b {
                Vop::IA => (true, Vop::IB, Vop::ZA),
                Vop::XA => (true, Vop::IB, Vop::ZA),
                Vop::YA => (true, Vop::IB, Vop::IA),
                Vop::ZA => (true, Vop::IB, Vop::IA),
                Vop::IB => (true, Vop::IB, Vop::YB),
                Vop::XB => (true, Vop::IB, Vop::YB),
                Vop::YB => (true, Vop::IB, Vop::XB),
                Vop::ZB => (true, Vop::IB, Vop::XB),
                Vop::IC => (false, Vop::YB, Vop::IC),
                Vop::XC => (false, Vop::YB, Vop::IC),
                Vop::YC => (false, Vop::IB, Vop::YC),
                Vop::ZC => (false, Vop::IB, Vop::YC),
                Vop::ID => (true, Vop::IB, Vop::IA),
                Vop::XD => (true, Vop::IB, Vop::IA),
                Vop::YD => (true, Vop::IB, Vop::ZA),
                Vop::ZD => (true, Vop::IB, Vop::ZA),
                Vop::IE => (true, Vop::IB, Vop::XB),
                Vop::XE => (true, Vop::IB, Vop::XB),
                Vop::YE => (true, Vop::IB, Vop::YB),
                Vop::ZE => (true, Vop::IB, Vop::YB),
                Vop::IF => (false, Vop::IB, Vop::YC),
                Vop::XF => (false, Vop::IB, Vop::YC),
                Vop::YF => (false, Vop::YB, Vop::IC),
                Vop::ZF => (false, Vop::YB, Vop::IC),
            },
            Vop::XB => match b {
                Vop::IA => (true, Vop::XB, Vop::IA),
                Vop::XA => (true, Vop::XB, Vop::IA),
                Vop::YA => (true, Vop::XB, Vop::ZA),
                Vop::ZA => (true, Vop::XB, Vop::ZA),
                Vop::IB => (true, Vop::XB, Vop::XB),
                Vop::XB => (true, Vop::XB, Vop::XB),
                Vop::YB => (true, Vop::XB, Vop::YB),
                Vop::ZB => (true, Vop::XB, Vop::YB),
                Vop::IC => (false, Vop::YB, Vop::IC),
                Vop::XC => (false, Vop::YB, Vop::IC),
                Vop::YC => (false, Vop::XB, Vop::YC),
                Vop::ZC => (false, Vop::XB, Vop::YC),
                Vop::ID => (true, Vop::XB, Vop::ZA),
                Vop::XD => (true, Vop::XB, Vop::ZA),
                Vop::YD => (true, Vop::XB, Vop::IA),
                Vop::ZD => (true, Vop::XB, Vop::IA),
                Vop::IE => (true, Vop::XB, Vop::YB),
                Vop::XE => (true, Vop::XB, Vop::YB),
                Vop::YE => (true, Vop::XB, Vop::XB),
                Vop::ZE => (true, Vop::XB, Vop::XB),
                Vop::IF => (false, Vop::XB, Vop::YC),
                Vop::XF => (false, Vop::XB, Vop::YC),
                Vop::YF => (false, Vop::YB, Vop::IC),
                Vop::ZF => (false, Vop::YB, Vop::IC),
            },
            Vop::YB => match b {
                Vop::IA => (true, Vop::YB, Vop::IA),
                Vop::XA => (true, Vop::XB, Vop::XA),
                Vop::YA => (true, Vop::XB, Vop::YA),
                Vop::ZA => (true, Vop::YB, Vop::ZA),
                Vop::IB => (true, Vop::XB, Vop::IB),
                Vop::XB => (true, Vop::YB, Vop::XB),
                Vop::YB => (true, Vop::YB, Vop::YB),
                Vop::ZB => (true, Vop::XB, Vop::ZB),
                Vop::IC => (false, Vop::XB, Vop::IC),
                Vop::XC => (false, Vop::XB, Vop::IC),
                Vop::YC => (false, Vop::YB, Vop::YC),
                Vop::ZC => (false, Vop::YB, Vop::YC),
                Vop::ID => (true, Vop::XB, Vop::YA),
                Vop::XD => (true, Vop::XB, Vop::YA),
                Vop::YD => (true, Vop::XB, Vop::XA),
                Vop::ZD => (true, Vop::XB, Vop::XA),
                Vop::IE => (true, Vop::XB, Vop::ZB),
                Vop::XE => (true, Vop::XB, Vop::ZB),
                Vop::YE => (true, Vop::XB, Vop::IB),
                Vop::ZE => (true, Vop::XB, Vop::IB),
                Vop::IF => (false, Vop::YB, Vop::YC),
                Vop::XF => (false, Vop::YB, Vop::YC),
                Vop::YF => (false, Vop::XB, Vop::IC),
                Vop::ZF => (false, Vop::XB, Vop::IC),
            },
            Vop::ZB => match b {
                Vop::IA => (true, Vop::YB, Vop::IA),
                Vop::XA => (true, Vop::IB, Vop::YA),
                Vop::YA => (true, Vop::IB, Vop::XA),
                Vop::ZA => (true, Vop::YB, Vop::ZA),
                Vop::IB => (true, Vop::IB, Vop::ZB),
                Vop::XB => (true, Vop::YB, Vop::XB),
                Vop::YB => (true, Vop::YB, Vop::YB),
                Vop::ZB => (true, Vop::IB, Vop::IB),
                Vop::IC => (false, Vop::IB, Vop::IC),
                Vop::XC => (false, Vop::IB, Vop::IC),
                Vop::YC => (false, Vop::YB, Vop::YC),
                Vop::ZC => (false, Vop::YB, Vop::YC),
                Vop::ID => (true, Vop::IB, Vop::XA),
                Vop::XD => (true, Vop::IB, Vop::XA),
                Vop::YD => (true, Vop::IB, Vop::YA),
                Vop::ZD => (true, Vop::IB, Vop::YA),
                Vop::IE => (true, Vop::IB, Vop::IB),
                Vop::XE => (true, Vop::IB, Vop::IB),
                Vop::YE => (true, Vop::IB, Vop::ZB),
                Vop::ZE => (true, Vop::IB, Vop::ZB),
                Vop::IF => (false, Vop::YB, Vop::YC),
                Vop::XF => (false, Vop::YB, Vop::YC),
                Vop::YF => (false, Vop::IB, Vop::IC),
                Vop::ZF => (false, Vop::IB, Vop::IC),
            },
            Vop::IC => match b {
                Vop::IA => (false, Vop::IC, Vop::ZA),
                Vop::XA => (false, Vop::IC, Vop::YA),
                Vop::YA => (false, Vop::IC, Vop::IA),
                Vop::ZA => (false, Vop::IC, Vop::IA),
                Vop::IB => (false, Vop::IC, Vop::YB),
                Vop::XB => (false, Vop::IC, Vop::YB),
                Vop::YB => (false, Vop::IC, Vop::XB),
                Vop::ZB => (false, Vop::IC, Vop::IB),
                Vop::IC => (false, Vop::IC, Vop::IC),
                Vop::XC => (false, Vop::IC, Vop::IC),
                Vop::YC => (false, Vop::IC, Vop::YC),
                Vop::ZC => (false, Vop::IC, Vop::YC),
                Vop::ID => (false, Vop::IC, Vop::IA),
                Vop::XD => (false, Vop::IC, Vop::IA),
                Vop::YD => (false, Vop::IC, Vop::YA),
                Vop::ZD => (false, Vop::IC, Vop::YA),
                Vop::IE => (false, Vop::IC, Vop::IB),
                Vop::XE => (false, Vop::IC, Vop::IB),
                Vop::YE => (false, Vop::IC, Vop::YB),
                Vop::ZE => (false, Vop::IC, Vop::YB),
                Vop::IF => (false, Vop::IC, Vop::YC),
                Vop::XF => (false, Vop::IC, Vop::YC),
                Vop::YF => (false, Vop::IC, Vop::IC),
                Vop::ZF => (false, Vop::IC, Vop::IC),
            },
            Vop::XC => match b {
                Vop::IA => (false, Vop::IC, Vop::ZA),
                Vop::XA => (false, Vop::IC, Vop::YA),
                Vop::YA => (false, Vop::IC, Vop::IA),
                Vop::ZA => (false, Vop::IC, Vop::IA),
                Vop::IB => (false, Vop::IC, Vop::YB),
                Vop::XB => (false, Vop::IC, Vop::YB),
                Vop::YB => (false, Vop::IC, Vop::XB),
                Vop::ZB => (false, Vop::IC, Vop::IB),
                Vop::IC => (false, Vop::IC, Vop::IC),
                Vop::XC => (false, Vop::IC, Vop::IC),
                Vop::YC => (false, Vop::IC, Vop::YC),
                Vop::ZC => (false, Vop::IC, Vop::YC),
                Vop::ID => (false, Vop::IC, Vop::IA),
                Vop::XD => (false, Vop::IC, Vop::IA),
                Vop::YD => (false, Vop::IC, Vop::YA),
                Vop::ZD => (false, Vop::IC, Vop::YA),
                Vop::IE => (false, Vop::IC, Vop::IB),
                Vop::XE => (false, Vop::IC, Vop::IB),
                Vop::YE => (false, Vop::IC, Vop::YB),
                Vop::ZE => (false, Vop::IC, Vop::YB),
                Vop::IF => (false, Vop::IC, Vop::YC),
                Vop::XF => (false, Vop::IC, Vop::YC),
                Vop::YF => (false, Vop::IC, Vop::IC),
                Vop::ZF => (false, Vop::IC, Vop::IC),
            },
            Vop::YC => match b {
                Vop::IA => (false, Vop::YC, Vop::IA),
                Vop::XA => (false, Vop::YC, Vop::IA),
                Vop::YA => (false, Vop::YC, Vop::YA),
                Vop::ZA => (false, Vop::YC, Vop::ZA),
                Vop::IB => (false, Vop::YC, Vop::IB),
                Vop::XB => (false, Vop::YC, Vop::XB),
                Vop::YB => (false, Vop::YC, Vop::YB),
                Vop::ZB => (false, Vop::YC, Vop::YB),
                Vop::IC => (false, Vop::YC, Vop::IC),
                Vop::XC => (false, Vop::YC, Vop::IC),
                Vop::YC => (false, Vop::YC, Vop::YC),
                Vop::ZC => (false, Vop::YC, Vop::YC),
                Vop::ID => (false, Vop::YC, Vop::YA),
                Vop::XD => (false, Vop::YC, Vop::YA),
                Vop::YD => (false, Vop::YC, Vop::IA),
                Vop::ZD => (false, Vop::YC, Vop::IA),
                Vop::IE => (false, Vop::YC, Vop::YB),
                Vop::XE => (false, Vop::YC, Vop::YB),
                Vop::YE => (false, Vop::YC, Vop::IB),
                Vop::ZE => (false, Vop::YC, Vop::IB),
                Vop::IF => (false, Vop::YC, Vop::YC),
                Vop::XF => (false, Vop::YC, Vop::YC),
                Vop::YF => (false, Vop::YC, Vop::IC),
                Vop::ZF => (false, Vop::YC, Vop::IC),
            },
            Vop::ZC => match b {
                Vop::IA => (false, Vop::YC, Vop::IA),
                Vop::XA => (false, Vop::YC, Vop::IA),
                Vop::YA => (false, Vop::YC, Vop::YA),
                Vop::ZA => (false, Vop::YC, Vop::ZA),
                Vop::IB => (false, Vop::YC, Vop::IB),
                Vop::XB => (false, Vop::YC, Vop::XB),
                Vop::YB => (false, Vop::YC, Vop::YB),
                Vop::ZB => (false, Vop::YC, Vop::YB),
                Vop::IC => (false, Vop::YC, Vop::IC),
                Vop::XC => (false, Vop::YC, Vop::IC),
                Vop::YC => (false, Vop::YC, Vop::YC),
                Vop::ZC => (false, Vop::YC, Vop::YC),
                Vop::ID => (false, Vop::YC, Vop::YA),
                Vop::XD => (false, Vop::YC, Vop::YA),
                Vop::YD => (false, Vop::YC, Vop::IA),
                Vop::ZD => (false, Vop::YC, Vop::IA),
                Vop::IE => (false, Vop::YC, Vop::YB),
                Vop::XE => (false, Vop::YC, Vop::YB),
                Vop::YE => (false, Vop::YC, Vop::IB),
                Vop::ZE => (false, Vop::YC, Vop::IB),
                Vop::IF => (false, Vop::YC, Vop::YC),
                Vop::XF => (false, Vop::YC, Vop::YC),
                Vop::YF => (false, Vop::YC, Vop::IC),
                Vop::ZF => (false, Vop::YC, Vop::IC),
            },
            Vop::ID => match b {
                Vop::IA => (true, Vop::YA, Vop::ZA),
                Vop::XA => (true, Vop::IA, Vop::XA),
                Vop::YA => (true, Vop::IA, Vop::YA),
                Vop::ZA => (true, Vop::YA, Vop::IA),
                Vop::IB => (true, Vop::IA, Vop::IB),
                Vop::XB => (true, Vop::YA, Vop::YB),
                Vop::YB => (true, Vop::YA, Vop::XB),
                Vop::ZB => (true, Vop::IA, Vop::ZB),
                Vop::IC => (false, Vop::IA, Vop::IC),
                Vop::XC => (false, Vop::IA, Vop::IC),
                Vop::YC => (false, Vop::YA, Vop::YC),
                Vop::ZC => (false, Vop::YA, Vop::YC),
                Vop::ID => (true, Vop::IA, Vop::YA),
                Vop::XD => (true, Vop::IA, Vop::YA),
                Vop::YD => (true, Vop::IA, Vop::XA),
                Vop::ZD => (true, Vop::IA, Vop::XA),
                Vop::IE => (true, Vop::IA, Vop::ZB),
                Vop::XE => (true, Vop::IA, Vop::ZB),
                Vop::YE => (true, Vop::IA, Vop::IB),
                Vop::ZE => (true, Vop::IA, Vop::IB),
                Vop::IF => (false, Vop::YA, Vop::YC),
                Vop::XF => (false, Vop::YA, Vop::YC),
                Vop::YF => (false, Vop::IA, Vop::IC),
                Vop::ZF => (false, Vop::IA, Vop::IC),
            },
            Vop::XD => match b {
                Vop::IA => (true, Vop::YA, Vop::ZA),
                Vop::XA => (true, Vop::IA, Vop::XA),
                Vop::YA => (true, Vop::IA, Vop::YA),
                Vop::ZA => (true, Vop::YA, Vop::IA),
                Vop::IB => (true, Vop::IA, Vop::IB),
                Vop::XB => (true, Vop::YA, Vop::YB),
                Vop::YB => (true, Vop::YA, Vop::XB),
                Vop::ZB => (true, Vop::IA, Vop::ZB),
                Vop::IC => (false, Vop::IA, Vop::IC),
                Vop::XC => (false, Vop::IA, Vop::IC),
                Vop::YC => (false, Vop::YA, Vop::YC),
                Vop::ZC => (false, Vop::YA, Vop::YC),
                Vop::ID => (true, Vop::IA, Vop::YA),
                Vop::XD => (true, Vop::IA, Vop::YA),
                Vop::YD => (true, Vop::IA, Vop::XA),
                Vop::ZD => (true, Vop::IA, Vop::XA),
                Vop::IE => (true, Vop::IA, Vop::ZB),
                Vop::XE => (true, Vop::IA, Vop::ZB),
                Vop::YE => (true, Vop::IA, Vop::IB),
                Vop::ZE => (true, Vop::IA, Vop::IB),
                Vop::IF => (false, Vop::YA, Vop::YC),
                Vop::XF => (false, Vop::YA, Vop::YC),
                Vop::YF => (false, Vop::IA, Vop::IC),
                Vop::ZF => (false, Vop::IA, Vop::IC),
            },
            Vop::YD => match b {
                Vop::IA => (true, Vop::IA, Vop::IA),
                Vop::XA => (true, Vop::IA, Vop::IA),
                Vop::YA => (true, Vop::IA, Vop::ZA),
                Vop::ZA => (true, Vop::IA, Vop::ZA),
                Vop::IB => (true, Vop::IA, Vop::XB),
                Vop::XB => (true, Vop::IA, Vop::XB),
                Vop::YB => (true, Vop::IA, Vop::YB),
                Vop::ZB => (true, Vop::IA, Vop::YB),
                Vop::IC => (false, Vop::YA, Vop::IC),
                Vop::XC => (false, Vop::YA, Vop::IC),
                Vop::YC => (false, Vop::IA, Vop::YC),
                Vop::ZC => (false, Vop::IA, Vop::YC),
                Vop::ID => (true, Vop::IA, Vop::ZA),
                Vop::XD => (true, Vop::IA, Vop::ZA),
                Vop::YD => (true, Vop::IA, Vop::IA),
                Vop::ZD => (true, Vop::IA, Vop::IA),
                Vop::IE => (true, Vop::IA, Vop::YB),
                Vop::XE => (true, Vop::IA, Vop::YB),
                Vop::YE => (true, Vop::IA, Vop::XB),
                Vop::ZE => (true, Vop::IA, Vop::XB),
                Vop::IF => (false, Vop::IA, Vop::YC),
                Vop::XF => (false, Vop::IA, Vop::YC),
                Vop::YF => (false, Vop::YA, Vop::IC),
                Vop::ZF => (false, Vop::YA, Vop::IC),
            },
            Vop::ZD => match b {
                Vop::IA => (true, Vop::IA, Vop::IA),
                Vop::XA => (true, Vop::IA, Vop::IA),
                Vop::YA => (true, Vop::IA, Vop::ZA),
                Vop::ZA => (true, Vop::IA, Vop::ZA),
                Vop::IB => (true, Vop::IA, Vop::XB),
                Vop::XB => (true, Vop::IA, Vop::XB),
                Vop::YB => (true, Vop::IA, Vop::YB),
                Vop::ZB => (true, Vop::IA, Vop::YB),
                Vop::IC => (false, Vop::YA, Vop::IC),
                Vop::XC => (false, Vop::YA, Vop::IC),
                Vop::YC => (false, Vop::IA, Vop::YC),
                Vop::ZC => (false, Vop::IA, Vop::YC),
                Vop::ID => (true, Vop::IA, Vop::ZA),
                Vop::XD => (true, Vop::IA, Vop::ZA),
                Vop::YD => (true, Vop::IA, Vop::IA),
                Vop::ZD => (true, Vop::IA, Vop::IA),
                Vop::IE => (true, Vop::IA, Vop::YB),
                Vop::XE => (true, Vop::IA, Vop::YB),
                Vop::YE => (true, Vop::IA, Vop::XB),
                Vop::ZE => (true, Vop::IA, Vop::XB),
                Vop::IF => (false, Vop::IA, Vop::YC),
                Vop::XF => (false, Vop::IA, Vop::YC),
                Vop::YF => (false, Vop::YA, Vop::IC),
                Vop::ZF => (false, Vop::YA, Vop::IC),
            },
            Vop::IE => match b {
                Vop::IA => (true, Vop::YB, Vop::IA),
                Vop::XA => (true, Vop::IB, Vop::YA),
                Vop::YA => (true, Vop::IB, Vop::XA),
                Vop::ZA => (true, Vop::YB, Vop::ZA),
                Vop::IB => (true, Vop::IB, Vop::ZB),
                Vop::XB => (true, Vop::YB, Vop::XB),
                Vop::YB => (true, Vop::YB, Vop::YB),
                Vop::ZB => (true, Vop::IB, Vop::IB),
                Vop::IC => (false, Vop::IB, Vop::IC),
                Vop::XC => (false, Vop::IB, Vop::IC),
                Vop::YC => (false, Vop::YB, Vop::YC),
                Vop::ZC => (false, Vop::YB, Vop::YC),
                Vop::ID => (true, Vop::IB, Vop::XA),
                Vop::XD => (true, Vop::IB, Vop::XA),
                Vop::YD => (true, Vop::IB, Vop::YA),
                Vop::ZD => (true, Vop::IB, Vop::YA),
                Vop::IE => (true, Vop::IB, Vop::IB),
                Vop::XE => (true, Vop::IB, Vop::IB),
                Vop::YE => (true, Vop::IB, Vop::ZB),
                Vop::ZE => (true, Vop::IB, Vop::ZB),
                Vop::IF => (false, Vop::YB, Vop::YC),
                Vop::XF => (false, Vop::YB, Vop::YC),
                Vop::YF => (false, Vop::IB, Vop::IC),
                Vop::ZF => (false, Vop::IB, Vop::IC),
            },
            Vop::XE => match b {
                Vop::IA => (true, Vop::YB, Vop::IA),
                Vop::XA => (true, Vop::IB, Vop::YA),
                Vop::YA => (true, Vop::IB, Vop::XA),
                Vop::ZA => (true, Vop::YB, Vop::ZA),
                Vop::IB => (true, Vop::IB, Vop::ZB),
                Vop::XB => (true, Vop::YB, Vop::XB),
                Vop::YB => (true, Vop::YB, Vop::YB),
                Vop::ZB => (true, Vop::IB, Vop::IB),
                Vop::IC => (false, Vop::IB, Vop::IC),
                Vop::XC => (false, Vop::IB, Vop::IC),
                Vop::YC => (false, Vop::YB, Vop::YC),
                Vop::ZC => (false, Vop::YB, Vop::YC),
                Vop::ID => (true, Vop::IB, Vop::XA),
                Vop::XD => (true, Vop::IB, Vop::XA),
                Vop::YD => (true, Vop::IB, Vop::YA),
                Vop::ZD => (true, Vop::IB, Vop::YA),
                Vop::IE => (true, Vop::IB, Vop::IB),
                Vop::XE => (true, Vop::IB, Vop::IB),
                Vop::YE => (true, Vop::IB, Vop::ZB),
                Vop::ZE => (true, Vop::IB, Vop::ZB),
                Vop::IF => (false, Vop::YB, Vop::YC),
                Vop::XF => (false, Vop::YB, Vop::YC),
                Vop::YF => (false, Vop::IB, Vop::IC),
                Vop::ZF => (false, Vop::IB, Vop::IC),
            },
            Vop::YE => match b {
                Vop::IA => (true, Vop::IB, Vop::ZA),
                Vop::XA => (true, Vop::IB, Vop::ZA),
                Vop::YA => (true, Vop::IB, Vop::IA),
                Vop::ZA => (true, Vop::IB, Vop::IA),
                Vop::IB => (true, Vop::IB, Vop::YB),
                Vop::XB => (true, Vop::IB, Vop::YB),
                Vop::YB => (true, Vop::IB, Vop::XB),
                Vop::ZB => (true, Vop::IB, Vop::XB),
                Vop::IC => (false, Vop::YB, Vop::IC),
                Vop::XC => (false, Vop::YB, Vop::IC),
                Vop::YC => (false, Vop::IB, Vop::YC),
                Vop::ZC => (false, Vop::IB, Vop::YC),
                Vop::ID => (true, Vop::IB, Vop::IA),
                Vop::XD => (true, Vop::IB, Vop::IA),
                Vop::YD => (true, Vop::IB, Vop::ZA),
                Vop::ZD => (true, Vop::IB, Vop::ZA),
                Vop::IE => (true, Vop::IB, Vop::XB),
                Vop::XE => (true, Vop::IB, Vop::XB),
                Vop::YE => (true, Vop::IB, Vop::YB),
                Vop::ZE => (true, Vop::IB, Vop::YB),
                Vop::IF => (false, Vop::IB, Vop::YC),
                Vop::XF => (false, Vop::IB, Vop::YC),
                Vop::YF => (false, Vop::YB, Vop::IC),
                Vop::ZF => (false, Vop::YB, Vop::IC),
            },
            Vop::ZE => match b {
                Vop::IA => (true, Vop::IB, Vop::ZA),
                Vop::XA => (true, Vop::IB, Vop::ZA),
                Vop::YA => (true, Vop::IB, Vop::IA),
                Vop::ZA => (true, Vop::IB, Vop::IA),
                Vop::IB => (true, Vop::IB, Vop::YB),
                Vop::XB => (true, Vop::IB, Vop::YB),
                Vop::YB => (true, Vop::IB, Vop::XB),
                Vop::ZB => (true, Vop::IB, Vop::XB),
                Vop::IC => (false, Vop::YB, Vop::IC),
                Vop::XC => (false, Vop::YB, Vop::IC),
                Vop::YC => (false, Vop::IB, Vop::YC),
                Vop::ZC => (false, Vop::IB, Vop::YC),
                Vop::ID => (true, Vop::IB, Vop::IA),
                Vop::XD => (true, Vop::IB, Vop::IA),
                Vop::YD => (true, Vop::IB, Vop::ZA),
                Vop::ZD => (true, Vop::IB, Vop::ZA),
                Vop::IE => (true, Vop::IB, Vop::XB),
                Vop::XE => (true, Vop::IB, Vop::XB),
                Vop::YE => (true, Vop::IB, Vop::YB),
                Vop::ZE => (true, Vop::IB, Vop::YB),
                Vop::IF => (false, Vop::IB, Vop::YC),
                Vop::XF => (false, Vop::IB, Vop::YC),
                Vop::YF => (false, Vop::YB, Vop::IC),
                Vop::ZF => (false, Vop::YB, Vop::IC),
            },
            Vop::IF => match b {
                Vop::IA => (false, Vop::YC, Vop::IA),
                Vop::XA => (false, Vop::YC, Vop::IA),
                Vop::YA => (false, Vop::YC, Vop::YA),
                Vop::ZA => (false, Vop::YC, Vop::ZA),
                Vop::IB => (false, Vop::YC, Vop::IB),
                Vop::XB => (false, Vop::YC, Vop::XB),
                Vop::YB => (false, Vop::YC, Vop::YB),
                Vop::ZB => (false, Vop::YC, Vop::YB),
                Vop::IC => (false, Vop::YC, Vop::IC),
                Vop::XC => (false, Vop::YC, Vop::IC),
                Vop::YC => (false, Vop::YC, Vop::YC),
                Vop::ZC => (false, Vop::YC, Vop::YC),
                Vop::ID => (false, Vop::YC, Vop::YA),
                Vop::XD => (false, Vop::YC, Vop::YA),
                Vop::YD => (false, Vop::YC, Vop::IA),
                Vop::ZD => (false, Vop::YC, Vop::IA),
                Vop::IE => (false, Vop::YC, Vop::YB),
                Vop::XE => (false, Vop::YC, Vop::YB),
                Vop::YE => (false, Vop::YC, Vop::IB),
                Vop::ZE => (false, Vop::YC, Vop::IB),
                Vop::IF => (false, Vop::YC, Vop::YC),
                Vop::XF => (false, Vop::YC, Vop::YC),
                Vop::YF => (false, Vop::YC, Vop::IC),
                Vop::ZF => (false, Vop::YC, Vop::IC),
            },
            Vop::XF => match b {
                Vop::IA => (false, Vop::YC, Vop::IA),
                Vop::XA => (false, Vop::YC, Vop::IA),
                Vop::YA => (false, Vop::YC, Vop::YA),
                Vop::ZA => (false, Vop::YC, Vop::ZA),
                Vop::IB => (false, Vop::YC, Vop::IB),
                Vop::XB => (false, Vop::YC, Vop::XB),
                Vop::YB => (false, Vop::YC, Vop::YB),
                Vop::ZB => (false, Vop::YC, Vop::YB),
                Vop::IC => (false, Vop::YC, Vop::IC),
                Vop::XC => (false, Vop::YC, Vop::IC),
                Vop::YC => (false, Vop::YC, Vop::YC),
                Vop::ZC => (false, Vop::YC, Vop::YC),
                Vop::ID => (false, Vop::YC, Vop::YA),
                Vop::XD => (false, Vop::YC, Vop::YA),
                Vop::YD => (false, Vop::YC, Vop::IA),
                Vop::ZD => (false, Vop::YC, Vop::IA),
                Vop::IE => (false, Vop::YC, Vop::YB),
                Vop::XE => (false, Vop::YC, Vop::YB),
                Vop::YE => (false, Vop::YC, Vop::IB),
                Vop::ZE => (false, Vop::YC, Vop::IB),
                Vop::IF => (false, Vop::YC, Vop::YC),
                Vop::XF => (false, Vop::YC, Vop::YC),
                Vop::YF => (false, Vop::YC, Vop::IC),
                Vop::ZF => (false, Vop::YC, Vop::IC),
            },
            Vop::YF => match b {
                Vop::IA => (false, Vop::IC, Vop::ZA),
                Vop::XA => (false, Vop::IC, Vop::YA),
                Vop::YA => (false, Vop::IC, Vop::IA),
                Vop::ZA => (false, Vop::IC, Vop::IA),
                Vop::IB => (false, Vop::IC, Vop::YB),
                Vop::XB => (false, Vop::IC, Vop::YB),
                Vop::YB => (false, Vop::IC, Vop::XB),
                Vop::ZB => (false, Vop::IC, Vop::IB),
                Vop::IC => (false, Vop::IC, Vop::IC),
                Vop::XC => (false, Vop::IC, Vop::IC),
                Vop::YC => (false, Vop::IC, Vop::YC),
                Vop::ZC => (false, Vop::IC, Vop::YC),
                Vop::ID => (false, Vop::IC, Vop::IA),
                Vop::XD => (false, Vop::IC, Vop::IA),
                Vop::YD => (false, Vop::IC, Vop::YA),
                Vop::ZD => (false, Vop::IC, Vop::YA),
                Vop::IE => (false, Vop::IC, Vop::IB),
                Vop::XE => (false, Vop::IC, Vop::IB),
                Vop::YE => (false, Vop::IC, Vop::YB),
                Vop::ZE => (false, Vop::IC, Vop::YB),
                Vop::IF => (false, Vop::IC, Vop::YC),
                Vop::XF => (false, Vop::IC, Vop::YC),
                Vop::YF => (false, Vop::IC, Vop::IC),
                Vop::ZF => (false, Vop::IC, Vop::IC),
            },
            Vop::ZF => match b {
                Vop::IA => (false, Vop::IC, Vop::ZA),
                Vop::XA => (false, Vop::IC, Vop::YA),
                Vop::YA => (false, Vop::IC, Vop::IA),
                Vop::ZA => (false, Vop::IC, Vop::IA),
                Vop::IB => (false, Vop::IC, Vop::YB),
                Vop::XB => (false, Vop::IC, Vop::YB),
                Vop::YB => (false, Vop::IC, Vop::XB),
                Vop::ZB => (false, Vop::IC, Vop::IB),
                Vop::IC => (false, Vop::IC, Vop::IC),
                Vop::XC => (false, Vop::IC, Vop::IC),
                Vop::YC => (false, Vop::IC, Vop::YC),
                Vop::ZC => (false, Vop::IC, Vop::YC),
                Vop::ID => (false, Vop::IC, Vop::IA),
                Vop::XD => (false, Vop::IC, Vop::IA),
                Vop::YD => (false, Vop::IC, Vop::YA),
                Vop::ZD => (false, Vop::IC, Vop::YA),
                Vop::IE => (false, Vop::IC, Vop::IB),
                Vop::XE => (false, Vop::IC, Vop::IB),
                Vop::YE => (false, Vop::IC, Vop::YB),
                Vop::ZE => (false, Vop::IC, Vop::YB),
                Vop::IF => (false, Vop::IC, Vop::YC),
                Vop::XF => (false, Vop::IC, Vop::YC),
                Vop::YF => (false, Vop::IC, Vop::IC),
                Vop::ZF => (false, Vop::IC, Vop::IC),
            },
        }
    }
}

/// The conjugation table treats its two qubits alike: on Z-commuting
/// operators, swapping the endpoints swaps the two resulting operators and
/// keeps the edge flag.
pub proof fn lemma_cphase_swap(had_edge: bool, a: Vop, b: Vop)
    requires
        is_in_z_spec(a),
        is_in_z_spec(b),
    ensures
        cphase_spec(had_edge, a, b).0 == cphase_spec(had_edge, b, a).0,
        cphase_spec(had_edge, a, b).1 == cphase_spec(had_edge, b, a).2,
        cphase_spec(had_edge, a, b).2 == cphase_spec(had_edge, b, a).1,
{
}

/// On Z-commuting operators the conjugation table undoes itself: feeding its
/// own output back in returns the edge flag and operators it started from.
pub proof fn lemma_cphase_self_inverse(had_edge: bool, a: Vop, b: Vop)
    requires
        is_in_z_spec(a),
        is_in_z_spec(b),
    ensures
        cphase_spec(
            cphase_spec(had_edge, a, b).0,
            cphase_spec(had_edge, a, b).1,
            cphase_spec(had_edge, a, b).2,
        ) == (had_edge, a, b),
{
}

/// On Z-commuting operators the conjugation table yields Z-commuting
/// operators again.
pub proof fn lemma_cphase_stays_in_z(had_edge: bool, a: Vop, b: Vop)
    requires
        is_in_z_spec(a),
        is_in_z_spec(b),
    ensures
        is_in_z_spec(cphase_spec(had_edge, a, b).1),
        is_in_z_spec(cphase_spec(had_edge, a, b).2),
{
}

} // verus!
