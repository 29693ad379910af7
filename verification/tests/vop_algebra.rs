use graphsim::Vop;

fn all_vops() -> Vec<Vop> {
    vec![
        Vop::IA,
        Vop::XA,
        Vop::YA,
        Vop::ZA,
        Vop::IB,
        Vop::XB,
        Vop::YB,
        Vop::ZB,
        Vop::IC,
        Vop::XC,
        Vop::YC,
        Vop::ZC,
        Vop::ID,
        Vop::XD,
        Vop::YD,
        Vop::ZD,
        Vop::IE,
        Vop::XE,
        Vop::YE,
        Vop::ZE,
        Vop::IF,
        Vop::XF,
        Vop::YF,
        Vop::ZF,
    ]
}

#[test]
fn t_identity_is_neutral() {
    for &a in all_vops().iter() {
        assert_eq!(Vop::IA.mul(a), a);
        assert_eq!(a.mul(Vop::IA), a);
    }
}

#[test]
fn t_adjoint_round_trip() {
    for &a in all_vops().iter() {
        assert_eq!(a.mul(a.adj()), Vop::IA);
        assert_eq!(a.adj().mul(a), Vop::IA);
        assert_eq!(a.adj().adj(), a);
    }
}

#[test]
fn t_composition_is_associative() {
    let vops = all_vops();
    for &a in vops.iter() {
        for &b in vops.iter() {
            for &c in vops.iter() {
                assert_eq!(a.mul(b).mul(c), a.mul(b.mul(c)));
            }
        }
    }
}

#[test]
fn t_z_commuting_members() {
    for &a in all_vops().iter() {
        let expected = matches!(a, Vop::IA | Vop::ZA | Vop::YB | Vop::XB);
        assert_eq!(a.is_in_z(), expected);
    }
}

#[test]
fn t_index_enumerates_all() {
    let mut seen = vec![false; 24];
    for &a in all_vops().iter() {
        let i = a.index() as usize;
        assert!(i < 24);
        assert!(!seen[i]);
        seen[i] = true;
    }
    assert!(seen.iter().all(|&b| b));
}

#[test]
fn t_decomp_words_are_short() {
    for &a in all_vops().iter() {
        let len = a.decomp_len();
        assert!(1 <= len && len <= 5);
        for k in 0..len {
            let _ = a.decomp_at(k);
        }
    }
}
