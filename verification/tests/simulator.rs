use graphsim::Axis;
use graphsim::GraphSim;
use graphsim::MeasurementResult;
use graphsim::Vop;

fn snapshot(sim: &GraphSim) -> Vec<(Vec<usize>, Vop)> {
    let n = sim.qubit_count();
    let mut out = Vec::new();
    for q in 0..n {
        let mut adj = sim.index(q).neighbors();
        adj.sort();
        out.push((adj, sim.index(q).vop()));
    }
    out
}

fn check_invariants(sim: &GraphSim) {
    let n = sim.qubit_count();
    for q in 0..n {
        let adj = sim.index(q).neighbors();
        for (pos, &y) in adj.iter().enumerate() {
            assert!(y < n);
            assert!(y != q);
            assert!(sim.index(y).neighbors().contains(&q));
            for &z in adj.iter().skip(pos + 1) {
                assert!(z != y);
            }
        }
    }
}

fn group_sorted(sim: &GraphSim, q: usize) -> Vec<usize> {
    let mut g = sim.get_entangled_group(q);
    g.sort();
    g
}

#[test]
fn t_new_state_is_all_zeros() {
    let sim = GraphSim::new(3);
    assert_eq!(sim.qubit_count(), 3);
    for q in 0..3 {
        assert_eq!(sim.index(q).len(), 0);
        assert_eq!(sim.index(q).get_state_str(), "0");
        assert_eq!(group_sorted(&sim, q), vec![q]);
    }
    check_invariants(&sim);
}

#[test]
fn t_state_labels_after_gates() {
    let mut sim = GraphSim::new(2);
    sim.h(0);
    assert_eq!(sim.index(0).get_state_str(), "+");
    sim.x(1);
    assert_eq!(sim.index(1).get_state_str(), "1");
}

#[test]
fn t_fresh_measure_z_plus_one() {
    for _ in 0..50 {
        let mut sim = GraphSim::new(1);
        assert_eq!(sim.measure_z(0), MeasurementResult::PlusOne);
    }
}

#[test]
fn t_fresh_h_measure_x_plus_one() {
    for _ in 0..50 {
        let mut sim = GraphSim::new(1);
        sim.h(0);
        assert_eq!(sim.measure_x(0), MeasurementResult::PlusOne);
    }
}

#[test]
fn t_measure_z_after_h_is_uniform() {
    let trials = 2000;
    let mut plus = 0;
    for _ in 0..trials {
        let mut sim = GraphSim::new(1);
        sim.h(0);
        assert_eq!(sim.measure_x(0), MeasurementResult::PlusOne);
        if sim.measure_z(0) == MeasurementResult::PlusOne {
            plus += 1;
        }
    }
    assert!(plus > 800 && plus < 1200, "plus outcomes: {}", plus);
}

#[test]
fn t_gate_involutions_preserve_state() {
    let mut sim = GraphSim::new(3);
    sim.h(0);
    sim.h(1);
    sim.cz(0, 1);
    sim.s(1);
    sim.x(2);
    let before = snapshot(&sim);
    sim.h(0);
    sim.h(0);
    assert_eq!(snapshot(&sim), before);
    sim.x(1);
    sim.x(1);
    assert_eq!(snapshot(&sim), before);
    sim.y(2);
    sim.y(2);
    assert_eq!(snapshot(&sim), before);
    sim.z(0);
    sim.z(0);
    assert_eq!(snapshot(&sim), before);
    sim.s(1);
    sim.sdag(1);
    assert_eq!(snapshot(&sim), before);
    sim.sdag(2);
    sim.s(2);
    assert_eq!(snapshot(&sim), before);
}

#[test]
fn t_toggle_edge_round_trip() {
    let mut sim = GraphSim::new(2);
    assert!(sim.toggle_edge(0, 1));
    assert_eq!(sim.index(0).neighbors(), vec![1]);
    assert_eq!(sim.index(1).neighbors(), vec![0]);
    check_invariants(&sim);
    assert!(!sim.toggle_edge(0, 1));
    assert_eq!(sim.index(0).len(), 0);
    assert_eq!(sim.index(1).len(), 0);
    check_invariants(&sim);
}

#[test]
fn t_delete_edge_removes_both_sides() {
    let mut sim = GraphSim::new(2);
    sim.toggle_edge(0, 1);
    sim.delete_edge(0, 1);
    assert_eq!(sim.index(0).len(), 0);
    assert_eq!(sim.index(1).len(), 0);
    sim.delete_edge(0, 1);
    assert_eq!(sim.index(0).len(), 0);
}

#[test]
fn t_cz_entangles_plus_pair() {
    let mut sim = GraphSim::new(2);
    sim.h(0);
    sim.h(1);
    sim.cz(0, 1);
    assert_eq!(snapshot(&sim), vec![(vec![1], Vop::IA), (vec![0], Vop::IA)]);
    assert_eq!(group_sorted(&sim, 0), vec![0, 1]);
}

#[test]
fn t_cz_symmetric_fresh_pair() {
    let mut s1 = GraphSim::new(2);
    let mut s2 = GraphSim::new(2);
    for s in [&mut s1, &mut s2] {
        s.h(0);
        s.h(1);
    }
    s1.cz(0, 1);
    s2.cz(1, 0);
    assert_eq!(snapshot(&s1), snapshot(&s2));
}

#[test]
fn t_cz_symmetric_entangled_pair() {
    let mut s1 = GraphSim::new(2);
    let mut s2 = GraphSim::new(2);
    for s in [&mut s1, &mut s2] {
        s.h(0);
        s.h(1);
        s.cz(0, 1);
    }
    s1.cz(0, 1);
    s2.cz(1, 0);
    assert_eq!(snapshot(&s1), snapshot(&s2));
}

#[test]
fn t_cz_self_inverse_pair() {
    let mut s1 = GraphSim::new(2);
    let mut s2 = GraphSim::new(2);
    for s in [&mut s1, &mut s2] {
        s.h(0);
        s.h(1);
    }
    let before = snapshot(&s1);
    s1.cz(0, 1);
    s1.cz(0, 1);
    assert_eq!(snapshot(&s1), before);
    assert_eq!(snapshot(&s1), snapshot(&s2));
}

#[test]
fn t_bell_pair_z_correlated() {
    let mut seen_plus = false;
    let mut seen_minus = false;
    for _ in 0..500 {
        let mut sim = GraphSim::new(2);
        sim.h(0);
        sim.h(1);
        sim.cz(0, 1);
        sim.h(1);
        let r0 = sim.measure_z(0);
        let r1 = sim.measure_z(1);
        assert_eq!(r0, r1);
        match r0 {
            MeasurementResult::PlusOne => seen_plus = true,
            MeasurementResult::MinusOne => seen_minus = true,
        }
    }
    assert!(seen_plus && seen_minus);
}

#[test]
fn t_h_cz_h_marginals() {
    let trials = 2000;
    let mut plus0 = 0;
    let mut plus1 = 0;
    for _ in 0..trials {
        let mut sim = GraphSim::new(2);
        sim.h(0);
        sim.cz(0, 1);
        sim.h(1);
        if sim.measure_z(0) == MeasurementResult::PlusOne {
            plus0 += 1;
        }
        if sim.measure_z(1) == MeasurementResult::PlusOne {
            plus1 += 1;
        }
    }
    assert!(plus0 > 800 && plus0 < 1200, "qubit 0 plus outcomes: {}", plus0);
    assert!(plus1 > 800 && plus1 < 1200, "qubit 1 plus outcomes: {}", plus1);
}

#[test]
fn t_star_literal_leaves_spokes_at_zero() {
    for _ in 0..100 {
        let mut sim = GraphSim::new(3);
        sim.h(0);
        sim.cz(0, 1);
        sim.cz(0, 2);
        let _ = sim.measure_z(0);
        assert_eq!(sim.measure_z(1), MeasurementResult::PlusOne);
        assert_eq!(sim.measure_z(2), MeasurementResult::PlusOne);
    }
}

#[test]
fn t_ghz_measurements_agree() {
    let mut seen_plus = false;
    let mut seen_minus = false;
    for _ in 0..300 {
        let mut sim = GraphSim::new(3);
        sim.h(0);
        sim.cx(0, 1);
        sim.cx(0, 2);
        let r = sim.measure_z(0);
        assert_eq!(sim.measure_z(1), r);
        assert_eq!(sim.measure_z(2), r);
        match r {
            MeasurementResult::PlusOne => seen_plus = true,
            MeasurementResult::MinusOne => seen_minus = true,
        }
    }
    assert!(seen_plus && seen_minus);
}

#[test]
fn t_line_cluster_entangled_groups() {
    let mut sim = GraphSim::new(4);
    for q in 0..4 {
        sim.h(q);
    }
    sim.cz(0, 1);
    sim.cz(1, 2);
    sim.cz(2, 3);
    assert_eq!(group_sorted(&sim, 0), vec![0, 1, 2, 3]);
    check_invariants(&sim);
    let _ = sim.measure_z(1);
    assert_eq!(group_sorted(&sim, 0), vec![0]);
    assert_eq!(group_sorted(&sim, 2), vec![2, 3]);
    check_invariants(&sim);
}

#[test]
fn t_peek_leaves_state_unchanged() {
    let mut sim = GraphSim::new(2);
    sim.h(0);
    sim.h(1);
    sim.cz(0, 1);
    sim.s(0);
    sim.s(1);
    let before = snapshot(&sim);
    for _ in 0..20 {
        let outcomes = sim.peek_measure_set(&vec![0, 1]);
        assert_eq!(outcomes.len(), 2);
        assert_eq!(outcomes[0].0, 0);
        assert_eq!(outcomes[1].0, 1);
        assert_eq!(snapshot(&sim), before);
    }
}

#[test]
fn t_peek_isolated_is_deterministic() {
    let sim = GraphSim::new(2);
    for _ in 0..20 {
        let outcomes = sim.peek_measure_set(&vec![0, 1]);
        for (q, outcome) in outcomes.iter().enumerate() {
            assert_eq!(outcome.0, q);
            assert_eq!(outcome.1.axis, Axis::Z);
            assert_eq!(outcome.1.result, MeasurementResult::PlusOne);
        }
    }
}

#[test]
fn t_find_deterministic_matches_isolation() {
    let mut sim = GraphSim::new(2);
    assert_eq!(sim.find_deterministic(0), Some(Axis::Z));
    sim.h(0);
    sim.h(1);
    sim.cz(0, 1);
    assert_eq!(sim.find_deterministic(0), None);
    assert_eq!(sim.find_deterministic(1), None);
}

#[test]
fn t_measure_y_returns_eigenvalue() {
    let mut sim = GraphSim::new(2);
    sim.h(0);
    sim.h(1);
    sim.cz(0, 1);
    let r = sim.measure_y(0);
    assert!(matches!(
        r,
        MeasurementResult::PlusOne | MeasurementResult::MinusOne
    ));
    check_invariants(&sim);
}

#[test]
fn t_derived_gates_preserve_invariants() {
    let mut sim = GraphSim::new(3);
    for q in 0..3 {
        sim.h(q);
    }
    sim.cx(0, 1);
    check_invariants(&sim);
    sim.cy(1, 2);
    check_invariants(&sim);
    sim.xcx(0, 2);
    check_invariants(&sim);
    sim.ycx(1, 0);
    check_invariants(&sim);
    sim.xcz(2, 1);
    check_invariants(&sim);
    sim.ycz(0, 1);
    check_invariants(&sim);
    sim.xcy(1, 2);
    check_invariants(&sim);
    sim.ycy(2, 0);
    check_invariants(&sim);
    assert_eq!(sim.qubit_count(), 3);
}

#[test]
fn t_invariants_after_gate_storm() {
    let mut sim = GraphSim::new(4);
    let pairs = [(0, 1), (1, 2), (2, 3), (3, 0), (0, 2), (1, 3)];
    for (step, &(a, b)) in pairs.iter().enumerate() {
        sim.h(a);
        sim.s(b);
        sim.cz(a, b);
        sim.sdag(a);
        sim.y(b);
        check_invariants(&sim);
        if step % 2 == 0 {
            let _ = sim.measure_x(a);
        } else {
            let _ = sim.measure_y(b);
        }
        check_invariants(&sim);
    }
    let _ = sim.measure_z(0);
    check_invariants(&sim);
}

#[test]
fn t_duplicate_is_independent() {
    let mut sim = GraphSim::new(2);
    sim.h(0);
    sim.h(1);
    sim.cz(0, 1);
    let copy = sim.duplicate();
    assert_eq!(snapshot(&sim), snapshot(&copy));
    let before = snapshot(&copy);
    let _ = sim.measure_z(0);
    assert_eq!(snapshot(&copy), before);
}
