use bool_tools::BoolTools;

const ALL: [bool; 2] = [false, true];

#[test]
fn implication_truth_table() {
    assert_eq!(true.implication(true), true);
    assert_eq!(true.implication(false), false);
    assert_eq!(false.implication(true), true);
    assert_eq!(false.implication(false), true);
}

#[test]
fn xor_truth_table() {
    assert_eq!(true.xor(true), false);
    assert_eq!(true.xor(false), true);
    assert_eq!(false.xor(true), true);
    assert_eq!(false.xor(false), false);
}

#[test]
fn equivalence_truth_table() {
    assert_eq!(true.equivalence(true), true);
    assert_eq!(true.equivalence(false), false);
    assert_eq!(false.equivalence(true), false);
    assert_eq!(false.equivalence(false), true);
}

#[test]
fn equivalence_is_negated_xor() {
    for a in ALL {
        for b in ALL {
            assert_eq!(a.equivalence(b), !a.xor(b));
        }
    }
}

#[test]
fn xor_self_inverse() {
    for a in ALL {
        assert_eq!(a.xor(a), false);
    }
}

#[test]
fn implication_identity() {
    for a in ALL {
        assert_eq!(true.implication(a), a);
        assert_eq!(a.implication(true), true);
    }
}

#[test]
fn equivalence_reflexivity() {
    for a in ALL {
        assert_eq!(a.equivalence(a), true);
    }
}

#[test]
fn xor_and_equivalence_commute() {
    for a in ALL {
        for b in ALL {
            assert_eq!(a.xor(b), b.xor(a));
            assert_eq!(a.equivalence(b), b.equivalence(a));
        }
    }
}

#[test]
fn implication_is_asymmetric() {
    assert_eq!(true.implication(false), false);
    assert_eq!(false.implication(true), true);
}

#[test]
fn concrete_scenarios() {
    assert_eq!(true.implication(false), false);
    assert_eq!(true.xor(true), false);
    assert_eq!(false.equivalence(false), true);
    assert_eq!(false.xor(true), true);
}
