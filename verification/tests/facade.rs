use version_compare::VersionCompare;
use version_compare::comp_op::CompOp;

fn version_sets() -> Vec<(&'static str, &'static str, CompOp)> {
    vec![
        ("1.2.3", "1.2.3", CompOp::Eq),
        ("1.2.3", "1.2.4", CompOp::Lt),
        ("1", "0.1", CompOp::Gt),
        ("1.0.0", "1", CompOp::Eq),
        ("1", "1.0.0", CompOp::Eq),
        ("1.2.0.0", "1.2", CompOp::Eq),
        ("1.0", "1.0a", CompOp::Lt),
        ("1.0a", "1.0", CompOp::Gt),
        ("1.alpha", "1.1", CompOp::Gt),
        ("1.1", "1.alpha", CompOp::Lt),
        ("1.1", "1.1.1", CompOp::Lt),
        ("1.1.1", "1.1", CompOp::Gt),
        ("v2.1", "v2.1", CompOp::Eq),
        ("1.0.0-alpha", "1.0.0-beta", CompOp::Lt),
        ("1.A", "1.a", CompOp::Lt),
        ("0", "0.0.0", CompOp::Eq),
        ("2", "10", CompOp::Lt),
    ]
}

fn error_sets() -> Vec<(&'static str, &'static str)> {
    vec![
        ("", "1.0"),
        ("1.0", ""),
        ("1..0", "1.0"),
        (".1", "1"),
        ("1.", "1"),
        ("1 0", "1.0"),
        ("1.0", "1,0"),
    ]
}

#[test]
fn compare() {
    for entry in version_sets() {
        assert_eq!(VersionCompare::compare(entry.0, entry.1), Ok(entry.2.clone()));
    }

    for entry in error_sets() {
        assert!(VersionCompare::compare(entry.0, entry.1).is_err());
    }
}

#[test]
fn compare_to() {
    for entry in version_sets() {
        assert!(VersionCompare::compare_to(entry.0, entry.1, &entry.2).unwrap());

        // The inverse operator must reject every set whose outcome is not Eq;
        // an Eq outcome has Ne as its inverse, which rejects it too.
        assert_eq!(
            VersionCompare::compare_to(entry.0, entry.1, &entry.2.invert()).unwrap(),
            false
        );
    }

    for entry in error_sets() {
        assert!(VersionCompare::compare_to(entry.0, entry.1, &CompOp::Eq).is_err());
    }

    assert!(VersionCompare::compare_to("1.2.3", "1.2", &CompOp::Ne).unwrap());
}

#[test]
fn compare_concrete_scenarios() {
    assert_eq!(VersionCompare::compare("1.2.3", "1.2.3"), Ok(CompOp::Eq));
    assert_eq!(VersionCompare::compare("1.2.3", "1.2.4"), Ok(CompOp::Lt));
    assert_eq!(VersionCompare::compare("1", "0.1"), Ok(CompOp::Gt));
    assert!(VersionCompare::compare_to("1.2.3", "1.2.3", &CompOp::Le).unwrap());
    assert!(VersionCompare::compare_to("1", "0.1", &CompOp::Ge).unwrap());
}

#[test]
fn compare_reflexive() {
    for v in ["1", "1.0", "1.2.3", "0.0.1", "v2.1", "1.0.0-alpha", "1.alpha.2"] {
        assert_eq!(VersionCompare::compare(v, v), Ok(CompOp::Eq));
    }
}

#[test]
fn compare_antisymmetric() {
    let flip = |op: CompOp| match op {
        CompOp::Lt => CompOp::Gt,
        CompOp::Gt => CompOp::Lt,
        other => other,
    };
    for entry in version_sets() {
        let forward = VersionCompare::compare(entry.0, entry.1).unwrap();
        let backward = VersionCompare::compare(entry.1, entry.0).unwrap();
        assert_eq!(backward, flip(forward));
    }
}

#[test]
fn compare_transitive() {
    let chains = [
        ("1.0", "1.1", "2"),
        ("1.alpha", "1.beta", "1.gamma"),
        ("0.9", "1", "1.0.1"),
        ("1.2", "1.2.1", "1.2.a"),
    ];
    for (a, b, c) in chains {
        assert_eq!(VersionCompare::compare(a, b), Ok(CompOp::Lt));
        assert_eq!(VersionCompare::compare(b, c), Ok(CompOp::Lt));
        assert_eq!(VersionCompare::compare(a, c), Ok(CompOp::Lt));
    }
}

#[test]
fn trailing_zero_equivalence() {
    assert_eq!(VersionCompare::compare("1.0.0", "1"), Ok(CompOp::Eq));
    assert_eq!(VersionCompare::compare("1.2.0.0", "1.2"), Ok(CompOp::Eq));
    assert_eq!(VersionCompare::compare("1.2.0.1", "1.2"), Ok(CompOp::Gt));
}

#[test]
fn trailing_text_inequality() {
    assert_eq!(VersionCompare::compare("1.0", "1.0a"), Ok(CompOp::Lt));
    assert_eq!(VersionCompare::compare("1.0", "1.0.a"), Ok(CompOp::Lt));
}

#[test]
fn numeric_before_text() {
    // A number is always less than a text token at the same position.
    assert_eq!(VersionCompare::compare("1.1", "1.alpha"), Ok(CompOp::Lt));
    assert_eq!(VersionCompare::compare("1.alpha", "1.1"), Ok(CompOp::Gt));
    // Even a huge number stays below any text token.
    assert_eq!(VersionCompare::compare("1.18446744073709551615", "1.a"), Ok(CompOp::Lt));
}

#[test]
fn length_sensitivity() {
    assert_eq!(VersionCompare::compare("1.1", "1.1.1"), Ok(CompOp::Lt));
}

#[test]
fn predicate_consistency() {
    let ops = [CompOp::Eq, CompOp::Ne, CompOp::Lt, CompOp::Le, CompOp::Ge, CompOp::Gt];
    // Both pairs compare to a non-Eq outcome, where the consistency law holds.
    for (a, b) in [("1.2", "1.3"), ("2.0", "1.9")] {
        for op in ops {
            let direct = VersionCompare::compare_to(a, b, &op).unwrap();
            let inverse = VersionCompare::compare_to(a, b, &op.invert()).unwrap();
            assert_eq!(direct, !inverse);
        }
    }
}

#[test]
fn operators_on_equal_versions() {
    assert!(VersionCompare::compare_to("1.0", "1", &CompOp::Eq).unwrap());
    assert!(VersionCompare::compare_to("1.0", "1", &CompOp::Le).unwrap());
    assert!(VersionCompare::compare_to("1.0", "1", &CompOp::Ge).unwrap());
    assert!(!VersionCompare::compare_to("1.0", "1", &CompOp::Ne).unwrap());
    assert!(!VersionCompare::compare_to("1.0", "1", &CompOp::Lt).unwrap());
    assert!(!VersionCompare::compare_to("1.0", "1", &CompOp::Gt).unwrap());
}

#[test]
fn invert_table() {
    assert_eq!(CompOp::Eq.invert(), CompOp::Ne);
    assert_eq!(CompOp::Ne.invert(), CompOp::Eq);
    assert_eq!(CompOp::Lt.invert(), CompOp::Gt);
    assert_eq!(CompOp::Gt.invert(), CompOp::Lt);
    assert_eq!(CompOp::Le.invert(), CompOp::Ge);
    assert_eq!(CompOp::Ge.invert(), CompOp::Le);
}

#[test]
fn error_propagation() {
    assert!(VersionCompare::compare("", "1.0").is_err());
    assert!(VersionCompare::compare("1..0", "1.0").is_err());
    assert!(VersionCompare::compare("1.0", "").is_err());
    assert!(VersionCompare::compare(".", "1").is_err());
}
