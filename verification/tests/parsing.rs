use version_compare::VersionCompare;
use version_compare::comp_op::CompOp;
use version_compare::version::Version;
use version_compare::version_part::Part;

fn text_of(p: &Part) -> String {
    match p {
        Part::Text(t) => t.iter().collect(),
        Part::Numeric(_) => panic!("expected a text part"),
    }
}

#[test]
fn parses_numeric_and_text_parts() {
    let v = Version::from("1.2.3-alpha").unwrap();
    assert_eq!(v.parts.len(), 3);
    assert!(matches!(v.parts[0], Part::Numeric(1)));
    assert!(matches!(v.parts[1], Part::Numeric(2)));
    assert_eq!(text_of(&v.parts[2]), "3-alpha");
}

#[test]
fn keeps_source_string() {
    let v = Version::from("v2.1").unwrap();
    assert_eq!(v.source, "v2.1");
    assert_eq!(text_of(&v.parts[0]), "v2");
    assert!(matches!(v.parts[1], Part::Numeric(1)));
}

#[test]
fn rejects_empty_and_malformed() {
    assert!(Version::from("").is_none());
    assert!(Version::from(".").is_none());
    assert!(Version::from("1..2").is_none());
    assert!(Version::from(".1").is_none());
    assert!(Version::from("1.").is_none());
    assert!(Version::from("1.0 ").is_none());
    assert!(Version::from("1.0/2").is_none());
    assert!(Version::from("1.0\u{e9}").is_none());
}

#[test]
fn numeric_bounds() {
    // The largest value the numeric range holds parses as a number.
    let v = Version::from("18446744073709551615").unwrap();
    assert!(matches!(v.parts[0], Part::Numeric(18446744073709551615)));

    // One past it is a parse failure, not a silent wrap.
    assert!(Version::from("18446744073709551616").is_none());

    // The same digits with a letter appended form a valid text part.
    let t = Version::from("18446744073709551616a").unwrap();
    assert_eq!(text_of(&t.parts[0]), "18446744073709551616a");
}

#[test]
fn leading_zeros_compare_by_value() {
    assert_eq!(VersionCompare::compare("1.01", "1.1"), Ok(CompOp::Eq));
    assert_eq!(VersionCompare::compare("1.010", "1.10"), Ok(CompOp::Eq));
}

#[test]
fn hyphen_stays_inside_segment() {
    // A hyphen does not split a segment, so "0-alpha" is one text part,
    // which exceeds the absent part of the shorter version.
    assert_eq!(VersionCompare::compare("1.0-alpha", "1"), Ok(CompOp::Gt));
    let v = Version::from("1.0-alpha").unwrap();
    assert_eq!(v.parts.len(), 2);
    assert_eq!(text_of(&v.parts[1]), "0-alpha");
}

#[test]
fn version_methods_compare() {
    let a = Version::from("1.2").unwrap();
    let b = Version::from("1.10").unwrap();
    assert_eq!(a.compare(&b), CompOp::Lt);
    assert_eq!(b.compare(&a), CompOp::Gt);
    assert!(a.compare_to(&b, &CompOp::Lt));
    assert!(a.compare_to(&b, &CompOp::Le));
    assert!(a.compare_to(&b, &CompOp::Ne));
    assert!(!a.compare_to(&b, &CompOp::Ge));
}

#[test]
fn text_comparison_is_by_character_code() {
    assert_eq!(VersionCompare::compare("1.alpha", "1.beta"), Ok(CompOp::Lt));
    assert_eq!(VersionCompare::compare("1.Z", "1.a"), Ok(CompOp::Lt));
    assert_eq!(VersionCompare::compare("1.ab", "1.abc"), Ok(CompOp::Lt));
    assert_eq!(VersionCompare::compare("1.alpha", "1.alpha"), Ok(CompOp::Eq));
}
