//! SOCS axis-map validation behavior.

use georef::georef::SocsAxis;
use georef::georef::SocsMap;
use georef::georef::SocsStringMap;
use georef::Error;

fn map(x: &str, y: &str, z: &str) -> SocsStringMap {
    SocsStringMap { x: x.to_string(), y: y.to_string(), z: z.to_string() }
}

#[test]
fn identity_map_builds() {
    let m = SocsMap::new(map("x", "y", "z")).unwrap();
    assert!(matches!(m.x.axis, SocsAxis::X));
    assert!(!m.x.negative);
    assert!(matches!(m.y.axis, SocsAxis::Y));
    assert!(!m.y.negative);
    assert!(matches!(m.z.axis, SocsAxis::Z));
    assert!(!m.z.negative);
}

#[test]
fn signed_permutation_builds() {
    let m = SocsMap::new(map("-y", "z", "-x")).unwrap();
    assert!(matches!(m.x.axis, SocsAxis::Y));
    assert!(m.x.negative);
    assert!(matches!(m.y.axis, SocsAxis::Z));
    assert!(!m.y.negative);
    assert!(matches!(m.z.axis, SocsAxis::X));
    assert!(m.z.negative);
}

#[test]
fn remap_reads_signed_components() {
    let m = SocsMap::new(map("-y", "z", "-x")).unwrap();
    assert_eq!(m.remap(1, 2, 3), (-2, 3, -1));
    let identity = SocsMap::new(map("x", "y", "z")).unwrap();
    assert_eq!(identity.remap(7, -8, 9), (7, -8, 9));
}

#[test]
fn bad_token_fails_with_the_token() {
    match SocsMap::new(map("x", "w", "z")) {
        Err(Error::SocsMap(token)) => assert_eq!(token, "w"),
        other => panic!("expected a SOCS map failure, got {:?}", other),
    }
    match SocsMap::new(map("+x", "y", "z")) {
        Err(Error::SocsMap(token)) => assert_eq!(token, "+x"),
        other => panic!("expected a SOCS map failure, got {:?}", other),
    }
    match SocsMap::new(map("x", "y", "zz")) {
        Err(Error::SocsMap(token)) => assert_eq!(token, "zz"),
        other => panic!("expected a SOCS map failure, got {:?}", other),
    }
}

#[test]
fn first_bad_token_wins() {
    match SocsMap::new(map("q", "w", "e")) {
        Err(Error::SocsMap(token)) => assert_eq!(token, "q"),
        other => panic!("expected a SOCS map failure, got {:?}", other),
    }
}

#[test]
fn empty_and_case_variants_fail() {
    assert!(SocsMap::new(map("", "y", "z")).is_err());
    assert!(SocsMap::new(map("X", "y", "z")).is_err());
    assert!(SocsMap::new(map("x", "y", "-Z")).is_err());
    assert!(SocsMap::new(map("x", "y", "z ")).is_err());
}
