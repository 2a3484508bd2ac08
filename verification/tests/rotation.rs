//! Rotation-token parsing behavior.

use georef::rotation::RotationMatrix;
use georef::rotation::RotationMatrixAngle;
use georef::rotation::RotationMatrixType;
use georef::rotation::RotationOrder;
use georef::Error;

#[test]
fn paces() {
    assert!(RotationMatrix::from_str("r1(roll)").is_ok());
    assert!(RotationMatrix::from_str("r1(-roll)").is_ok());
    assert!(RotationMatrix::from_str("r2(pitch)").is_ok());
    assert!(RotationMatrix::from_str("r3(yaw)").is_ok());
    assert!(RotationMatrix::from_str("r1(roll").is_err());
    assert!(RotationMatrix::from_str("r1[roll)").is_err());
    assert!(RotationMatrix::from_str("r4(roll)").is_err());
    assert!(RotationMatrix::from_str("r1(rollz)").is_err());
    assert!(RotationMatrix::from_str("r1(rol)").is_err());
}

#[test]
fn parses_positive_yaw_about_z() {
    let m = RotationMatrix::from_str("r3(yaw)").unwrap();
    assert!(matches!(m.type_, RotationMatrixType::R3));
    assert!(!m.negative);
    assert!(matches!(m.angle, RotationMatrixAngle::Yaw));
}

#[test]
fn parses_leading_sign_as_negative_roll_about_x() {
    let m = RotationMatrix::from_str("-r1(roll)").unwrap();
    assert!(matches!(m.type_, RotationMatrixType::R1));
    assert!(m.negative);
    assert!(matches!(m.angle, RotationMatrixAngle::Roll));
}

#[test]
fn parses_inner_sign_as_negative() {
    let m = RotationMatrix::from_str("r2(-pitch)").unwrap();
    assert!(matches!(m.type_, RotationMatrixType::R2));
    assert!(m.negative);
    assert!(matches!(m.angle, RotationMatrixAngle::Pitch));
}

#[test]
fn parses_bare_digit_axis() {
    let m = RotationMatrix::from_str("2(pitch)").unwrap();
    assert!(matches!(m.type_, RotationMatrixType::R2));
    assert!(!m.negative);
}

#[test]
fn parse_failure_names_the_token() {
    match RotationMatrix::from_str("r4(roll)") {
        Err(Error::ParseRotate(token)) => assert_eq!(token, "r4(roll)"),
        other => panic!("expected a rotation parse failure, got {:?}", other),
    }
}

#[test]
fn rejects_second_paren_and_missing_close() {
    assert!(RotationMatrix::from_str("r1((roll)").is_err());
    assert!(RotationMatrix::from_str("r1(roll)x").is_err());
    assert!(RotationMatrix::from_str("").is_err());
    assert!(RotationMatrix::from_str("(roll)").is_err());
}

#[test]
fn axis_part_parses_alone() {
    assert!(matches!(
        RotationMatrixType::from_str("r1"),
        Ok(RotationMatrixType::R1)
    ));
    assert!(matches!(
        RotationMatrixType::from_str("R3"),
        Ok(RotationMatrixType::R3)
    ));
    assert!(matches!(
        RotationMatrixType::from_str("2"),
        Ok(RotationMatrixType::R2)
    ));
    assert!(RotationMatrixType::from_str("r4").is_err());
    assert_eq!(RotationMatrixType::from_str("r1").unwrap().axis_index(), 0);
    assert_eq!(RotationMatrixType::from_str("r3").unwrap().axis_index(), 2);
}

#[test]
fn angle_part_parses_alone() {
    assert!(matches!(
        RotationMatrixAngle::from_str("roll"),
        Ok(RotationMatrixAngle::Roll)
    ));
    assert!(matches!(
        RotationMatrixAngle::from_str("pitch"),
        Ok(RotationMatrixAngle::Pitch)
    ));
    assert!(matches!(
        RotationMatrixAngle::from_str("yaw"),
        Ok(RotationMatrixAngle::Yaw)
    ));
    assert!(RotationMatrixAngle::from_str("rol").is_err());
    let angle = RotationMatrixAngle::from_str("pitch").unwrap();
    assert_eq!(angle.select(10, 20, 30), 20);
}

#[test]
fn order_parses_in_configuration_order() {
    let order = RotationOrder::new("r3(yaw)", "r2(pitch)", "r1(roll)").unwrap();
    assert!(matches!(order.first.type_, RotationMatrixType::R3));
    assert!(matches!(order.second.type_, RotationMatrixType::R2));
    assert!(matches!(order.third.type_, RotationMatrixType::R1));
    assert_eq!(order, RotationOrder::default());
}

#[test]
fn order_reports_first_bad_token() {
    match RotationOrder::new("r3(yaw)", "bogus", "r1(roll)") {
        Err(Error::ParseRotate(token)) => assert_eq!(token, "bogus"),
        other => panic!("expected a rotation parse failure, got {:?}", other),
    }
    match RotationOrder::new("nope", "bogus", "r1(roll)") {
        Err(Error::ParseRotate(token)) => assert_eq!(token, "nope"),
        other => panic!("expected a rotation parse failure, got {:?}", other),
    }
}

#[test]
fn error_descriptions_are_stable() {
    let e = RotationMatrix::from_str("r4(roll)").unwrap_err();
    assert_eq!(e.description(), "could not parse rotation");
}
