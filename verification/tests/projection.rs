//! The map-projection reference vector.
//!
//! The library treats projected coordinates as opaque encoded scalars; the
//! shell around it computes them with the `utm` crate. This pins the
//! projection and grid-convergence contract that shell relies on, at the
//! reference input, together with the zone newtype the library carries.

use georef::imu_gnss::UtmZone;

#[test]
fn projection_reference_vector() {
    let zone = UtmZone(6);
    let lat = 60.9679875497_f64.to_radians();
    let lon = (-149.119325194_f64).to_radians();
    let (northing, easting, convergence) = utm::radians_to_utm_wgs84(lat, lon, zone.0);
    assert!((385273.02 - easting).abs() < 1e-2);
    assert!((6761077.20 - northing).abs() < 1e-2);
    let heading = 132.88734_f64.to_radians();
    let corrected = heading + convergence;
    assert!((2.351667 - corrected).abs() < 1e-6);
}
