//! The library's error enum.

use vstd::prelude::*;

verus! {

/// Everything that can go wrong inside the verified core.
///
/// I/O failures and numeric-parse failures belong to the unverified shell
/// around the library, which wraps this enum in its own error type.
#[derive(Debug)]
pub enum Error {
    /// A source point is missing a gps time value.
    MissingGpsTime,
    /// The IMU/GNSS records do not increase monotonically.
    NonmonotonicImuGnssRecords,
    /// The point is outside of the IMU/GNSS records.
    OutsideOfImuGnssRecords,
    /// Unable to parse a rotation from a string; holds the offending token.
    ParseRotate(String),
    /// An error when creating a SOCS map; holds the offending token.
    SocsMap(String),
}

impl Error {
    /// A short, fixed description of the error kind.
    pub fn description(&self) -> (s: &'static str)
        ensures
            self is MissingGpsTime ==> s@ == "missing gps time from point"@,
            self is NonmonotonicImuGnssRecords ==> s@ == "imu/gnss records do not monotonically increase"@,
            self is OutsideOfImuGnssRecords ==> s@ == "lidar point is outside of imu/gnss records"@,
            self is ParseRotate ==> s@ == "could not parse rotation"@,
            self is SocsMap ==> s@ == "could not create SOCS map"@,
    {
        match self {
            Error::MissingGpsTime => "missing gps time from point",
            Error::NonmonotonicImuGnssRecords => "imu/gnss records do not monotonically increase",
            Error::OutsideOfImuGnssRecords => "lidar point is outside of imu/gnss records",
            Error::ParseRotate(_) => "could not parse rotation",
            Error::SocsMap(_) => "could not create SOCS map",
        }
    }
}

} // verus!
