//! Georeference point cloud data.
//!
//! This library holds the verified core of a georeferencing pipeline: it
//! parses rotation-order and sensor-axis configuration, resolves navigation
//! samples for query times against a time-ordered trajectory, and drives the
//! per-point bookkeeping (cursor, counter, limit) of a pipeline run.
//!
//! Scalar navigation fields (angles, coordinates, heights) are carried as
//! opaque 64-bit encodings chosen by the caller; query and sample times must
//! use a single order-preserving encoding per trajectory, so that comparisons
//! on the encodings mirror comparisons on the underlying clock values. The
//! caller performs the numeric blending and map projection on the values the
//! library hands back.

pub mod error;
pub mod georef;
pub mod imu_gnss;
pub mod rotation;
pub mod text;

pub use error::Error;
pub use georef::GeorefConfig;
pub use georef::Georeferencer;
pub use imu_gnss::ImuGnss;
pub use imu_gnss::ImuGnssPoint;
pub use rotation::RotationMatrix;
pub use rotation::RotationOrder;
