//! Georeference LiDAR points.
//!
//! [`Georeferencer`] validates the whole configuration eagerly — SOCS axis
//! map and rotation order — before any point is touched, and then drives
//! the per-point bookkeeping of a run: the interpolation cursor, the point
//! counter and the output limit. The numeric work on the resolved samples
//! (rotation matrices, projection, blending) happens outside the library on
//! the plain values these functions hand back.

use vstd::prelude::*;

use crate::error::Error;
use crate::imu_gnss::ImuGnss;
use crate::imu_gnss::ImuGnssPoint;
use crate::imu_gnss::Interpolation;
use crate::imu_gnss::UtmZone;
use crate::imu_gnss::lemma_search_in_range;
use crate::imu_gnss::lemma_search_ok_bracket;
use crate::imu_gnss::monotone_times;
use crate::imu_gnss::spec_interpolate;
use crate::imu_gnss::spec_search;
use crate::imu_gnss::times_of;
use crate::rotation::RotationOrder;
use crate::rotation::token_rotation;
use crate::rotation::token_valid;
use crate::text::chars_of;

verus! {

/// The chunk size used when the configuration names none.
pub const DEFAULT_CHUNK_SIZE: usize = 1000;

/// Roll, pitch, and yaw, as encoded scalars.
#[derive(Clone, Copy, Debug, PartialEq, Eq, Structural)]
pub struct Rpy {
    /// Encoded roll angle.
    pub roll: u64,
    /// Encoded pitch angle.
    pub pitch: u64,
    /// Encoded yaw angle.
    pub yaw: u64,
}

/// A mapping between the scanner's own coordinate frame and the IMU's
/// that's easy to decode: one axis label per sensor channel, each one of
/// `x`, `-x`, `y`, `-y`, `z` or `-z`.
#[derive(Debug)]
pub struct SocsStringMap {
    /// The label for the sensor's first channel.
    pub x: String,
    /// The label for the sensor's second channel.
    pub y: String,
    /// The label for the sensor's third channel.
    pub z: String,
}

/// A device axis name.
#[derive(Clone, Copy, Debug, PartialEq, Eq, Structural)]
pub enum SocsAxis {
    /// The device's x axis.
    X,
    /// The device's y axis.
    Y,
    /// The device's z axis.
    Z,
}

/// A device axis together with a sign.
#[derive(Clone, Copy, Debug, PartialEq, Eq, Structural)]
pub struct SignedAxis {
    /// Which input component this entry reads.
    pub axis: SocsAxis,
    /// Whether the component is negated.
    pub negative: bool,
}

/// What a SOCS axis label means, if anything.
pub open spec fn spec_socs_axis_of(t: Seq<char>) -> Option<SignedAxis> {
    if t.len() == 1 && t[0] == 'x' {
        Some(SignedAxis { axis: SocsAxis::X, negative: false })
    } else if t.len() == 1 && t[0] == 'y' {
        Some(SignedAxis { axis: SocsAxis::Y, negative: false })
    } else if t.len() == 1 && t[0] == 'z' {
        Some(SignedAxis { axis: SocsAxis::Z, negative: false })
    } else if t.len() == 2 && t[0] == '-' && t[1] == 'x' {
        Some(SignedAxis { axis: SocsAxis::X, negative: true })
    } else if t.len() == 2 && t[0] == '-' && t[1] == 'y' {
        Some(SignedAxis { axis: SocsAxis::Y, negative: true })
    } else if t.len() == 2 && t[0] == '-' && t[1] == 'z' {
        Some(SignedAxis { axis: SocsAxis::Z, negative: true })
    } else {
        None
    }
}

/// Parses one SOCS axis label.
fn socs_axis_from_str(s: &str) -> (res: Option<SignedAxis>)
    ensures
        res == spec_socs_axis_of(s@),
{
    let v = chars_of(s);
    if v.len() == 1 {
        let c = v[0];
        if c == 'x' {
            Some(SignedAxis { axis: SocsAxis::X, negative: false })
        } else if c == 'y' {
            Some(SignedAxis { axis: SocsAxis::Y, negative: false })
        } else if c == 'z' {
            Some(SignedAxis { axis: SocsAxis::Z, negative: false })
        } else {
            None
        }
    } else if v.len() == 2 {
        let c0 = v[0];
        let c1 = v[1];
        if c0 == '-' && c1 == 'x' {
            Some(SignedAxis { axis: SocsAxis::X, negative: true })
        } else if c0 == '-' && c1 == 'y' {
            Some(SignedAxis { axis: SocsAxis::Y, negative: true })
        } else if c0 == '-' && c1 == 'z' {
            Some(SignedAxis { axis: SocsAxis::Z, negative: true })
        } else {
            None
        }
    } else {
        None
    }
}

/// The value a signed-axis entry reads out of an x, y, z triple.
pub open spec fn spec_remapped_component(a: SignedAxis, x: i64, y: i64, z: i64) -> int {
    let v: int = match a.axis {
        SocsAxis::X => x as int,
        SocsAxis::Y => y as int,
        SocsAxis::Z => z as int,
    };
    if a.negative {
        -v
    } else {
        v
    }
}

/// The validated SOCS map: a signed permutation of the point components.
/// Output component `j` reads the input component entry `j` names, with its
/// sign.
#[derive(Clone, Copy, Debug, PartialEq, Eq, Structural)]
pub struct SocsMap {
    /// What the output's first component reads.
    pub x: SignedAxis,
    /// What the output's second component reads.
    pub y: SignedAxis,
    /// What the output's third component reads.
    pub z: SignedAxis,
}

impl SocsMap {
    /// Validates a SOCS axis map. Each of the three labels must be one of
    /// `x`, `-x`, `y`, `-y`, `z`, `-z`; the first label outside that set
    /// fails the configuration.
    pub fn new(map: SocsStringMap) -> (res: Result<SocsMap, Error>)
        ensures
            (spec_socs_axis_of(map.x@) is Some && spec_socs_axis_of(map.y@) is Some
                && spec_socs_axis_of(map.z@) is Some) <==> res is Ok,
            res matches Ok(m) ==> m == (SocsMap {
                x: spec_socs_axis_of(map.x@)->0,
                y: spec_socs_axis_of(map.y@)->0,
                z: spec_socs_axis_of(map.z@)->0,
            }),
            spec_socs_axis_of(map.x@) is None ==> (res matches Err(e) && e matches Error::SocsMap(
                p,
            ) && p@ == map.x@),
            spec_socs_axis_of(map.x@) is Some && spec_socs_axis_of(map.y@) is None ==> (
            res matches Err(e) && e matches Error::SocsMap(p) && p@ == map.y@),
            spec_socs_axis_of(map.x@) is Some && spec_socs_axis_of(map.y@) is Some
                && spec_socs_axis_of(map.z@) is None ==> (res matches Err(e)
                && e matches Error::SocsMap(p) && p@ == map.z@),
    {
        let x = match socs_axis_from_str(map.x.as_str()) {
            Some(a) => a,
            None => {
                return Err(Error::SocsMap(map.x));
            },
        };
        let y = match socs_axis_from_str(map.y.as_str()) {
            Some(a) => a,
            None => {
                return Err(Error::SocsMap(map.y));
            },
        };
        let z = match socs_axis_from_str(map.z.as_str()) {
            Some(a) => a,
            None => {
                return Err(Error::SocsMap(map.z));
            },
        };
        Ok(SocsMap { x, y, z })
    }

    /// Applies the axis remap to a plain integer triple, the way the
    /// pipeline applies it to a point's components.
    pub fn remap(&self, x: i64, y: i64, z: i64) -> (r: (i64, i64, i64))
        requires
            x > i64::MIN,
            y > i64::MIN,
            z > i64::MIN,
        ensures
            r.0 as int == spec_remapped_component(self.x, x, y, z),
            r.1 as int == spec_remapped_component(self.y, x, y, z),
            r.2 as int == spec_remapped_component(self.z, x, y, z),
    {
        (self.component(self.x, x, y, z), self.component(self.y, x, y, z), self.component(
            self.z,
            x,
            y,
            z,
        ))
    }

    /// Reads one signed component out of a triple.
    fn component(&self, a: SignedAxis, x: i64, y: i64, z: i64) -> (r: i64)
        requires
            x > i64::MIN,
            y > i64::MIN,
            z > i64::MIN,
        ensures
            r as int == spec_remapped_component(a, x, y, z),
    {
        let v = match a.axis {
            SocsAxis::X => x,
            SocsAxis::Y => y,
            SocsAxis::Z => z,
        };
        if a.negative {
            -v
        } else {
            v
        }
    }
}

/// A configuration object of plain values. Angle and length fields hold
/// encoded scalars; the time offset must use the same order-preserving
/// encoding as the trajectory times only after the caller has applied it to
/// the raw timestamps, so it is carried opaquely here.
#[derive(Debug)]
pub struct GeorefConfig {
    /// The boresight angles: the rotational offset between the scanner and
    /// the GNSS/IMU.
    pub boresight: Rpy,
    /// The size of each processing chunk.
    pub chunk_size: Option<usize>,
    /// The lever arm: the x, y, and z displacements between the GNSS/IMU
    /// and the scanner, encoded.
    pub lever_arm: [u64; 3],
    /// A mapping between the scanner's own coordinate frame and that of the
    /// IMU's.
    pub socs_map: SocsStringMap,
    /// The rotation order for our IMU.
    pub rotation_order: [String; 3],
    /// An encoded time offset to apply to each laser point, if any.
    pub time_offset: Option<u64>,
    /// The UTM zone of the output points.
    pub utm_zone: u8,
    /// Limit the number of points written out.
    pub limit: Option<u64>,
}

impl Default for GeorefConfig {
    /// An empty configuration: zero-encoded boresight and lever arm, no
    /// chunk size, time offset or limit, zone zero, and blank map and
    /// order tokens (blank tokens do not validate).
    fn default() -> (c: GeorefConfig)
        ensures
            c.boresight == (Rpy { roll: 0u64, pitch: 0u64, yaw: 0u64 }),
            c.chunk_size is None,
            c.lever_arm@ == seq![0u64, 0u64, 0u64],
            c.socs_map.x@ == Seq::<char>::empty(),
            c.socs_map.y@ == Seq::<char>::empty(),
            c.socs_map.z@ == Seq::<char>::empty(),
            c.rotation_order@.len() == 3,
            c.rotation_order@[0]@ == Seq::<char>::empty(),
            c.rotation_order@[1]@ == Seq::<char>::empty(),
            c.rotation_order@[2]@ == Seq::<char>::empty(),
            c.time_offset is None,
            c.utm_zone == 0u8,
            c.limit is None,
    {
        let c = GeorefConfig {
            boresight: Rpy { roll: 0, pitch: 0, yaw: 0 },
            chunk_size: None,
            lever_arm: [0, 0, 0],
            socs_map: SocsStringMap { x: String::new(), y: String::new(), z: String::new() },
            rotation_order: [String::new(), String::new(), String::new()],
            time_offset: None,
            utm_zone: 0,
            limit: None,
        };
        proof {
            assert(c.lever_arm@ =~= seq![0u64, 0u64, 0u64]);
        }
        c
    }
}

/// The effective chunk size of a configuration.
pub open spec fn spec_chunk_size(chunk_size: Option<usize>) -> usize {
    match chunk_size {
        Some(n) => n,
        None => DEFAULT_CHUNK_SIZE,
    }
}

/// Whether a configured limit is reached at the given point count.
pub open spec fn limit_reached(limit: Option<u64>, count: int) -> bool {
    limit matches Some(l) && count >= l
}

/// The meaning of processing one chunk of query times: resolve each query
/// in order, threading the cursor and counting each resolved point, and
/// stop early as soon as the limit is reached. On success: the resolved
/// blends in order, the final cursor, the final count, and whether the
/// limit ended the run. Any failure aborts the whole chunk.
pub open spec fn spec_process_chunk(
    points: Seq<ImuGnssPoint>,
    limit: Option<u64>,
    queries: Seq<Option<u64>>,
    hint: int,
    count: int,
) -> Result<(Seq<Interpolation>, int, int, bool), Error>
    decreases queries.len(),
{
    if queries.len() == 0 {
        Ok((Seq::empty(), hint, count, false))
    } else {
        match queries[0] {
            None => Err(Error::MissingGpsTime),
            Some(t) => match spec_interpolate(points, t, hint) {
                Err(e) => Err(e),
                Ok(r) => if limit_reached(limit, count + 1) {
                    Ok((seq![r.0], r.1, count + 1, true))
                } else {
                    match spec_process_chunk(points, limit, queries.drop_first(), r.1, count + 1) {
                        Err(e) => Err(e),
                        Ok(rest) => Ok((seq![r.0] + rest.0, rest.1, rest.2, rest.3)),
                    }
                },
            },
        }
    }
}

/// Limit enforcement: on a time-ordered trajectory, processing a list of
/// present, in-range query times from a valid cursor succeeds, emits
/// exactly as many points as the queries or the remaining room under the
/// limit allow — whichever is smaller — and reports a stop exactly when
/// the limit cut the list short.
pub proof fn lemma_limit_enforcement(
    points: Seq<ImuGnssPoint>,
    limit: Option<u64>,
    queries: Seq<Option<u64>>,
    hint: int,
    count: int,
)
    requires
        monotone_times(times_of(points)),
        points.len() >= 2,
        0 <= hint,
        hint + 1 < points.len(),
        forall|i: int|
            0 <= i < queries.len() ==> ((#[trigger] queries[i]) matches Some(t) && times_of(
                points,
            )[0] <= t <= times_of(points)[points.len() - 1]),
        0 <= count,
        !limit_reached(limit, count),
    ensures
        spec_process_chunk(points, limit, queries, hint, count) matches Ok(r) && {
            let room = match limit {
                Some(l) => l - count,
                None => queries.len() as int,
            };
            let processed = if queries.len() <= room {
                queries.len() as int
            } else {
                room
            };
            &&& r.0.len() == processed
            &&& r.2 == count + processed
            &&& r.3 == (limit matches Some(l) && queries.len() >= l - count)
        },
    decreases queries.len(),
{
    let ts = times_of(points);
    if queries.len() > 0 {
        let t = queries[0]->0;
        assert(queries[0] matches Some(q) && ts[0] <= q <= ts[points.len() - 1]);
        lemma_search_in_range(ts, t, hint);
        let hh = spec_search(ts, t, hint)->Ok_0;
        lemma_search_ok_bracket(ts, t, hint, hh);
        if !limit_reached(limit, count + 1) {
            let rest = queries.drop_first();
            assert forall|j: int|
                0 <= j < rest.len() implies (#[trigger] rest[j]) matches Some(q2) && ts[0] <= q2
                <= ts[points.len() - 1] by {
                assert(rest[j] == queries[j + 1]);
                assert(queries[j + 1] matches Some(q2) && ts[0] <= q2 <= ts[points.len() - 1]);
            }
            lemma_limit_enforcement(points, limit, rest, hh, count + 1);
        }
    }
}

/// The per-run cursor and counter, owned by exactly one pipeline run.
#[derive(Clone, Copy, Debug, PartialEq, Eq, Structural)]
pub struct RunState {
    /// The interpolation cursor: where the next bracket search starts.
    pub hint: usize,
    /// How many points this run has written out.
    pub npoints: u64,
}

/// A configurable structure for georeferencing points.
#[derive(Debug)]
pub struct Georeferencer {
    /// The boresight angles, to be composed by the caller with the rotation
    /// order into the boresight matrix.
    pub boresight: Rpy,
    /// How many points to pull from the source per chunk.
    pub chunk_size: usize,
    /// The encoded lever arm.
    pub lever_arm: [u64; 3],
    /// The output point limit, if any.
    pub limit: Option<u64>,
    /// The parsed rotation order.
    pub rotation_order: RotationOrder,
    /// The validated SOCS map.
    pub socs_map: SocsMap,
    /// The encoded time offset, if any.
    pub time_offset: Option<u64>,
    /// The UTM zone of the output points.
    pub utm_zone: UtmZone,
}

impl Georeferencer {
    /// Creates a new georeferencer, validating the whole configuration
    /// before any point is processed: first the three rotation-order
    /// tokens, then the three SOCS axis labels.
    pub fn new(config: GeorefConfig) -> (res: Result<Georeferencer, Error>)
        ensures
            res is Ok <==> (token_valid(config.rotation_order@[0]@) && token_valid(
                config.rotation_order@[1]@,
            ) && token_valid(config.rotation_order@[2]@) && spec_socs_axis_of(
                config.socs_map.x@,
            ) is Some && spec_socs_axis_of(config.socs_map.y@) is Some && spec_socs_axis_of(
                config.socs_map.z@,
            ) is Some),
            res matches Ok(g) ==> {
                &&& g.boresight == config.boresight
                &&& g.chunk_size == spec_chunk_size(config.chunk_size)
                &&& g.lever_arm == config.lever_arm
                &&& g.limit == config.limit
                &&& g.rotation_order == (RotationOrder {
                    first: token_rotation(config.rotation_order@[0]@),
                    second: token_rotation(config.rotation_order@[1]@),
                    third: token_rotation(config.rotation_order@[2]@),
                })
                &&& g.socs_map == (SocsMap {
                    x: spec_socs_axis_of(config.socs_map.x@)->0,
                    y: spec_socs_axis_of(config.socs_map.y@)->0,
                    z: spec_socs_axis_of(config.socs_map.z@)->0,
                })
                &&& g.time_offset == config.time_offset
                &&& g.utm_zone == UtmZone(config.utm_zone)
            },
            !token_valid(config.rotation_order@[0]@) ==> (res matches Err(e)
                && e matches Error::ParseRotate(p) && p@ == config.rotation_order@[0]@),
            token_valid(config.rotation_order@[0]@) && !token_valid(config.rotation_order@[1]@)
                ==> (res matches Err(e) && e matches Error::ParseRotate(p) && p@
                == config.rotation_order@[1]@),
            token_valid(config.rotation_order@[0]@) && token_valid(config.rotation_order@[1]@)
                && !token_valid(config.rotation_order@[2]@) ==> (res matches Err(e)
                && e matches Error::ParseRotate(p) && p@ == config.rotation_order@[2]@),
            token_valid(config.rotation_order@[0]@) && token_valid(config.rotation_order@[1]@)
                && token_valid(config.rotation_order@[2]@) && spec_socs_axis_of(
                config.socs_map.x@,
            ) is None ==> (res matches Err(e) && e matches Error::SocsMap(p) && p@
                == config.socs_map.x@),
            token_valid(config.rotation_order@[0]@) && token_valid(config.rotation_order@[1]@)
                && token_valid(config.rotation_order@[2]@) && spec_socs_axis_of(
                config.socs_map.x@,
            ) is Some && spec_socs_axis_of(config.socs_map.y@) is None ==> (res matches Err(e)
                && e matches Error::SocsMap(p) && p@ == config.socs_map.y@),
            token_valid(config.rotation_order@[0]@) && token_valid(config.rotation_order@[1]@)
                && token_valid(config.rotation_order@[2]@) && spec_socs_axis_of(
                config.socs_map.x@,
            ) is Some && spec_socs_axis_of(config.socs_map.y@) is Some && spec_socs_axis_of(
                config.socs_map.z@,
            ) is None ==> (res matches Err(e) && e matches Error::SocsMap(p) && p@
                == config.socs_map.z@),
    {
        let rotation_order = match RotationOrder::new(
            config.rotation_order[0].as_str(),
            config.rotation_order[1].as_str(),
            config.rotation_order[2].as_str(),
        ) {
            Ok(o) => o,
            Err(e) => {
                return Err(e);
            },
        };
        let socs_map = match SocsMap::new(config.socs_map) {
            Ok(m) => m,
            Err(e) => {
                return Err(e);
            },
        };
        let chunk_size = match config.chunk_size {
            Some(n) => n,
            None => DEFAULT_CHUNK_SIZE,
        };
        Ok(
            Georeferencer {
                boresight: config.boresight,
                chunk_size,
                lever_arm: config.lever_arm,
                limit: config.limit,
                rotation_order,
                socs_map,
                time_offset: config.time_offset,
                utm_zone: UtmZone(config.utm_zone),
            },
        )
    }

    /// Starts a pipeline run: the cursor at the first bracket, nothing
    /// written yet.
    pub fn start_run(&self) -> (s: RunState)
        ensures
            s == (RunState { hint: 0, npoints: 0u64 }),
    {
        RunState { hint: 0, npoints: 0 }
    }

    /// Resolves the navigation bracket for one raw point, given its query
    /// time (the caller adds the configured time offset to the point's
    /// timestamp before encoding). A missing timestamp is fatal; a
    /// successful lookup advances the cursor to the bracket it found.
    pub fn process_point(&self, trajectory: &ImuGnss, state: &mut RunState, time: Option<
        u64,
    >) -> (res: Result<Interpolation, Error>)
        ensures
            time is None ==> res == Err::<Interpolation, Error>(Error::MissingGpsTime)
                && *final(state) == *old(state),
            time matches Some(t) ==> {
                &&& (spec_interpolate(trajectory@, t, old(state).hint as int) matches Ok(r) ==> res
                    == Ok::<Interpolation, Error>(r.0) && final(state).hint as int == r.1
                    && final(state).npoints == old(state).npoints)
                &&& (spec_interpolate(trajectory@, t, old(state).hint as int) matches Err(e) ==> res
                    == Err::<Interpolation, Error>(e) && *final(state) == *old(state))
            },
    {
        let t = match time {
            Some(t) => t,
            None => {
                return Err(Error::MissingGpsTime);
            },
        };
        match trajectory.interpolate_trajectory(t, state.hint) {
            Ok((blend, hint)) => {
                state.hint = hint;
                Ok(blend)
            },
            Err(e) => Err(e),
        }
    }

    /// Processes one chunk of query times: the inner loop of a run. Each
    /// query resolves in order, threading the cursor and counting each
    /// resolved point; the chunk ends early, unresolved queries untouched,
    /// as soon as the limit is reached. On any failure the whole chunk is
    /// abandoned and the run state stays as it was. On success the caller
    /// blends, transforms and writes the returned brackets, one per
    /// resolved query, and ends the run if the flag says the limit came.
    pub fn process_chunk(
        &self,
        trajectory: &ImuGnss,
        state: &mut RunState,
        queries: &Vec<Option<u64>>,
    ) -> (res: Result<(Vec<Interpolation>, bool), Error>)
        requires
            old(state).npoints as int + queries@.len() <= u64::MAX as int,
        ensures
            res matches Ok(done) ==> (spec_process_chunk(
                trajectory@,
                self.limit,
                queries@,
                old(state).hint as int,
                old(state).npoints as int,
            ) matches Ok(r) && r.0 == done.0@ && r.1 == final(state).hint as int
                && r.2 == final(state).npoints as int && r.3 == done.1),
            res matches Err(e) ==> spec_process_chunk(
                trajectory@,
                self.limit,
                queries@,
                old(state).hint as int,
                old(state).npoints as int,
            ) == Err::<(Seq<Interpolation>, int, int, bool), Error>(e)
                && *final(state) == *old(state),
    {
        let ghost points = trajectory@;
        let ghost q0 = queries@;
        let ghost h0 = state.hint as int;
        let ghost c0 = state.npoints as int;
        let mut blends: Vec<Interpolation> = Vec::new();
        let mut h = state.hint;
        let mut c = state.npoints;
        let mut i: usize = 0;
        proof {
            assert(q0.skip(0) =~= q0);
        }
        while i < queries.len()
            invariant
                points == trajectory@,
                q0 == queries@,
                h0 == old(state).hint as int,
                c0 == old(state).npoints as int,
                *state == *old(state),
                i <= q0.len(),
                blends@.len() == i,
                c as int == c0 + i,
                c0 + q0.len() <= u64::MAX as int,
                ({
                    let full = spec_process_chunk(points, self.limit, q0, h0, c0);
                    let rest = spec_process_chunk(
                        points,
                        self.limit,
                        q0.skip(i as int),
                        h as int,
                        c as int,
                    );
                    match rest {
                        Ok(rr) => full matches Ok(r) && r.0 =~= blends@ + rr.0 && r.1 == rr.1
                            && r.2 == rr.2 && r.3 == rr.3,
                        Err(e) => full == Err::<(Seq<Interpolation>, int, int, bool), Error>(e),
                    }
                }),
            decreases q0.len() - i,
        {
            proof {
                assert(q0.skip(i as int)[0] == q0[i as int]);
            }
            let t = match queries[i] {
                Some(t) => t,
                None => {
                    return Err(Error::MissingGpsTime);
                },
            };
            match trajectory.interpolate_trajectory(t, h) {
                Err(e) => {
                    return Err(e);
                },
                Ok((b, nh)) => {
                    let ghost iold = i as int;
                    proof {
                        assert(q0.skip(iold).drop_first() =~= q0.skip(iold + 1));
                    }
                    let ghost blends_before = blends@;
                    blends.push(b);
                    h = nh;
                    c = c + 1;
                    i += 1;
                    let stop = match self.limit {
                        Some(l) => c >= l,
                        None => false,
                    };
                    if stop {
                        state.hint = h;
                        state.npoints = c;
                        proof {
                            assert(blends@ =~= blends_before + seq![b]);
                            let full = spec_process_chunk(points, self.limit, q0, h0, c0);
                            assert(full matches Ok(r) && r.0 =~= blends@);
                        }
                        return Ok((blends, true));
                    }
                    proof {
                        assert(blends@ =~= blends_before + seq![b]);
                        match spec_process_chunk(
                            points,
                            self.limit,
                            q0.skip(i as int),
                            h as int,
                            c as int,
                        ) {
                            Ok(rr) => {
                                assert(blends_before + (seq![b] + rr.0) =~= blends@ + rr.0);
                            },
                            Err(_) => {},
                        }
                    }
                },
            }
        }
        proof {
            assert(q0.skip(i as int) =~= Seq::<Option<u64>>::empty());
            assert(blends@ + Seq::<Interpolation>::empty() =~= blends@);
        }
        state.hint = h;
        state.npoints = c;
        Ok((blends, false))
    }

    /// Counts one written point and says whether the run must stop because
    /// the configured limit is reached.
    pub fn note_emitted(&self, state: &mut RunState) -> (stop: bool)
        requires
            old(state).npoints < u64::MAX,
        ensures
            final(state).npoints == old(state).npoints + 1,
            final(state).hint == old(state).hint,
            stop == (self.limit matches Some(l) && old(state).npoints + 1 >= l),
    {
        state.npoints = state.npoints + 1;
        match self.limit {
            Some(l) => state.npoints >= l,
            None => false,
        }
    }
}

} // verus!
