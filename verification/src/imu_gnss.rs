//! Position and attitude information.
//!
//! A trajectory is an ordered sequence of navigation samples. Sample fields
//! are opaque 64-bit encodings of the underlying scalars; the `time` field
//! must use an order-preserving encoding, so that comparing two encoded
//! times compares the underlying clock values. The interpolation engine
//! walks a bracket of two adjacent samples from a caller-supplied hint and
//! reports either an exact sample hit or the bracket to blend between.

use vstd::prelude::*;

use crate::error::Error;

verus! {

/// A location and orientation sample. Every field holds an encoded scalar;
/// `time` is the ordered lookup key.
#[derive(Clone, Copy, Debug, PartialEq, Eq, Structural)]
pub struct ImuGnssPoint {
    /// Encoded sample time; the trajectory's ordering key.
    pub time: u64,
    /// Encoded latitude.
    pub latitude: u64,
    /// Encoded longitude.
    pub longitude: u64,
    /// Encoded height.
    pub height: u64,
    /// Encoded roll angle.
    pub roll: u64,
    /// Encoded pitch angle.
    pub pitch: u64,
    /// Encoded heading angle.
    pub heading: u64,
}

impl ImuGnssPoint {
    /// Creates a new, default point: every field zero-encoded.
    pub fn new() -> (p: ImuGnssPoint)
        ensures
            p == (ImuGnssPoint {
                time: 0u64,
                latitude: 0u64,
                longitude: 0u64,
                height: 0u64,
                roll: 0u64,
                pitch: 0u64,
                heading: 0u64,
            }),
    {
        ImuGnssPoint { time: 0, latitude: 0, longitude: 0, height: 0, roll: 0, pitch: 0, heading: 0 }
    }
}

impl Default for ImuGnssPoint {
    /// The all-zero point.
    fn default() -> (p: ImuGnssPoint)
        ensures
            p == (ImuGnssPoint {
                time: 0u64,
                latitude: 0u64,
                longitude: 0u64,
                height: 0u64,
                roll: 0u64,
                pitch: 0u64,
                heading: 0u64,
            }),
    {
        ImuGnssPoint::new()
    }
}

/// A newtype wrapper around a UTM zone.
#[derive(Clone, Copy, Debug, PartialEq, Eq, Structural)]
pub struct UtmZone(pub u8);

/// What an interpolation query resolved to: an exact sample, or the two
/// bracket samples to blend (the query time lies strictly between them).
#[derive(Clone, Copy, Debug, PartialEq, Eq, Structural)]
pub enum Interpolation {
    /// The query time hit this sample's time exactly (blend factor zero):
    /// the sample is returned unchanged.
    Exact(ImuGnssPoint),
    /// The query time falls strictly between these two adjacent samples.
    Between(ImuGnssPoint, ImuGnssPoint),
}

/// The sequence of encoded sample times of a trajectory.
pub open spec fn times_of(points: Seq<ImuGnssPoint>) -> Seq<u64> {
    points.map_values(|p: ImuGnssPoint| p.time)
}

/// Adjacent sample times never decrease.
pub open spec fn monotone_times(ts: Seq<u64>) -> bool {
    forall|i: int| #![trigger ts[i]] 0 <= i < ts.len() - 1 ==> ts[i] <= ts[i + 1]
}

/// Adjacent sample times strictly increase.
pub open spec fn strictly_increasing_times(ts: Seq<u64>) -> bool {
    forall|i: int| #![trigger ts[i]] 0 <= i < ts.len() - 1 ==> ts[i] < ts[i + 1]
}

/// Bound on the remaining walk length of [`spec_search`] from position `h`.
pub open spec fn search_measure(ts: Seq<u64>, time: u64, h: int) -> int {
    if h < 0 || h + 1 >= ts.len() {
        0
    } else if time < ts[h] {
        h + 1
    } else if time > ts[h + 1] {
        ts.len() - h
    } else {
        0
    }
}

/// The bracket search: from position `h`, walk down while the query time
/// lies before the bracket and up while it lies after, failing outside the
/// record range and on the first non-monotonic pair the walk meets.
pub open spec fn spec_search(ts: Seq<u64>, time: u64, h: int) -> Result<int, Error>
    decreases search_measure(ts, time, h),
{
    if h < 0 || h + 1 >= ts.len() {
        Err(Error::OutsideOfImuGnssRecords)
    } else if ts[h + 1] < ts[h] {
        Err(Error::NonmonotonicImuGnssRecords)
    } else if time < ts[h] {
        if h > 0 {
            spec_search(ts, time, h - 1)
        } else {
            Err(Error::OutsideOfImuGnssRecords)
        }
    } else if time > ts[h + 1] {
        spec_search(ts, time, h + 1)
    } else {
        Ok(h)
    }
}

/// What an accepted bracket `[points[h], points[h + 1]]` resolves to for a
/// query time inside it: an exact time hit returns that sample unchanged
/// (equal bracket times count as a hit on the earlier sample), anything
/// else is a blend between the two.
pub open spec fn spec_blend(points: Seq<ImuGnssPoint>, time: u64, h: int) -> Interpolation {
    let first = points[h];
    let second = points[h + 1];
    if time == first.time || first.time == second.time {
        Interpolation::Exact(first)
    } else if time == second.time {
        Interpolation::Exact(second)
    } else {
        Interpolation::Between(first, second)
    }
}

/// The complete meaning of an interpolation query against a trajectory.
pub open spec fn spec_interpolate(points: Seq<ImuGnssPoint>, time: u64, hint: int) -> Result<
    (Interpolation, int),
    Error,
> {
    match spec_search(times_of(points), time, hint) {
        Ok(h) => Ok((spec_blend(points, time, h), h)),
        Err(e) => Err(e),
    }
}

/// A successful search always returns a valid, time-ordered bracket that
/// contains the query time.
pub proof fn lemma_search_ok_bracket(ts: Seq<u64>, time: u64, h: int, hh: int)
    requires
        spec_search(ts, time, h) == Ok::<int, Error>(hh),
    ensures
        0 <= hh,
        hh + 1 < ts.len(),
        ts[hh] <= time <= ts[hh + 1],
        ts[hh] <= ts[hh + 1],
    decreases search_measure(ts, time, h),
{
    if h < 0 || h + 1 >= ts.len() {
    } else if ts[h + 1] < ts[h] {
    } else if time < ts[h] {
        if h > 0 {
            lemma_search_ok_bracket(ts, time, h - 1, hh);
        }
    } else if time > ts[h + 1] {
        lemma_search_ok_bracket(ts, time, h + 1, hh);
    }
}

/// Monotone times propagate along the sequence.
pub proof fn lemma_monotone_span(ts: Seq<u64>, i: int, j: int)
    requires
        monotone_times(ts),
        0 <= i <= j < ts.len(),
    ensures
        ts[i] <= ts[j],
    decreases j - i,
{
    if i < j {
        lemma_monotone_span(ts, i, j - 1);
    }
}

/// Strictly increasing times propagate along the sequence.
pub proof fn lemma_strict_span(ts: Seq<u64>, i: int, j: int)
    requires
        strictly_increasing_times(ts),
        0 <= i < j < ts.len(),
    ensures
        ts[i] < ts[j],
    decreases j - i,
{
    if i < j - 1 {
        lemma_strict_span(ts, i, j - 1);
    }
}

/// On a time-ordered trajectory, a search from any valid starting position
/// succeeds whenever the query time lies within the record range.
pub proof fn lemma_search_in_range(ts: Seq<u64>, time: u64, h: int)
    requires
        monotone_times(ts),
        ts.len() >= 2,
        0 <= h,
        h + 1 < ts.len(),
        ts[0] <= time,
        time <= ts[ts.len() - 1],
    ensures
        spec_search(ts, time, h) is Ok,
    decreases search_measure(ts, time, h),
{
    if time < ts[h] {
        if h > 0 {
            lemma_search_in_range(ts, time, h - 1);
        } else {
            assert(ts[0] <= time);
        }
    } else if time > ts[h + 1] {
        if h + 2 >= ts.len() {
            assert(time <= ts[ts.len() - 1]);
        } else {
            lemma_search_in_range(ts, time, h + 1);
        }
    }
}

/// On a time-ordered trajectory a search never reports a non-monotonic
/// pair, so every failure is an out-of-range failure.
pub proof fn lemma_search_monotone_error(ts: Seq<u64>, time: u64, h: int)
    requires
        monotone_times(ts),
    ensures
        spec_search(ts, time, h) != Err::<int, Error>(Error::NonmonotonicImuGnssRecords),
    decreases search_measure(ts, time, h),
{
    if h < 0 || h + 1 >= ts.len() {
    } else if time < ts[h] {
        if h > 0 {
            lemma_search_monotone_error(ts, time, h - 1);
        }
    } else if time > ts[h + 1] {
        lemma_search_monotone_error(ts, time, h + 1);
    }
}

/// A search that starts outside the valid hint range, or whose query time
/// lies outside the record range of a time-ordered trajectory, fails with
/// the out-of-range error.
pub proof fn lemma_search_out_of_range(ts: Seq<u64>, time: u64, h: int)
    requires
        monotone_times(ts),
        h < 0 || h + 1 >= ts.len() || time < ts[0] || time > ts[ts.len() - 1],
    ensures
        spec_search(ts, time, h) == Err::<int, Error>(Error::OutsideOfImuGnssRecords),
    decreases search_measure(ts, time, h),
{
    if h < 0 || h + 1 >= ts.len() {
    } else {
        if time < ts[0] {
            lemma_monotone_span(ts, 0, h);
        }
        if time > ts[ts.len() - 1] {
            lemma_monotone_span(ts, h + 1, ts.len() - 1);
        }
        if time < ts[h] {
            if h > 0 {
                lemma_search_out_of_range(ts, time, h - 1);
            }
        } else if time > ts[h + 1] {
            lemma_search_out_of_range(ts, time, h + 1);
        }
    }
}

/// A search that starts on a non-monotonic pair fails at once with the
/// non-monotonicity error, whatever the query time.
pub proof fn lemma_search_nonmonotonic_at(ts: Seq<u64>, time: u64, k: int)
    requires
        0 <= k,
        k + 1 < ts.len(),
        ts[k + 1] < ts[k],
    ensures
        spec_search(ts, time, k) == Err::<int, Error>(Error::NonmonotonicImuGnssRecords),
{
}

/// Whether the bracket search started at `h` walks through position `k`.
pub open spec fn search_reaches(ts: Seq<u64>, time: u64, h: int, k: int) -> bool
    decreases search_measure(ts, time, h),
{
    if h == k {
        0 <= h && h + 1 < ts.len()
    } else if h < 0 || h + 1 >= ts.len() {
        false
    } else if ts[h + 1] < ts[h] {
        false
    } else if time < ts[h] {
        h > 0 && search_reaches(ts, time, h - 1, k)
    } else if time > ts[h + 1] {
        search_reaches(ts, time, h + 1, k)
    } else {
        false
    }
}

/// Non-monotonic detection: any query whose bracket search reaches an
/// index whose pair of sample times decreases fails with the
/// non-monotonicity error.
pub proof fn lemma_nonmonotonic_detection(ts: Seq<u64>, time: u64, h: int, k: int)
    requires
        search_reaches(ts, time, h, k),
        ts[k + 1] < ts[k],
    ensures
        spec_search(ts, time, h) == Err::<int, Error>(Error::NonmonotonicImuGnssRecords),
    decreases search_measure(ts, time, h),
{
    if h == k {
        lemma_search_nonmonotonic_at(ts, time, k);
    } else if time < ts[h] {
        lemma_nonmonotonic_detection(ts, time, h - 1, k);
    } else {
        lemma_nonmonotonic_detection(ts, time, h + 1, k);
    }
}

/// A non-monotonicity failure always names a real defect: some adjacent
/// pair of sample times decreases.
pub proof fn lemma_nonmonotonic_error_has_bad_pair(ts: Seq<u64>, time: u64, h: int)
    requires
        spec_search(ts, time, h) == Err::<int, Error>(Error::NonmonotonicImuGnssRecords),
    ensures
        exists|k: int| #![trigger ts[k]] 0 <= k && k + 1 < ts.len() && ts[k + 1] < ts[k],
    decreases search_measure(ts, time, h),
{
    if h < 0 || h + 1 >= ts.len() {
    } else if ts[h + 1] < ts[h] {
        assert(0 <= h && h + 1 < ts.len() && ts[h + 1] < ts[h]);
    } else if time < ts[h] {
        if h > 0 {
            lemma_nonmonotonic_error_has_bad_pair(ts, time, h - 1);
        }
    } else if time > ts[h + 1] {
        lemma_nonmonotonic_error_has_bad_pair(ts, time, h + 1);
    }
}

/// Boundary behavior: on a time-ordered trajectory, a lookup from a valid
/// hint succeeds exactly when the query time lies between the first and the
/// last sample time, the ends included; outside that range it fails with
/// the out-of-range error.
pub proof fn lemma_boundary_behavior(points: Seq<ImuGnssPoint>, time: u64, hint: int)
    requires
        monotone_times(times_of(points)),
        points.len() >= 2,
        0 <= hint,
        hint + 1 < points.len(),
    ensures
        (times_of(points)[0] <= time <= times_of(points)[points.len() - 1]) <==> spec_interpolate(
            points,
            time,
            hint,
        ) is Ok,
        !(times_of(points)[0] <= time <= times_of(points)[points.len() - 1]) ==> spec_interpolate(
            points,
            time,
            hint,
        ) == Err::<(Interpolation, int), Error>(Error::OutsideOfImuGnssRecords),
{
    let ts = times_of(points);
    if ts[0] <= time <= ts[ts.len() - 1] {
        lemma_search_in_range(ts, time, hint);
    } else {
        lemma_search_out_of_range(ts, time, hint);
    }
}

/// Exact-sample interpolation: on a strictly increasing trajectory, a query
/// at the exact time of any sample resolves, from every valid hint, to that
/// sample unchanged (a blend factor of zero).
pub proof fn lemma_exact_sample_interpolation(points: Seq<ImuGnssPoint>, i: int, hint: int)
    requires
        strictly_increasing_times(times_of(points)),
        points.len() >= 2,
        0 <= i < points.len(),
        0 <= hint,
        hint + 1 < points.len(),
    ensures
        spec_interpolate(points, points[i].time, hint) matches Ok(r) && r.0
            == Interpolation::Exact(points[i]),
{
    let ts = times_of(points);
    let time = points[i].time;
    assert(ts[i] == time);
    assert(monotone_times(ts));
    lemma_monotone_span(ts, 0, i);
    lemma_monotone_span(ts, i, ts.len() - 1);
    lemma_search_in_range(ts, time, hint);
    let hh = spec_search(ts, time, hint)->Ok_0;
    lemma_search_ok_bracket(ts, time, hint, hh);
    if i < hh {
        lemma_strict_span(ts, i, hh);
        assert(false);
    }
    if i > hh + 1 {
        lemma_strict_span(ts, hh + 1, i);
        assert(false);
    }
    if i == hh {
        assert(spec_blend(points, time, hh) == Interpolation::Exact(points[i]));
    } else {
        assert(ts[hh] < ts[hh + 1]);
        assert(spec_blend(points, time, hh) == Interpolation::Exact(points[i]));
    }
}

/// Monotone-query efficiency: on a strictly increasing trajectory, when one
/// query resolved to the bracket at `h1` and the next, no earlier, query
/// time still falls at or before the following bracket, the search from the
/// returned hint settles after at most one bracket adjustment: it stays at
/// `h1` whenever the query is within the same bracket, and moves exactly one
/// step up otherwise.
pub proof fn lemma_monotone_query_one_step(ts: Seq<u64>, q1: u64, q2: u64, h1: int)
    requires
        strictly_increasing_times(ts),
        ts.len() >= 2,
        0 <= h1,
        h1 + 1 < ts.len(),
        ts[h1] <= q1 <= ts[h1 + 1],
        q1 <= q2,
        h1 + 2 < ts.len() ==> q2 <= ts[h1 + 2],
        h1 + 2 >= ts.len() ==> q2 <= ts[h1 + 1],
    ensures
        q2 <= ts[h1 + 1] ==> spec_search(ts, q2, h1) == Ok::<int, Error>(h1),
        q2 > ts[h1 + 1] ==> spec_search(ts, q2, h1) == Ok::<int, Error>(h1 + 1),
{
    if q2 <= ts[h1 + 1] {
        assert(spec_search(ts, q2, h1) == Ok::<int, Error>(h1));
    } else {
        assert(h1 + 2 < ts.len());
        assert(spec_search(ts, q2, h1) == spec_search(ts, q2, h1 + 1));
        assert(spec_search(ts, q2, h1 + 1) == Ok::<int, Error>(h1 + 1));
    }
}

/// The other half of the efficiency story: a search whose query time lies
/// at or after the start of its bracket never walks backwards, so a
/// non-decreasing query stream only ever moves the cursor forward.
pub proof fn lemma_search_no_backtrack(ts: Seq<u64>, time: u64, h: int)
    requires
        0 <= h < ts.len(),
        ts[h] <= time,
    ensures
        spec_search(ts, time, h) matches Ok(h2) ==> h2 >= h,
    decreases search_measure(ts, time, h),
{
    if h + 1 < ts.len() && !(ts[h + 1] < ts[h]) && time > ts[h + 1] {
        lemma_search_no_backtrack(ts, time, h + 1);
    }
}

/// A collection of IMU/GNSS records.
#[derive(Debug)]
pub struct ImuGnss {
    points: Vec<ImuGnssPoint>,
}

impl View for ImuGnss {
    type V = Seq<ImuGnssPoint>;

    closed spec fn view(&self) -> Seq<ImuGnssPoint> {
        self.points@
    }
}

impl ImuGnss {
    /// Creates a new set of IMU/GNSS records. The sequence is expected to be
    /// time-ordered; lookups check this lazily, pair by pair.
    pub fn new(points: Vec<ImuGnssPoint>) -> (r: ImuGnss)
        ensures
            r@ == points@,
    {
        ImuGnss { points }
    }

    /// Returns this trajectory's points.
    pub fn points(&self) -> (p: &Vec<ImuGnssPoint>)
        ensures
            p@ == self@,
    {
        &self.points
    }

    /// Resolves a position and attitude bracket for the given query time.
    ///
    /// The walk starts at the bracket `[points[hint], points[hint + 1]]`
    /// and moves one step at a time towards the query time, failing if it
    /// would leave the record range and on the first non-monotonic pair it
    /// meets. On success it returns what to blend together with the final
    /// bracket index, the hint for the next, usually nearby, query.
    pub fn interpolate_trajectory(&self, time: u64, hint: usize) -> (res: Result<
        (Interpolation, usize),
        Error,
    >)
        ensures
            res matches Ok((b, h)) ==> {
                &&& spec_interpolate(self@, time, hint as int) == Ok::<(Interpolation, int), Error>(
                    (b, h as int),
                )
                &&& h + 1 < self@.len()
                &&& times_of(self@)[h as int] <= time <= times_of(self@)[h as int + 1]
                &&& times_of(self@)[h as int] <= times_of(self@)[h as int + 1]
                &&& b == spec_blend(self@, time, h as int)
            },
            res matches Err(e) ==> spec_interpolate(self@, time, hint as int) == Err::<
                (Interpolation, int),
                Error,
            >(e),
    {
        let ghost ts = times_of(self@);
        let n = self.points.len();
        let mut h = hint;
        loop
            invariant
                n == self@.len(),
                ts == times_of(self@),
                ts.len() == n,
                spec_search(ts, time, hint as int) == spec_search(ts, time, h as int),
            decreases search_measure(ts, time, h as int),
        {
            if n < 2 || h >= n - 1 {
                return Err(Error::OutsideOfImuGnssRecords);
            }
            let first = self.points[h];
            let second = self.points[h + 1];
            proof {
                assert(ts[h as int] == first.time);
                assert(ts[h as int + 1] == second.time);
            }
            if second.time < first.time {
                return Err(Error::NonmonotonicImuGnssRecords);
            }
            if time < first.time {
                if h > 0 {
                    h -= 1;
                } else {
                    return Err(Error::OutsideOfImuGnssRecords);
                }
            } else if time > second.time {
                h += 1;
            } else {
                let b = if time == first.time || first.time == second.time {
                    Interpolation::Exact(first)
                } else if time == second.time {
                    Interpolation::Exact(second)
                } else {
                    Interpolation::Between(first, second)
                };
                proof {
                    assert(spec_search(ts, time, h as int) == Ok::<int, Error>(h as int));
                    assert(b == spec_blend(self@, time, h as int));
                }
                return Ok((b, h));
            }
        }
    }
}

} // verus!
