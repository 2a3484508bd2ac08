//! Trajectory interpolation behavior.

use georef::imu_gnss::Interpolation;
use georef::Error;
use georef::ImuGnss;
use georef::ImuGnssPoint;

fn sample(time: u64, tag: u64) -> ImuGnssPoint {
    ImuGnssPoint {
        time,
        latitude: tag,
        longitude: tag + 1,
        height: tag + 2,
        roll: tag + 3,
        pitch: tag + 4,
        heading: tag + 5,
    }
}

fn store(times: &[u64]) -> ImuGnss {
    let points = times
        .iter()
        .enumerate()
        .map(|(i, &t)| sample(t, 100 * (i as u64 + 1)))
        .collect();
    ImuGnss::new(points)
}

#[test]
fn exact_sample_is_returned_unchanged() {
    let traj = store(&[0, 10, 20, 30]);
    for i in 0..4usize {
        let time = traj.points()[i].time;
        for hint in 0..3usize {
            let (blend, _) = traj.interpolate_trajectory(time, hint).unwrap();
            match blend {
                Interpolation::Exact(p) => assert_eq!(p, traj.points()[i]),
                other => panic!("expected an exact hit, got {:?}", other),
            }
        }
    }
}

#[test]
fn interior_query_brackets_its_neighbors() {
    let traj = store(&[0, 10, 20]);
    let (blend, hint) = traj.interpolate_trajectory(15, 0).unwrap();
    assert_eq!(hint, 1);
    match blend {
        Interpolation::Between(a, b) => {
            assert_eq!(a, traj.points()[1]);
            assert_eq!(b, traj.points()[2]);
        }
        other => panic!("expected a bracket, got {:?}", other),
    }
}

#[test]
fn boundary_queries_succeed_and_outside_queries_fail() {
    let traj = store(&[5, 10, 20]);
    assert!(traj.interpolate_trajectory(5, 0).is_ok());
    assert!(traj.interpolate_trajectory(20, 0).is_ok());
    assert!(matches!(
        traj.interpolate_trajectory(4, 0),
        Err(Error::OutsideOfImuGnssRecords)
    ));
    assert!(matches!(
        traj.interpolate_trajectory(21, 1),
        Err(Error::OutsideOfImuGnssRecords)
    ));
}

#[test]
fn short_trajectories_always_fail() {
    let empty = ImuGnss::new(Vec::new());
    assert!(matches!(
        empty.interpolate_trajectory(0, 0),
        Err(Error::OutsideOfImuGnssRecords)
    ));
    let single = store(&[10]);
    assert!(matches!(
        single.interpolate_trajectory(10, 0),
        Err(Error::OutsideOfImuGnssRecords)
    ));
}

#[test]
fn stale_hint_past_the_end_fails() {
    let traj = store(&[0, 10, 20]);
    assert!(matches!(
        traj.interpolate_trajectory(10, 2),
        Err(Error::OutsideOfImuGnssRecords)
    ));
}

#[test]
fn nonmonotonic_pair_is_detected_when_the_walk_reaches_it() {
    // The pair at index 1 decreases: 20 -> 10.
    let traj = store(&[0, 20, 10, 30]);
    // Walking up from the first bracket reaches the bad pair.
    assert!(matches!(
        traj.interpolate_trajectory(25, 0),
        Err(Error::NonmonotonicImuGnssRecords)
    ));
    // Starting on the bad pair fails at once, whatever the query time.
    assert!(matches!(
        traj.interpolate_trajectory(0, 1),
        Err(Error::NonmonotonicImuGnssRecords)
    ));
    // A query answered before the walk meets the bad pair still succeeds.
    assert!(traj.interpolate_trajectory(15, 0).is_ok());
}

#[test]
fn equal_bracket_times_hit_the_earlier_sample() {
    let traj = store(&[10, 10]);
    let (blend, hint) = traj.interpolate_trajectory(10, 0).unwrap();
    assert_eq!(hint, 0);
    match blend {
        Interpolation::Exact(p) => assert_eq!(p, traj.points()[0]),
        other => panic!("expected an exact hit, got {:?}", other),
    }
}

#[test]
fn ordered_queries_move_the_hint_one_bracket_at_a_time() {
    let traj = store(&[0, 10, 20, 30]);
    let queries: [u64; 6] = [0, 5, 10, 15, 25, 30];
    let mut hint = 0usize;
    for &q in queries.iter() {
        let (_, new_hint) = traj.interpolate_trajectory(q, hint).unwrap();
        assert!(new_hint >= hint);
        assert!(new_hint - hint <= 1);
        assert!(new_hint + 1 < traj.points().len());
        hint = new_hint;
    }
}

/// An order-preserving encoding of clock values, of the kind the library
/// documents for the `time` field: unsigned comparison of two keys agrees
/// with comparison of the underlying values.
fn key(t: f64) -> u64 {
    let b = t.to_bits();
    if b & (1 << 63) != 0 {
        !b
    } else {
        b | (1 << 63)
    }
}

#[test]
fn encoded_clock_values_drive_lookups() {
    let times = [-5.5_f64, -1.25, 0.0, 2.5, 10.0];
    let points: Vec<ImuGnssPoint> = times
        .iter()
        .enumerate()
        .map(|(i, &t)| sample(key(t), 10 * (i as u64 + 1)))
        .collect();
    let traj = ImuGnss::new(points);
    // An exact hit on a negative clock value.
    let (blend, _) = traj.interpolate_trajectory(key(-1.25), 0).unwrap();
    assert!(matches!(blend, Interpolation::Exact(p) if p == traj.points()[1]));
    // A bracket across the sign change.
    let (blend, hint) = traj.interpolate_trajectory(key(-0.5), 3).unwrap();
    assert_eq!(hint, 1);
    assert!(
        matches!(blend, Interpolation::Between(a, b) if a == traj.points()[1] && b == traj.points()[2])
    );
    // Out of range on both sides.
    assert!(matches!(
        traj.interpolate_trajectory(key(-7.0), 2),
        Err(Error::OutsideOfImuGnssRecords)
    ));
    assert!(matches!(
        traj.interpolate_trajectory(key(11.0), 2),
        Err(Error::OutsideOfImuGnssRecords)
    ));
}

#[test]
fn out_of_order_queries_stay_correct() {
    let traj = store(&[0, 10, 20, 30]);
    let (_, h1) = traj.interpolate_trajectory(25, 0).unwrap();
    assert_eq!(h1, 2);
    let (blend, h2) = traj.interpolate_trajectory(5, h1).unwrap();
    assert_eq!(h2, 0);
    match blend {
        Interpolation::Between(a, b) => {
            assert_eq!(a, traj.points()[0]);
            assert_eq!(b, traj.points()[1]);
        }
        other => panic!("expected a bracket, got {:?}", other),
    }
}
