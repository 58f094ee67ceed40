use iot_telemetry::domain::{Accelerometer, Agent, Gps, RoadState, Timestamp};
use iot_telemetry::edge::{process_agent_data, EdgeClassifier};

fn record(seconds: i64, nanos: u32, z_mm: i64) -> Agent {
    Agent::new(
        Accelerometer::new(0, 0, z_mm * 1_000_000),
        Gps::try_new(50_000_000_000, 30_000_000_000).unwrap(),
        Timestamp::new(seconds, nanos).unwrap(),
    )
}

#[test]
fn edge_classifier_jerk_threshold() {
    // 2 mm/s² over a millisecond: 2000 mm/s³.
    let prev = record(0, 0, 0);
    let cur = record(0, 1_000_000, 2);
    assert_eq!(process_agent_data(cur, Some(&prev)).road_state(), RoadState::Rough);
    // 2 mm/s² over a second: 2 mm/s³.
    let cur = record(1, 0, 2);
    assert_eq!(process_agent_data(cur, Some(&prev)).road_state(), RoadState::Smooth);
}

#[test]
fn first_record_is_smooth() {
    let cur = record(0, 0, 1_000_000);
    let p = process_agent_data(cur, None);
    assert_eq!(p.road_state(), RoadState::Smooth);
    assert_eq!(*p.agent_data(), cur);
}

#[test]
fn threshold_is_strict() {
    let prev = record(0, 0, 0);
    // exactly 1000 mm/s³
    assert_eq!(
        process_agent_data(record(0, 1_000_000, 1), Some(&prev)).road_state(),
        RoadState::Smooth
    );
    // a drop counts by its magnitude
    assert_eq!(
        process_agent_data(record(0, 1_000_000, -2), Some(&prev)).road_state(),
        RoadState::Rough
    );
}

#[test]
fn degenerate_interval_is_smooth() {
    let prev = record(10, 0, 0);
    assert_eq!(process_agent_data(record(10, 0, 500), Some(&prev)).road_state(), RoadState::Smooth);
    assert_eq!(process_agent_data(record(9, 0, 500), Some(&prev)).road_state(), RoadState::Smooth);
}

#[test]
fn classifier_keeps_one_record_of_history() {
    let mut c = EdgeClassifier::new();
    assert_eq!(c.classify(record(0, 0, 0)).road_state(), RoadState::Smooth);
    assert_eq!(c.classify(record(0, 1_000_000, 2)).road_state(), RoadState::Rough);
    // compared with the previous record, not the first
    assert_eq!(c.classify(record(0, 2_000_000, 2)).road_state(), RoadState::Smooth);
}

#[test]
fn leap_second_intervals() {
    // The current record falls in the leap second before the previous one.
    let prev = record(60, 0, 0);
    let cur = record(59, 1_500_000_000, 2000);
    assert_eq!(process_agent_data(cur, Some(&prev)).road_state(), RoadState::Smooth);
    // From the middle of a leap second to the next second: half a second.
    let prev = record(59, 1_500_000_000, 0);
    let cur = record(60, 0, 2000);
    assert_eq!(process_agent_data(cur, Some(&prev)).road_state(), RoadState::Rough);
    let cur = record(60, 0, 400);
    assert_eq!(process_agent_data(cur, Some(&prev)).road_state(), RoadState::Smooth);
    // Within one second and its leap second: 1.2 s.
    let prev = record(59, 0, 0);
    assert_eq!(process_agent_data(record(59, 1_200_000_000, 2000), Some(&prev)).road_state(), RoadState::Rough);
    assert_eq!(process_agent_data(record(59, 1_200_000_000, 1000), Some(&prev)).road_state(), RoadState::Smooth);
}
