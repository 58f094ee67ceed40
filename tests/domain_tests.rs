use iot_telemetry::domain::{
    Accelerometer, Agent, Gps, InvalidGpsDataError, InvalidLatitudeError, InvalidLongitudeError,
    Latitude, Longitude, ProcessedAgent, RoadState, Timestamp, LATITUDE_LIMIT, LONGITUDE_LIMIT,
    MAX_EPOCH_SECONDS, MIN_EPOCH_SECONDS,
};

#[test]
fn latitude_bounds_are_inclusive() {
    assert!(Latitude::new(LATITUDE_LIMIT).is_ok());
    assert!(Latitude::new(-LATITUDE_LIMIT).is_ok());
    assert!(Latitude::new(0).is_ok());
    assert_eq!(Latitude::new(LATITUDE_LIMIT + 1), Err(InvalidLatitudeError));
    assert_eq!(Latitude::new(-LATITUDE_LIMIT - 1), Err(InvalidLatitudeError));
    assert_eq!(Latitude::new(91_000_000_000), Err(InvalidLatitudeError));
    assert_eq!(Latitude::new(45_500_000_000).unwrap().nanodegrees(), 45_500_000_000);
}

#[test]
fn longitude_bounds_are_inclusive() {
    assert!(Longitude::new(LONGITUDE_LIMIT).is_ok());
    assert!(Longitude::new(-LONGITUDE_LIMIT).is_ok());
    assert_eq!(Longitude::new(LONGITUDE_LIMIT + 1), Err(InvalidLongitudeError));
    assert_eq!(Longitude::new(i64::MIN), Err(InvalidLongitudeError));
    assert_eq!(Longitude::new(-30_000_000_000).unwrap().nanodegrees(), -30_000_000_000);
}

#[test]
fn gps_construction_succeeds_iff_both_in_range() {
    let cases: [(i64, i64); 9] = [
        (0, 0),
        (90_000_000_000, 180_000_000_000),
        (-90_000_000_000, -180_000_000_000),
        (90_000_000_001, 0),
        (0, 180_000_000_001),
        (-90_000_000_001, -180_000_000_001),
        (50_450_386_086, 30_524_547_100),
        (i64::MAX, i64::MIN),
        (89_999_999_999, -179_999_999_999),
    ];
    for (lat, lon) in cases {
        let lat_ok = (-90_000_000_000..=90_000_000_000).contains(&lat);
        let lon_ok = (-180_000_000_000..=180_000_000_000).contains(&lon);
        let r = Gps::try_new(lat, lon);
        assert_eq!(r.is_ok(), lat_ok && lon_ok, "{lat} {lon}");
        match r {
            Ok(g) => {
                assert_eq!(g.latitude().nanodegrees(), lat);
                assert_eq!(g.longitude().nanodegrees(), lon);
            }
            Err(InvalidGpsDataError::InvalidLatitude(_)) => assert!(!lat_ok && lon_ok),
            Err(InvalidGpsDataError::InvalidLongitude(_)) => assert!(lat_ok && !lon_ok),
            Err(InvalidGpsDataError::Both(_, _)) => assert!(!lat_ok && !lon_ok),
        }
    }
}

#[test]
fn gps_reports_each_bad_coordinate() {
    assert_eq!(
        Gps::try_new(91_000_000_000, 0),
        Err(InvalidGpsDataError::InvalidLatitude(InvalidLatitudeError))
    );
    assert_eq!(
        Gps::try_new(0, -181_000_000_000),
        Err(InvalidGpsDataError::InvalidLongitude(InvalidLongitudeError))
    );
    assert_eq!(
        Gps::try_new(91_000_000_000, 181_000_000_000),
        Err(InvalidGpsDataError::Both(InvalidLatitudeError, InvalidLongitudeError))
    );
}

#[test]
fn error_messages() {
    assert_eq!(InvalidLatitudeError.message(), "latitude must be in range -90..90");
    assert_eq!(InvalidLongitudeError.message(), "longitude must be in range -180..180");
}

#[test]
fn timestamp_range_and_leap_seconds() {
    let t = Timestamp::new(1_704_067_200, 5).unwrap();
    assert_eq!(t.seconds(), 1_704_067_200);
    assert_eq!(t.nanos(), 5);
    assert!(Timestamp::new(0, 999_999_999).is_some());
    assert!(Timestamp::new(0, 1_000_000_000).is_none());
    assert!(Timestamp::new(59, 1_500_000_000).is_some());
    assert!(Timestamp::new(59, 2_000_000_000).is_none());
    assert!(Timestamp::new(-1, 1_000_000_000).is_some());
    assert!(Timestamp::new(MAX_EPOCH_SECONDS, 0).is_some());
    assert!(Timestamp::new(MAX_EPOCH_SECONDS + 1, 0).is_none());
    assert!(Timestamp::new(MIN_EPOCH_SECONDS, 0).is_some());
    assert!(Timestamp::new(MIN_EPOCH_SECONDS - 1, 0).is_none());
    assert!(Timestamp::new(i64::MAX, 0).is_none());
}

#[test]
fn road_state_defaults_to_smooth() {
    assert_eq!(RoadState::default(), RoadState::Smooth);
}

#[test]
fn record_accessors() {
    let a = Accelerometer::new(1, -2, 3);
    assert_eq!((a.x(), a.y(), a.z()), (1, -2, 3));
    let g = Gps::try_new(10, 20).unwrap();
    let t = Timestamp::new(100, 0).unwrap();
    let agent = Agent::new(a, g, t);
    assert_eq!(agent.accelerometer(), a);
    assert_eq!(agent.gps(), g);
    assert_eq!(agent.timestamp(), t);
    let p = ProcessedAgent::new(agent, RoadState::Rough);
    assert_eq!(*p.agent_data(), agent);
    assert_eq!(p.road_state(), RoadState::Rough);
}
