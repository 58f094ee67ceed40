//! Sensor records and their validated components.
//!
//! Quantities are held as integers in fine fixed units: accelerations in
//! nanometres per second squared (10^-6 mm/s²), coordinates in nanodegrees,
//! instants as seconds and nanoseconds since the Unix epoch.
use vstd::prelude::*;

verus! {

/// Largest magnitude of a latitude, in nanodegrees (90°).
pub const LATITUDE_LIMIT: i64 = 90_000_000_000;

/// Largest magnitude of a longitude, in nanodegrees (180°).
pub const LONGITUDE_LIMIT: i64 = 180_000_000_000;

/// Earliest second since the epoch of a representable UTC instant
/// (January 1 of year -262143).
pub const MIN_EPOCH_SECONDS: i64 = -8_334_601_228_800;

/// Latest second since the epoch of a representable UTC instant
/// (December 31 of year 262142, 23:59:59).
pub const MAX_EPOCH_SECONDS: i64 = 8_210_266_876_799;

pub const NANOS_PER_SECOND: u32 = 1_000_000_000;

pub open spec fn valid_latitude(v: int) -> bool {
    -LATITUDE_LIMIT <= v <= LATITUDE_LIMIT
}

pub open spec fn valid_longitude(v: int) -> bool {
    -LONGITUDE_LIMIT <= v <= LONGITUDE_LIMIT
}

/// Whether seconds and nanoseconds since the epoch name a UTC instant: the
/// second lies in the calendar's range, and the nanoseconds stay under one
/// second, or under two on the last second of a minute (a leap second).
pub open spec fn utc_representable(seconds: int, nanos: int) -> bool {
    &&& MIN_EPOCH_SECONDS <= seconds <= MAX_EPOCH_SECONDS
    &&& 0 <= nanos
    &&& (nanos < NANOS_PER_SECOND || (nanos < 2 * NANOS_PER_SECOND && seconds % 60 == 59))
}

/// Relies on chrono's `DateTime::from_timestamp`, which returns `Some` exactly
/// when the second lies in the calendar's range and the nanoseconds are below
/// one second, or below two on a second that ends a minute.
#[verifier::external_body]
fn chrono_accepts(seconds: i64, nanos: u32) -> (r: bool)
    ensures
        r == utc_representable(seconds as int, nanos as int),
{
    chrono::DateTime::from_timestamp(seconds, nanos).is_some()
}

/// The state of the road surface under a record.
#[derive(Debug, Clone, Copy, PartialEq, Eq, Structural)]
pub enum RoadState {
    Smooth,
    Rough,
}

impl Default for RoadState {
    fn default() -> (r: RoadState)
        ensures
            r == RoadState::Smooth,
    {
        RoadState::Smooth
    }
}


/// Raised when a latitude lies outside -90°..=90°.
#[derive(Debug, Clone, Copy, PartialEq, Eq, Structural)]
pub struct InvalidLatitudeError;

/// Raised when a longitude lies outside -180°..=180°.
#[derive(Debug, Clone, Copy, PartialEq, Eq, Structural)]
pub struct InvalidLongitudeError;

impl InvalidLatitudeError {
    pub fn message(&self) -> (r: &'static str)
        ensures
            r@ == "latitude must be in range -90..90"@,
    {
        "latitude must be in range -90..90"
    }
}

impl InvalidLongitudeError {
    pub fn message(&self) -> (r: &'static str)
        ensures
            r@ == "longitude must be in range -180..180"@,
    {
        "longitude must be in range -180..180"
    }
}

/// Raised when a GPS fix has a coordinate out of range.
#[derive(Debug, Clone, Copy, PartialEq, Eq, Structural)]
pub enum InvalidGpsDataError {
    InvalidLatitude(InvalidLatitudeError),
    InvalidLongitude(InvalidLongitudeError),
    Both(InvalidLatitudeError, InvalidLongitudeError),
}

pub open spec fn gps_error_text(e: InvalidGpsDataError) -> Seq<char> {
    match e {
        InvalidGpsDataError::InvalidLatitude(_) => "Invalid latitude: "@
            + "latitude must be in range -90..90"@,
        InvalidGpsDataError::InvalidLongitude(_) => "Invalid longitude: "@
            + "longitude must be in range -180..180"@,
        InvalidGpsDataError::Both(_, _) => "Invalid latitude and longitude: "@
            + "latitude must be in range -90..90"@ + ", "@ + "longitude must be in range -180..180"@,
    }
}

impl InvalidGpsDataError {
    /// The error's description, with the coordinate errors it wraps.
    pub fn message(&self) -> (r: String)
        ensures
            r@ == gps_error_text(*self),
    {
        match self {
            InvalidGpsDataError::InvalidLatitude(e) => {
                let mut s = String::from_str("Invalid latitude: ");
                s.append(e.message());
                s
            },
            InvalidGpsDataError::InvalidLongitude(e) => {
                let mut s = String::from_str("Invalid longitude: ");
                s.append(e.message());
                s
            },
            InvalidGpsDataError::Both(a, b) => {
                let mut s = String::from_str("Invalid latitude and longitude: ");
                s.append(a.message());
                s.append(", ");
                s.append(b.message());
                s
            },
        }
    }
}

/// A latitude in nanodegrees, always within -90°..=90°.
#[derive(Debug, Clone, Copy, PartialEq, Eq, Structural)]
pub struct Latitude {
    nanodegrees: i64,
}

/// A longitude in nanodegrees, always within -180°..=180°.
#[derive(Debug, Clone, Copy, PartialEq, Eq, Structural)]
pub struct Longitude {
    nanodegrees: i64,
}

impl View for Latitude {
    type V = int;

    closed spec fn view(&self) -> int {
        self.nanodegrees as int
    }
}

impl View for Longitude {
    type V = int;

    closed spec fn view(&self) -> int {
        self.nanodegrees as int
    }
}

impl Latitude {
    #[verifier::type_invariant]
    spec fn in_range(self) -> bool {
        valid_latitude(self.nanodegrees as int)
    }

    /// Validating constructor: the value is accepted exactly when it lies in
    /// -90°..=90°.
    pub fn new(nanodegrees: i64) -> (r: Result<Latitude, InvalidLatitudeError>)
        ensures
            r is Ok <==> valid_latitude(nanodegrees as int),
            r matches Ok(l) ==> l@ == nanodegrees,
    {
        if -LATITUDE_LIMIT <= nanodegrees && nanodegrees <= LATITUDE_LIMIT {
            Ok(Latitude { nanodegrees })
        } else {
            Err(InvalidLatitudeError)
        }
    }

    pub fn nanodegrees(&self) -> (r: i64)
        ensures
            r == self@,
            valid_latitude(r as int),
    {
        proof {
            use_type_invariant(self);
        }
        self.nanodegrees
    }

    /// A latitude is determined by its value, which fits an `i64`.
    pub proof fn lemma_view_injective(a: Latitude, b: Latitude)
        ensures
            a@ == b@ ==> a == b,
            i64::MIN <= a@ <= i64::MAX,
    {
    }
}

impl Longitude {
    #[verifier::type_invariant]
    spec fn in_range(self) -> bool {
        valid_longitude(self.nanodegrees as int)
    }

    /// Validating constructor: the value is accepted exactly when it lies in
    /// -180°..=180°.
    pub fn new(nanodegrees: i64) -> (r: Result<Longitude, InvalidLongitudeError>)
        ensures
            r is Ok <==> valid_longitude(nanodegrees as int),
            r matches Ok(l) ==> l@ == nanodegrees,
    {
        if -LONGITUDE_LIMIT <= nanodegrees && nanodegrees <= LONGITUDE_LIMIT {
            Ok(Longitude { nanodegrees })
        } else {
            Err(InvalidLongitudeError)
        }
    }

    pub fn nanodegrees(&self) -> (r: i64)
        ensures
            r == self@,
            valid_longitude(r as int),
    {
        proof {
            use_type_invariant(self);
        }
        self.nanodegrees
    }

    /// A longitude is determined by its value, which fits an `i64`.
    pub proof fn lemma_view_injective(a: Longitude, b: Longitude)
        ensures
            a@ == b@ ==> a == b,
            i64::MIN <= a@ <= i64::MAX,
    {
    }
}


/// An instant in UTC: whole seconds since the Unix epoch and the nanoseconds
/// past that second.
#[derive(Debug, Clone, Copy, PartialEq, Eq, Structural)]
pub struct Timestamp {
    seconds: i64,
    nanos: u32,
}

impl View for Timestamp {
    type V = (int, int);

    closed spec fn view(&self) -> (int, int) {
        (self.seconds as int, self.nanos as int)
    }
}

impl Timestamp {
    #[verifier::type_invariant]
    spec fn representable(self) -> bool {
        utc_representable(self.seconds as int, self.nanos as int)
    }

    /// The instant at `seconds` and `nanos` past the epoch, when UTC has one.
    pub fn new(seconds: i64, nanos: u32) -> (r: Option<Timestamp>)
        ensures
            r is Some <==> utc_representable(seconds as int, nanos as int),
            r matches Some(t) ==> t@ == (seconds as int, nanos as int),
    {
        if chrono_accepts(seconds, nanos) {
            Some(Timestamp { seconds, nanos })
        } else {
            None
        }
    }

    pub fn seconds(&self) -> (r: i64)
        ensures
            r == self@.0,
            utc_representable(self@.0, self@.1),
    {
        proof {
            use_type_invariant(self);
        }
        self.seconds
    }

    pub fn nanos(&self) -> (r: u32)
        ensures
            r == self@.1,
            utc_representable(self@.0, self@.1),
    {
        proof {
            use_type_invariant(self);
        }
        self.nanos
    }

    /// An instant is determined by its seconds and nanoseconds, which fit an
    /// `i64` and a `u32`.
    pub proof fn lemma_view_injective(a: Timestamp, b: Timestamp)
        ensures
            a@ == b@ ==> a == b,
            i64::MIN <= a@.0 <= i64::MAX,
            0 <= a@.1 <= u32::MAX,
    {
    }
}

/// Whether instant `a` comes no later than instant `b`: seconds first,
/// then nanoseconds (a leap second's nanoseconds run past one second).
pub open spec fn not_after(a: (int, int), b: (int, int)) -> bool {
    a.0 < b.0 || (a.0 == b.0 && a.1 <= b.1)
}

/// The one-second correction that a leap second brings to an interval: the
/// nanoseconds of a leap second (one second or more) belong to an extra
/// second that an interval passes over when it runs from that second to a
/// later one, or back from a later one.
pub open spec fn leap_adjustment(earlier: (int, int), later: (int, int)) -> int {
    if later.0 > earlier.0 && earlier.1 >= NANOS_PER_SECOND {
        1
    } else if later.0 < earlier.0 && later.1 >= NANOS_PER_SECOND {
        -1
    } else {
        0
    }
}

/// Nanoseconds from `earlier` to `later`: the difference of the whole
/// seconds, corrected by `leap_adjustment`, plus the difference of the
/// nanoseconds.
pub open spec fn nanos_between(earlier: (int, int), later: (int, int)) -> int {
    (later.0 - earlier.0 + leap_adjustment(earlier, later)) * NANOS_PER_SECOND + (later.1
        - earlier.1)
}

/// The interval between two instants is positive exactly when the second
/// comes after the first.
pub proof fn lemma_interval_positive_iff_later(earlier: (int, int), later: (int, int))
    requires
        utc_representable(earlier.0, earlier.1),
        utc_representable(later.0, later.1),
    ensures
        nanos_between(earlier, later) > 0 <==> !not_after(later, earlier),
{
    if later.0 > earlier.0 {
        assert((later.0 - earlier.0 - 1) * NANOS_PER_SECOND >= 0) by (nonlinear_arith)
            requires
                later.0 - earlier.0 - 1 >= 0,
        ;
    } else if later.0 < earlier.0 {
        assert((earlier.0 - later.0 - 1) * NANOS_PER_SECOND >= 0) by (nonlinear_arith)
            requires
                earlier.0 - later.0 - 1 >= 0,
        ;
    }
}

/// One accelerometer sample; each axis in nanometres per second squared.
#[derive(Debug, Clone, Copy, PartialEq, Eq, Structural)]
pub struct Accelerometer {
    pub x: i64,
    pub y: i64,
    pub z: i64,
}

impl Accelerometer {
    pub fn new(x: i64, y: i64, z: i64) -> (r: Accelerometer)
        ensures
            r == (Accelerometer { x, y, z }),
    {
        Accelerometer { x, y, z }
    }

    pub fn x(&self) -> (r: i64)
        ensures
            r == self.x,
    {
        self.x
    }

    pub fn y(&self) -> (r: i64)
        ensures
            r == self.y,
    {
        self.y
    }

    pub fn z(&self) -> (r: i64)
        ensures
            r == self.z,
    {
        self.z
    }
}

/// A GPS fix. Its coordinates are in range by construction.
#[derive(Debug, Clone, Copy, PartialEq, Eq, Structural)]
pub struct Gps {
    pub latitude: Latitude,
    pub longitude: Longitude,
}

impl Gps {
    pub fn new(latitude: Latitude, longitude: Longitude) -> (r: Gps)
        ensures
            r == (Gps { latitude, longitude }),
    {
        Gps { latitude, longitude }
    }

    /// Validates both coordinates (in nanodegrees) and reports every one that
    /// is out of range.
    pub fn try_new(latitude: i64, longitude: i64) -> (r: Result<Gps, InvalidGpsDataError>)
        ensures
            r is Ok <==> valid_latitude(latitude as int) && valid_longitude(longitude as int),
            r matches Ok(g) ==> g.latitude@ == latitude && g.longitude@ == longitude,
            r == Err::<Gps, _>(InvalidGpsDataError::InvalidLatitude(InvalidLatitudeError))
                <==> !valid_latitude(latitude as int) && valid_longitude(longitude as int),
            r == Err::<Gps, _>(InvalidGpsDataError::InvalidLongitude(InvalidLongitudeError))
                <==> valid_latitude(latitude as int) && !valid_longitude(longitude as int),
            r == Err::<Gps, _>(
                InvalidGpsDataError::Both(InvalidLatitudeError, InvalidLongitudeError),
            ) <==> !valid_latitude(latitude as int) && !valid_longitude(longitude as int),
    {
        match (Latitude::new(latitude), Longitude::new(longitude)) {
            (Ok(latitude), Ok(longitude)) => Ok(Gps::new(latitude, longitude)),
            (Err(err), Ok(_)) => Err(InvalidGpsDataError::InvalidLatitude(err)),
            (Ok(_), Err(err)) => Err(InvalidGpsDataError::InvalidLongitude(err)),
            (Err(_), Err(_)) => Err(
                InvalidGpsDataError::Both(InvalidLatitudeError, InvalidLongitudeError),
            ),
        }
    }

    pub fn latitude(&self) -> (r: Latitude)
        ensures
            r == self.latitude,
    {
        self.latitude
    }

    pub fn longitude(&self) -> (r: Longitude)
        ensures
            r == self.longitude,
    {
        self.longitude
    }
}

/// A raw record from an agent: one accelerometer sample, one GPS fix, and the
/// instant they were taken.
#[derive(Debug, Clone, Copy, PartialEq, Eq, Structural)]
pub struct Agent {
    pub accelerometer: Accelerometer,
    pub gps: Gps,
    pub timestamp: Timestamp,
}

impl Agent {
    pub fn new(accelerometer: Accelerometer, gps: Gps, timestamp: Timestamp) -> (r: Agent)
        ensures
            r == (Agent { accelerometer, gps, timestamp }),
    {
        Agent { accelerometer, gps, timestamp }
    }

    pub fn accelerometer(&self) -> (r: Accelerometer)
        ensures
            r == self.accelerometer,
    {
        self.accelerometer
    }

    pub fn gps(&self) -> (r: Gps)
        ensures
            r == self.gps,
    {
        self.gps
    }

    pub fn timestamp(&self) -> (r: Timestamp)
        ensures
            r == self.timestamp,
    {
        self.timestamp
    }
}

/// A raw record together with the road state it was classified as.
#[derive(Debug, Clone, Copy, PartialEq, Eq, Structural)]
pub struct ProcessedAgent {
    pub agent_data: Agent,
    pub road_state: RoadState,
}

impl ProcessedAgent {
    pub fn new(agent_data: Agent, road_state: RoadState) -> (r: ProcessedAgent)
        ensures
            r == (ProcessedAgent { agent_data, road_state }),
    {
        ProcessedAgent { agent_data, road_state }
    }

    pub fn agent_data(&self) -> (r: &Agent)
        ensures
            *r == self.agent_data,
    {
        &self.agent_data
    }

    pub fn road_state(&self) -> (r: RoadState)
        ensures
            r == self.road_state,
    {
        self.road_state
    }
}

} // verus!
