//! The protobuf messages of the store's gRPC service, as plain values, and
//! the checked conversions between them and the domain records.
use vstd::prelude::*;

use crate::domain::{
    self, gps_error_text, utc_representable, valid_latitude, valid_longitude, Accelerometer, Agent, Gps,
    InvalidGpsDataError, InvalidLatitudeError, InvalidLongitudeError, Latitude, Longitude,
    ProcessedAgent, Timestamp,
};

verus! {

/// Wire form of an accelerometer sample (nm/s² on each axis).
#[derive(Debug, Clone, Copy, PartialEq, Eq, Structural)]
pub struct AccelerometerData {
    pub x: i64,
    pub y: i64,
    pub z: i64,
}

/// Wire form of a GPS fix (nanodegrees), not yet checked.
#[derive(Debug, Clone, Copy, PartialEq, Eq, Structural)]
pub struct GpsData {
    pub latitude: i64,
    pub longitude: i64,
}

/// Wire form of an instant, not yet checked.
#[derive(Debug, Clone, Copy, PartialEq, Eq, Structural)]
pub struct DateTimeUtc {
    pub seconds: i64,
    pub nanos: u32,
}

/// Wire form of a raw record; every part may be missing.
#[derive(Debug, Clone, Copy, PartialEq, Eq)]
pub struct AgentData {
    pub accelerometer: Option<AccelerometerData>,
    pub gps: Option<GpsData>,
    pub timestamp: Option<DateTimeUtc>,
}

/// Wire form of a classified record. `road_state` holds the code of a
/// `RoadState`; an unknown code reads as the default, smooth.
#[derive(Debug, Clone, Copy, PartialEq, Eq)]
pub struct ProcessedAgentData {
    pub agent: Option<AgentData>,
    pub road_state: i32,
}

/// Request of the batch-create call.
#[derive(Debug, Clone, PartialEq, Eq)]
pub struct Input {
    pub data: Vec<ProcessedAgentData>,
}

/// Reply of the batch-create call: one identifier per record, in input order.
#[derive(Debug, Clone, PartialEq, Eq)]
pub struct ProcessedAgentDataId {
    pub ids: Vec<i32>,
}

/// The wire enumeration of road states.
#[derive(Debug, Clone, Copy, PartialEq, Eq, Structural)]
pub enum RoadState {
    Smooth,
    Rough,
}

pub open spec fn road_state_code(s: domain::RoadState) -> i32 {
    match s {
        domain::RoadState::Smooth => 0,
        domain::RoadState::Rough => 1,
    }
}

pub open spec fn road_state_of_code(code: i32) -> domain::RoadState {
    if code == 1 {
        domain::RoadState::Rough
    } else {
        domain::RoadState::Smooth
    }
}

impl RoadState {
    pub fn from_domain(value: domain::RoadState) -> (r: RoadState)
        ensures
            value == domain::RoadState::Smooth <==> r == RoadState::Smooth,
    {
        match value {
            domain::RoadState::Smooth => RoadState::Smooth,
            domain::RoadState::Rough => RoadState::Rough,
        }
    }

    pub fn to_domain(self) -> (r: domain::RoadState)
        ensures
            self == RoadState::Smooth <==> r == domain::RoadState::Smooth,
    {
        match self {
            RoadState::Smooth => domain::RoadState::Smooth,
            RoadState::Rough => domain::RoadState::Rough,
        }
    }
}

/// Raised when seconds and nanoseconds name no UTC instant.
#[derive(Debug, Clone, Copy, PartialEq, Eq, Structural)]
pub struct InvalidDateTimeError;

/// Why a wire raw record was refused.
#[derive(Debug, Clone, Copy, PartialEq, Eq, Structural)]
pub enum InvalidAgentDataError {
    MissingGps,
    MissingAccelerometer,
    MissingTimestamp,
    InvalidTimestamp(InvalidDateTimeError),
    InvalidGpsData(InvalidGpsDataError),
}

/// Why a wire classified record was refused.
#[derive(Debug, Clone, Copy, PartialEq, Eq, Structural)]
pub enum InvalidProcessedAgentDataError {
    MissingAgentData,
    InvalidAgentData(InvalidAgentDataError),
}

pub open spec fn agent_error_text(e: InvalidAgentDataError) -> Seq<char> {
    match e {
        InvalidAgentDataError::MissingGps => "Missing GPS data"@,
        InvalidAgentDataError::MissingAccelerometer => "Missing accelerometer data"@,
        InvalidAgentDataError::MissingTimestamp => "Missing timestamp"@,
        InvalidAgentDataError::InvalidTimestamp(_) => "Invalid timestamp: "@
            + "Out-of-range number of seconds and/or invalid nanosecond"@,
        InvalidAgentDataError::InvalidGpsData(g) => "Invalid GPS data: "@ + gps_error_text(g),
    }
}

pub open spec fn processed_error_text(e: InvalidProcessedAgentDataError) -> Seq<char> {
    match e {
        InvalidProcessedAgentDataError::MissingAgentData => "Missing agent data"@,
        InvalidProcessedAgentDataError::InvalidAgentData(a) => "Invalid agent data: "@
            + agent_error_text(a),
    }
}

impl InvalidDateTimeError {
    pub fn message(&self) -> (r: &'static str)
        ensures
            r@ == "Out-of-range number of seconds and/or invalid nanosecond"@,
    {
        "Out-of-range number of seconds and/or invalid nanosecond"
    }
}

impl InvalidAgentDataError {
    /// The error's description, with the errors it wraps.
    pub fn message(&self) -> (r: String)
        ensures
            r@ == agent_error_text(*self),
    {
        match self {
            InvalidAgentDataError::MissingGps => String::from_str("Missing GPS data"),
            InvalidAgentDataError::MissingAccelerometer => String::from_str(
                "Missing accelerometer data",
            ),
            InvalidAgentDataError::MissingTimestamp => String::from_str("Missing timestamp"),
            InvalidAgentDataError::InvalidTimestamp(e) => {
                let mut s = String::from_str("Invalid timestamp: ");
                s.append(e.message());
                s
            },
            InvalidAgentDataError::InvalidGpsData(g) => {
                let mut s = String::from_str("Invalid GPS data: ");
                let inner = g.message();
                s.append(inner.as_str());
                s
            },
        }
    }
}

impl InvalidProcessedAgentDataError {
    /// The error's description, with the errors it wraps.
    pub fn message(&self) -> (r: String)
        ensures
            r@ == processed_error_text(*self),
    {
        match self {
            InvalidProcessedAgentDataError::MissingAgentData => String::from_str(
                "Missing agent data",
            ),
            InvalidProcessedAgentDataError::InvalidAgentData(a) => {
                let mut s = String::from_str("Invalid agent data: ");
                let inner = a.message();
                s.append(inner.as_str());
                s
            },
        }
    }
}

pub open spec fn gps_error(g: GpsData) -> Option<InvalidGpsDataError> {
    let lat = valid_latitude(g.latitude as int);
    let lon = valid_longitude(g.longitude as int);
    if lat && lon {
        None
    } else if lon {
        Some(InvalidGpsDataError::InvalidLatitude(InvalidLatitudeError))
    } else if lat {
        Some(InvalidGpsDataError::InvalidLongitude(InvalidLongitudeError))
    } else {
        Some(InvalidGpsDataError::Both(InvalidLatitudeError, InvalidLongitudeError))
    }
}

/// The first check that a wire raw record fails, in the order accelerometer,
/// GPS fix, timestamp.
pub open spec fn agent_error(p: AgentData) -> Option<InvalidAgentDataError> {
    if p.accelerometer is None {
        Some(InvalidAgentDataError::MissingAccelerometer)
    } else if p.gps is None {
        Some(InvalidAgentDataError::MissingGps)
    } else if gps_error(p.gps.unwrap()) is Some {
        Some(InvalidAgentDataError::InvalidGpsData(gps_error(p.gps.unwrap()).unwrap()))
    } else if p.timestamp is None {
        Some(InvalidAgentDataError::MissingTimestamp)
    } else if !utc_representable(
        p.timestamp.unwrap().seconds as int,
        p.timestamp.unwrap().nanos as int,
    ) {
        Some(InvalidAgentDataError::InvalidTimestamp(InvalidDateTimeError))
    } else {
        None
    }
}

pub open spec fn processed_error(p: ProcessedAgentData) -> Option<InvalidProcessedAgentDataError> {
    match p.agent {
        None => Some(InvalidProcessedAgentDataError::MissingAgentData),
        Some(a) => match agent_error(a) {
            Some(e) => Some(InvalidProcessedAgentDataError::InvalidAgentData(e)),
            None => None,
        },
    }
}

pub open spec fn gps_proto(g: Gps) -> GpsData {
    GpsData { latitude: g.latitude@ as i64, longitude: g.longitude@ as i64 }
}

pub open spec fn timestamp_proto(t: Timestamp) -> DateTimeUtc {
    DateTimeUtc { seconds: t@.0 as i64, nanos: t@.1 as u32 }
}

pub open spec fn agent_proto(a: Agent) -> AgentData {
    AgentData {
        accelerometer: Some(
            AccelerometerData { x: a.accelerometer.x, y: a.accelerometer.y, z: a.accelerometer.z },
        ),
        gps: Some(gps_proto(a.gps)),
        timestamp: Some(timestamp_proto(a.timestamp)),
    }
}

pub open spec fn processed_proto(r: ProcessedAgent) -> ProcessedAgentData {
    ProcessedAgentData {
        agent: Some(agent_proto(r.agent_data)),
        road_state: road_state_code(r.road_state),
    }
}

/// The wire record with its road-state code read the way decoding reads it.
pub open spec fn normalized(p: ProcessedAgentData) -> ProcessedAgentData {
    ProcessedAgentData {
        agent: p.agent,
        road_state: road_state_code(road_state_of_code(p.road_state)),
    }
}

impl ProcessedAgentData {
    /// The road state that the code stands for; an unknown code reads as
    /// smooth.
    pub fn road_state(&self) -> (r: RoadState)
        ensures
            r == RoadState::Rough <==> self.road_state == 1,
    {
        if self.road_state == 1 {
            RoadState::Rough
        } else {
            RoadState::Smooth
        }
    }
}

impl Accelerometer {
    pub fn from_proto(data: AccelerometerData) -> (r: Accelerometer)
        ensures
            r.x == data.x && r.y == data.y && r.z == data.z,
    {
        Accelerometer::new(data.x, data.y, data.z)
    }

    pub fn to_proto(&self) -> (r: AccelerometerData)
        ensures
            r.x == self.x && r.y == self.y && r.z == self.z,
    {
        AccelerometerData { x: self.x, y: self.y, z: self.z }
    }
}

impl Gps {
    pub fn from_proto(value: GpsData) -> (r: Result<Gps, InvalidGpsDataError>)
        ensures
            r is Err <==> gps_error(value) is Some,
            r matches Err(e) ==> gps_error(value) == Some(e),
            r matches Ok(g) ==> gps_proto(g) == value,
    {
        Gps::try_new(value.latitude, value.longitude)
    }

    pub fn to_proto(&self) -> (r: GpsData)
        ensures
            r == gps_proto(*self),
    {
        GpsData { latitude: self.latitude.nanodegrees(), longitude: self.longitude.nanodegrees() }
    }
}

impl Timestamp {
    pub fn from_proto(value: DateTimeUtc) -> (r: Result<Timestamp, InvalidDateTimeError>)
        ensures
            r is Ok <==> utc_representable(value.seconds as int, value.nanos as int),
            r matches Ok(t) ==> timestamp_proto(t) == value,
    {
        match Timestamp::new(value.seconds, value.nanos) {
            Some(t) => Ok(t),
            None => Err(InvalidDateTimeError),
        }
    }

    pub fn to_proto(&self) -> (r: DateTimeUtc)
        ensures
            r == timestamp_proto(*self),
    {
        DateTimeUtc { seconds: self.seconds(), nanos: self.nanos() }
    }
}

impl Agent {
    /// Checks a wire raw record: every part present, the fix in range and the
    /// instant representable.
    pub fn from_proto(value: AgentData) -> (r: Result<Agent, InvalidAgentDataError>)
        ensures
            r is Err <==> agent_error(value) is Some,
            r matches Err(e) ==> agent_error(value) == Some(e),
            r matches Ok(a) ==> agent_proto(a) == value,
    {
        let accelerometer = match value.accelerometer {
            Some(a) => Accelerometer::from_proto(a),
            None => return Err(InvalidAgentDataError::MissingAccelerometer),
        };
        let gps = match value.gps {
            Some(g) => match Gps::from_proto(g) {
                Ok(g) => g,
                Err(e) => return Err(InvalidAgentDataError::InvalidGpsData(e)),
            },
            None => return Err(InvalidAgentDataError::MissingGps),
        };
        let timestamp = match value.timestamp {
            Some(t) => match Timestamp::from_proto(t) {
                Ok(t) => t,
                Err(e) => return Err(InvalidAgentDataError::InvalidTimestamp(e)),
            },
            None => return Err(InvalidAgentDataError::MissingTimestamp),
        };
        Ok(Agent::new(accelerometer, gps, timestamp))
    }

    pub fn to_proto(&self) -> (r: AgentData)
        ensures
            r == agent_proto(*self),
    {
        AgentData {
            accelerometer: Some(self.accelerometer.to_proto()),
            gps: Some(self.gps.to_proto()),
            timestamp: Some(self.timestamp.to_proto()),
        }
    }
}

impl ProcessedAgent {
    /// Checks a wire classified record; the road state comes from its code.
    pub fn from_proto(value: ProcessedAgentData) -> (r: Result<
        ProcessedAgent,
        InvalidProcessedAgentDataError,
    >)
        ensures
            r is Err <==> processed_error(value) is Some,
            r matches Err(e) ==> processed_error(value) == Some(e),
            r matches Ok(p) ==> processed_proto(p) == normalized(value),
    {
        let road_state = value.road_state().to_domain();
        let agent_data = match value.agent {
            Some(a) => a,
            None => return Err(InvalidProcessedAgentDataError::MissingAgentData),
        };
        match Agent::from_proto(agent_data) {
            Ok(agent_data) => Ok(ProcessedAgent::new(agent_data, road_state)),
            Err(e) => Err(InvalidProcessedAgentDataError::InvalidAgentData(e)),
        }
    }

    pub fn to_proto(&self) -> (r: ProcessedAgentData)
        ensures
            r == processed_proto(*self),
    {
        let road_state: i32 = match self.road_state {
            domain::RoadState::Smooth => 0,
            domain::RoadState::Rough => 1,
        };
        ProcessedAgentData { agent: Some(self.agent_data.to_proto()), road_state }
    }
}

/// Whether every component of a record lies in its domain.
pub open spec fn record_in_range(r: ProcessedAgent) -> bool {
    &&& valid_latitude(r.agent_data.gps.latitude@)
    &&& valid_longitude(r.agent_data.gps.longitude@)
    &&& utc_representable(r.agent_data.timestamp@.0, r.agent_data.timestamp@.1)
}

/// Decoding the wire form of a record in range gives that record back: the
/// wire form passes every check, its road-state code reads back unchanged,
/// and any record that decoding may return for it is the one encoded.
pub proof fn lemma_from_proto_inverts_to_proto(r: ProcessedAgent, decoded: ProcessedAgent)
    requires
        record_in_range(r),
    ensures
        processed_error(processed_proto(r)) is None,
        normalized(processed_proto(r)) == processed_proto(r),
        processed_proto(decoded) == normalized(processed_proto(r)) ==> decoded == r,
{
    let a = r.agent_data;
    let b = decoded.agent_data;
    if processed_proto(decoded) == processed_proto(r) {
        assert(agent_proto(b) == agent_proto(a));
        assert(gps_proto(b.gps) == gps_proto(a.gps));
        Latitude::lemma_view_injective(a.gps.latitude, b.gps.latitude);
        Latitude::lemma_view_injective(b.gps.latitude, a.gps.latitude);
        Longitude::lemma_view_injective(a.gps.longitude, b.gps.longitude);
        Longitude::lemma_view_injective(b.gps.longitude, a.gps.longitude);
        Timestamp::lemma_view_injective(a.timestamp, b.timestamp);
        Timestamp::lemma_view_injective(b.timestamp, a.timestamp);
    }
}

} // verus!
