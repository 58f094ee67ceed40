//! The edge classifier: tags each raw record as smooth or rough from the jerk
//! along the vertical axis since the previous record.
use vstd::prelude::*;

use crate::domain::{
    lemma_interval_positive_iff_later, nanos_between, not_after, utc_representable, Agent, ProcessedAgent,
    RoadState, NANOS_PER_SECOND,
};

verus! {

/// Jerk, in mm/s³, above which the road counts as rough.
pub const ROUGH_JERK: i128 = 1000;

pub open spec fn abs(v: int) -> int {
    if v < 0 {
        -v
    } else {
        v
    }
}

/// Whether the step from `previous` to `current` is rough: the interval is
/// positive and the vertical jerk exceeds `ROUGH_JERK` in magnitude.
///
/// With `dz` in nm/s² (10^-6 mm/s²) and `dt` in nanoseconds (10^-9 s), the
/// jerk in mm/s³ is `dz * 1000 / dt`; the comparison is made without dividing.
pub open spec fn is_rough(previous: Agent, current: Agent) -> bool {
    let dt = nanos_between(previous.timestamp@, current.timestamp@);
    let dz = current.accelerometer.z - previous.accelerometer.z;
    dt > 0 && abs(dz) * 1000 > ROUGH_JERK * dt
}

/// The road state of `current` given the record before it, if any.
pub open spec fn classify_spec(current: Agent, previous: Option<Agent>) -> RoadState {
    match previous {
        Some(p) => if is_rough(p, current) {
            RoadState::Rough
        } else {
            RoadState::Smooth
        },
        None => RoadState::Smooth,
    }
}

/// A record that comes no later than the one before it is smooth, whatever
/// its acceleration: the interval between them is not positive.
pub proof fn lemma_not_later_is_smooth(previous: Agent, current: Agent)
    requires
        utc_representable(previous.timestamp@.0, previous.timestamp@.1),
        utc_representable(current.timestamp@.0, current.timestamp@.1),
        not_after(current.timestamp@, previous.timestamp@),
    ensures
        classify_spec(current, Some(previous)) == RoadState::Smooth,
{
    lemma_interval_positive_iff_later(previous.timestamp@, current.timestamp@);
}

/// Classifies `current_data` against the record that came before it.
pub fn process_agent_data(current_data: Agent, prev_data: Option<&Agent>) -> (r: ProcessedAgent)
    ensures
        r.agent_data == current_data,
        r.road_state == classify_spec(
            current_data,
            match prev_data {
                Some(p) => Some(*p),
                None => None,
            },
        ),
{
    let road_state = match prev_data {
        None => RoadState::default(),
        Some(prev) => {
            let t1 = prev.timestamp();
            let t2 = current_data.timestamp();
            let (s1, n1) = (t1.seconds(), t1.nanos());
            let (s2, n2) = (t2.seconds(), t2.nanos());
            let leap: i128 = if s2 > s1 && n1 >= NANOS_PER_SECOND {
                1
            } else if s2 < s1 && n2 >= NANOS_PER_SECOND {
                -1
            } else {
                0
            };
            let dt: i128 = (s2 as i128 - s1 as i128 + leap) * 1_000_000_000i128 + (n2 as i128
                - n1 as i128);
            let dz: i128 = current_data.accelerometer().z() as i128
                - prev.accelerometer().z() as i128;
            let magnitude: i128 = if dz < 0 {
                -dz
            } else {
                dz
            };
            if dt > 0 && magnitude * 1000 > ROUGH_JERK * dt {
                RoadState::Rough
            } else {
                RoadState::Smooth
            }
        },
    };
    ProcessedAgent::new(current_data, road_state)
}

/// A source of raw records: each message it receives is handed to
/// `on_message`.
pub trait AgentGateway {
    type Message;

    fn on_message(&mut self, message: Self::Message);
}

/// The classifier's one record of history.
pub struct EdgeClassifier {
    previous: Option<Agent>,
}

impl View for EdgeClassifier {
    type V = Option<Agent>;

    closed spec fn view(&self) -> Option<Agent> {
        self.previous
    }
}

impl EdgeClassifier {
    /// A classifier with no history.
    pub fn new() -> (r: EdgeClassifier)
        ensures
            r@ is None,
    {
        EdgeClassifier { previous: None }
    }

    /// Classifies `current` against the history, then makes it the history.
    pub fn classify(&mut self, current: Agent) -> (r: ProcessedAgent)
        ensures
            r.agent_data == current,
            r.road_state == classify_spec(current, old(self)@),
            final(self)@ == Some(current),
    {
        let r = match &self.previous {
            Some(p) => process_agent_data(current, Some(p)),
            None => process_agent_data(current, None),
        };
        self.previous = Some(current);
        r
    }
}

} // verus!
