//! The agent's replay source: two files read in lockstep, one accelerometer
//! row and one GPS row making one raw record, both files starting over when
//! either runs out.
use vstd::prelude::*;

use crate::domain::{Accelerometer, Agent, Gps, Timestamp};

verus! {

/// A source that has not opened its files yet.
pub struct New;

/// A source that is reading its files.
pub struct Reading {
    rewound: bool,
}

/// A replay source over an accelerometer file and a GPS file, in state `S`.
pub struct FileDatasource<S> {
    accelerometer_filename: String,
    gps_filename: String,
    state: S,
}

/// What to do after one read from each file.
#[derive(Debug, Clone, Copy, PartialEq, Eq, Structural)]
pub enum ReadStep {
    /// Both files gave a row: here is the record they make.
    Record(Agent),
    /// A file ran out: seek both to their first row and read again.
    Rewind,
    /// A file ran out again right after a rewind: it has no rows.
    Exhausted,
}

impl<S> FileDatasource<S> {
    pub closed spec fn accelerometer_file(&self) -> Seq<char> {
        self.accelerometer_filename@
    }

    pub closed spec fn gps_file(&self) -> Seq<char> {
        self.gps_filename@
    }

    pub fn accelerometer_filename(&self) -> (r: &str)
        ensures
            r@ == self.accelerometer_file(),
    {
        self.accelerometer_filename.as_str()
    }

    pub fn gps_filename(&self) -> (r: &str)
        ensures
            r@ == self.gps_file(),
    {
        self.gps_filename.as_str()
    }
}

impl FileDatasource<New> {
    pub fn new(accelerometer_filename: String, gps_filename: String) -> (r: FileDatasource<New>)
        ensures
            r.accelerometer_file() == accelerometer_filename@,
            r.gps_file() == gps_filename@,
    {
        FileDatasource { accelerometer_filename, gps_filename, state: New }
    }

    /// Starts reading, from the first row of each file.
    pub fn start_reading(self) -> (r: FileDatasource<Reading>)
        ensures
            r.accelerometer_file() == self.accelerometer_file(),
            r.gps_file() == self.gps_file(),
            !r.rewound(),
    {
        FileDatasource {
            accelerometer_filename: self.accelerometer_filename,
            gps_filename: self.gps_filename,
            state: Reading { rewound: false },
        }
    }
}

impl FileDatasource<Reading> {
    /// Whether the files were rewound with no record read since.
    pub closed spec fn rewound(&self) -> bool {
        self.state.rewound
    }

    /// Takes the row read from each file (none at its end) and the current
    /// instant, and says what comes next.
    pub fn read(&mut self, accelerometer: Option<Accelerometer>, gps: Option<Gps>, now: Timestamp) -> (r:
        ReadStep)
        ensures
            final(self).accelerometer_file() == old(self).accelerometer_file(),
            final(self).gps_file() == old(self).gps_file(),
            (accelerometer, gps) matches (Some(a), Some(g)) ==> r == ReadStep::Record(
                Agent { accelerometer: a, gps: g, timestamp: now },
            ) && !final(self).rewound(),
            (accelerometer is None || gps is None) ==> if old(self).rewound() {
                r == ReadStep::Exhausted && final(self).rewound()
            } else {
                r == ReadStep::Rewind && final(self).rewound()
            },
    {
        match (accelerometer, gps) {
            (Some(a), Some(g)) => {
                self.state.rewound = false;
                ReadStep::Record(Agent::new(a, g, now))
            },
            _ => {
                if self.state.rewound {
                    ReadStep::Exhausted
                } else {
                    self.state.rewound = true;
                    ReadStep::Rewind
                }
            },
        }
    }

    /// Stops reading; the files can be read again from the start.
    pub fn stop_reading(self) -> (r: FileDatasource<New>)
        ensures
            r.accelerometer_file() == self.accelerometer_file(),
            r.gps_file() == self.gps_file(),
    {
        FileDatasource {
            accelerometer_filename: self.accelerometer_filename,
            gps_filename: self.gps_filename,
            state: New,
        }
    }
}

} // verus!
