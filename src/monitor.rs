//! The decisions of a scanning session: what to do with each advertisement
//! that the radio hears. Listening and printing are left to the caller.
use crate::reading::{decodes_to, frame_device, DecodeError, Reading};
use crate::tracker::{fresh_decision, FreshnessTracker};
use vstd::prelude::*;

verus! {

/// The company identifier under which Aranet sensors send their frames.
pub const MANUFACTURER_ID: u16 = 1794;

/// The 16-bit service identifier that Aranet sensors advertise.
pub const SERVICE_ID: u16 = 0xfce0;

/// What a session is for.
#[derive(Debug, Clone, Copy, PartialEq, Eq, Structural)]
pub enum RunMode {
    /// Forward the fresh measurements of the configured sensors.
    Influx,
    /// Report each Aranet sensor that is in reach.
    Find,
}

/// What to do with one advertisement.
#[derive(Debug, Clone, Copy)]
pub enum Action {
    /// Nothing.
    Skip,
    /// Report a sensor that the configuration names.
    FoundConfigured,
    /// Report a sensor that the configuration does not name, by its own name.
    FoundNamed,
    /// Report a sensor that the configuration does not name and that sent no
    /// name of its own.
    FoundUnnamed,
    /// A configured sensor sent no frame.
    MissingPayload,
    /// A configured sensor sent a frame that cannot be decoded.
    Rejected(DecodeError),
    /// A fresh measurement of a configured sensor, to forward.
    Emit(Reading),
}

/// The report of search mode on an advertisement that carries an Aranet
/// frame.
pub open spec fn found_action(configured: bool, named: bool) -> Action {
    if configured {
        Action::FoundConfigured
    } else if named {
        Action::FoundNamed
    } else {
        Action::FoundUnnamed
    }
}

/// A scanning session: its mode and the freshness state of its sensors.
pub struct Monitor {
    mode: RunMode,
    tracker: FreshnessTracker,
}

impl Monitor {
    /// What the session is for.
    pub closed spec fn run_mode(&self) -> RunMode {
        self.mode
    }

    /// The last accepted measurement of each sensor.
    pub closed spec fn last(&self) -> Map<u64, Reading> {
        self.tracker@
    }

    /// A session that has accepted nothing yet.
    pub fn new(mode: RunMode) -> (r: Monitor)
        ensures
            r.run_mode() == mode,
            r.last() == Map::<u64, Reading>::empty(),
    {
        Monitor { mode, tracker: FreshnessTracker::new() }
    }

    /// What the session is for.
    pub fn mode(&self) -> (r: RunMode)
        ensures
            r == self.run_mode(),
    {
        self.mode
    }

    /// The last measurement accepted from `address`.
    pub fn last_reading(&self, address: u64) -> (r: Option<&Reading>)
        ensures
            match r {
                Some(m) => self.last().contains_key(address) && *m == self.last()[address],
                None => !self.last().contains_key(address),
            },
    {
        self.tracker.last_reading(address)
    }

    /// Decides what to do with an advertisement from `address`, where
    /// `configured` tells whether the configuration names that sensor, `named`
    /// whether the sensor sent a name of its own, and `payload` is the frame
    /// sent under the Aranet company identifier, if any.
    pub fn handle(&mut self, address: u64, configured: bool, named: bool, payload: Option<&[u8]>) -> (a: Action)
        ensures
            final(self).run_mode() == old(self).run_mode(),
            !(a is Emit) ==> final(self).last() == old(self).last(),
            old(self).run_mode() == RunMode::Find ==> a == if payload is Some {
                found_action(configured, named)
            } else {
                Action::Skip
            },
            old(self).run_mode() == RunMode::Influx && !configured ==> a is Skip,
            old(self).run_mode() == RunMode::Influx && configured && payload is None ==> a is MissingPayload,
            old(self).run_mode() == RunMode::Influx && configured && payload is Some ==> {
                let b = payload->0@;
                match a {
                    Action::Rejected(e) => frame_device(b) is Err ==> e == frame_device(b)->Err_0,
                    _ => frame_device(b) is Ok,
                }
            },
            old(self).run_mode() == RunMode::Influx && configured && payload is Some && frame_device(
                payload->0@,
            ) is Ok ==> match a {
                Action::Rejected(e) => e == DecodeError::ClockUnderflow,
                Action::Emit(m) => {
                    &&& decodes_to(payload->0@, m)
                    &&& fresh_decision(old(self).last(), address, m, true)
                    &&& final(self).last() == old(self).last().insert(address, m)
                },
                Action::Skip => exists|m: Reading|
                    decodes_to(payload->0@, m) && #[trigger] fresh_decision(
                        old(self).last(),
                        address,
                        m,
                        false,
                    ),
                _ => false,
            },
    {
        match self.mode {
            RunMode::Find => {
                if payload.is_none() {
                    Action::Skip
                } else if configured {
                    Action::FoundConfigured
                } else if named {
                    Action::FoundNamed
                } else {
                    Action::FoundUnnamed
                }
            },
            RunMode::Influx => {
                if !configured {
                    return Action::Skip;
                }
                let raw = match payload {
                    Some(raw) => raw,
                    None => return Action::MissingPayload,
                };
                let reading = match Reading::decode(raw) {
                    Ok(r) => r,
                    Err(e) => return Action::Rejected(e),
                };
                let ghost before = self.tracker@;
                if self.tracker.offer(address, reading) {
                    Action::Emit(reading)
                } else {
                    assert(decodes_to(raw@, reading) && fresh_decision(
                        before,
                        address,
                        reading,
                        false,
                    ));
                    Action::Skip
                }
            },
        }
    }
}

} // verus!
