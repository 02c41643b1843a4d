//! The adaptive multi-sensor polling scheduler.
//!
//! One cooperative task polls every distance sensor at its own cadence.
//! Each sensor carries a poll state: an interval and the next time it is due,
//! both in milliseconds; the sentinel `NEVER` disables polling until the first
//! subscription arrives. Each loop iteration reads every sensor that is due,
//! emits telemetry on success or a sensor error on failure, reschedules the
//! sensor either way (so a persistently failing sensor never busy-loops), and
//! then suspends up to the earliest next due time, racing against the arrival
//! of a subscription command. The hardware read itself is a gateway outside
//! this crate: the runtime performs it and hands the outcome to `poll_cycle`.

use vstd::prelude::*;

use crate::protocol::{Sensor, SensorCmd, SystemError, Telemetry};

verus! {

/// Sentinel instant and interval: polling disabled, never due.
pub const NEVER: u64 = 0xffff_ffff_ffff_ffff;

/// How a sensor read failed at the gateway boundary. The distinction is for
/// logging only; the scheduler collapses both into one sensor error.
#[derive(Clone, Copy, Debug, PartialEq, Eq, Structural)]
pub enum SensorFault {
    /// The device did not identify itself or rejected its address.
    InvalidDeviceOrAddress,
    /// The bus is unavailable or the device timed out.
    Unavailable,
}

/// A failed sensor read.
#[derive(Clone, Copy, Debug, PartialEq, Eq, Structural)]
pub struct SensorError(pub SensorFault);

/// The sum `a + b` held at the never-due sentinel.
pub open spec fn saturating_add(a: int, b: int) -> int {
    if a + b >= NEVER {
        NEVER as int
    } else {
        a + b
    }
}

/// Scheduling state of one sensor: its poll interval and the next time it is
/// due, in milliseconds. Owned exclusively by the polling task.
#[derive(Clone, Copy, Debug, PartialEq, Eq, Structural)]
pub struct PollState {
    /// Milliseconds between polls; `NEVER` disables polling.
    pub poll_interval: u64,
    /// The next time the sensor is due; `NEVER` when polling is disabled.
    pub next_poll_at: u64,
}

impl PollState {
    /// The initial state: polling disabled until the first subscription.
    pub fn new() -> (s: PollState)
        ensures
            s == (PollState { poll_interval: NEVER, next_poll_at: NEVER }),
    {
        PollState { poll_interval: NEVER, next_poll_at: NEVER }
    }

    /// Whether the sensor is due to be polled at the given time.
    pub fn ready(&self, now: u64) -> (r: bool)
        ensures
            r == (now >= self.next_poll_at),
    {
        now >= self.next_poll_at
    }

    /// Sets the polling interval. A positive interval makes the sensor due
    /// immediately; a zero interval disables polling.
    pub fn set_poll_interval(&mut self, interval_ms: u64, now: u64)
        ensures
            interval_ms > 0 ==> *final(self) == (PollState {
                poll_interval: interval_ms,
                next_poll_at: now,
            }),
            interval_ms == 0 ==> *final(self) == (PollState {
                poll_interval: NEVER,
                next_poll_at: NEVER,
            }),
    {
        if interval_ms == 0 {
            self.poll_interval = NEVER;
            self.next_poll_at = NEVER;
        } else {
            self.poll_interval = interval_ms;
            self.next_poll_at = now;
        }
    }

    /// Reschedules the sensor one interval past the given time and returns the
    /// new due time. A disabled sensor stays never due.
    pub fn update_next_poll_at(&mut self, now: u64) -> (t: u64)
        ensures
            final(self).poll_interval == old(self).poll_interval,
            final(self).next_poll_at == saturating_add(now as int, old(self).poll_interval as int),
            t == final(self).next_poll_at,
    {
        self.next_poll_at = match now.checked_add(self.poll_interval) {
            Some(t) => t,
            None => NEVER,
        };
        self.next_poll_at
    }

    /// The next time the sensor is due.
    pub fn next_poll_at(&self) -> (t: u64)
        ensures
            t == self.next_poll_at,
    {
        self.next_poll_at
    }
}

/// Which physical distance sensor a reading came from.
#[derive(Clone, Copy, Debug, PartialEq, Eq, Structural)]
pub enum DistancePosition {
    Front,
    Back,
}

/// What one loop iteration of the polling task emits for one due sensor.
#[derive(Clone, Copy, Debug, PartialEq, Eq, Structural)]
pub enum Emission {
    /// A successful reading, bound for the telemetry queue.
    Report(Telemetry),
    /// A failed reading, bound for the error queue.
    Fault(SystemError),
}

/// The telemetry variant a successful reading of the given sensor becomes.
pub open spec fn telemetry_of(pos: DistancePosition, mm: u16) -> Telemetry {
    match pos {
        DistancePosition::Front => Telemetry::DistanceFront { mm },
        DistancePosition::Back => Telemetry::DistanceBack { mm },
    }
}

/// What one read outcome emits: telemetry carrying the reading on success; on
/// failure, whatever the fault, one distance sensor error.
pub open spec fn emission_of(pos: DistancePosition, read: Result<u16, SensorError>) -> Emission {
    match read {
        Ok(mm) => Emission::Report(telemetry_of(pos, mm)),
        Err(_) => Emission::Fault(SystemError::SensorError(Sensor::Distance)),
    }
}

/// The smaller of two times.
pub open spec fn min_time(a: int, b: int) -> int {
    if a <= b {
        a
    } else {
        b
    }
}

/// Refusal of a subscription command the scheduler does not support.
#[derive(Clone, Copy, Debug, PartialEq, Eq, Structural)]
pub enum SubscribeError {
    /// Subscriptions for this sensor kind are not implemented.
    Unsupported(Sensor),
}

/// The scheduler's view of the two distance sensors it polls.
#[derive(Clone, Copy, Debug, PartialEq, Eq, Structural)]
pub struct SensorPoller {
    /// Poll state of the front distance sensor.
    pub front: PollState,
    /// Poll state of the back distance sensor.
    pub back: PollState,
}

/// The state one sensor is left in by one loop iteration: rescheduled one
/// interval past `now` when it was due, untouched otherwise.
pub open spec fn polled_state(s: PollState, now: int, was_due: bool) -> PollState {
    if was_due {
        PollState {
            poll_interval: s.poll_interval,
            next_poll_at: saturating_add(now, s.poll_interval as int) as u64,
        }
    } else {
        s
    }
}

/// What one loop iteration emits for one sensor: exactly one emission when the
/// sensor was due, nothing otherwise.
pub open spec fn polled_emissions(
    pos: DistancePosition,
    read: Option<Result<u16, SensorError>>,
) -> Seq<Emission> {
    match read {
        Some(r) => seq![emission_of(pos, r)],
        None => Seq::empty(),
    }
}

impl SensorPoller {
    /// Creates the scheduler with both sensors' polling disabled.
    pub fn new() -> (p: SensorPoller)
        ensures
            p.front == (PollState { poll_interval: NEVER, next_poll_at: NEVER }),
            p.back == (PollState { poll_interval: NEVER, next_poll_at: NEVER }),
    {
        SensorPoller { front: PollState::new(), back: PollState::new() }
    }

    /// One loop iteration of the polling task at time `now`. The runtime reads
    /// each due sensor and passes the outcome (`None` for a sensor that is not
    /// due). Every due sensor yields exactly one emission — telemetry or a
    /// sensor error — in front-then-back order, and is rescheduled one
    /// interval ahead whether the read succeeded or failed. Returns the
    /// emissions and the deadline to suspend until: the earliest next due
    /// time, racing against command arrival.
    pub fn poll_cycle(
        &mut self,
        now: u64,
        front_read: Option<Result<u16, SensorError>>,
        back_read: Option<Result<u16, SensorError>>,
    ) -> (r: (Vec<Emission>, u64))
        requires
            front_read is Some <==> now >= old(self).front.next_poll_at,
            back_read is Some <==> now >= old(self).back.next_poll_at,
        ensures
            final(self).front == polled_state(old(self).front, now as int, front_read is Some),
            final(self).back == polled_state(old(self).back, now as int, back_read is Some),
            r.0@ == polled_emissions(DistancePosition::Front, front_read) + polled_emissions(
                DistancePosition::Back,
                back_read,
            ),
            r.1 == min_time(final(self).front.next_poll_at as int, final(self).back.next_poll_at as int),
    {
        let mut emissions: Vec<Emission> = Vec::new();

        match front_read {
            Some(Ok(mm)) => emissions.push(Emission::Report(Telemetry::DistanceFront { mm })),
            Some(Err(_)) => emissions.push(
                Emission::Fault(SystemError::SensorError(Sensor::Distance)),
            ),
            None => (),
        }
        if front_read.is_some() {
            self.front.update_next_poll_at(now);
        }

        match back_read {
            Some(Ok(mm)) => emissions.push(Emission::Report(Telemetry::DistanceBack { mm })),
            Some(Err(_)) => emissions.push(
                Emission::Fault(SystemError::SensorError(Sensor::Distance)),
            ),
            None => (),
        }
        if back_read.is_some() {
            self.back.update_next_poll_at(now);
        }

        proof {
            assert(emissions@ =~= polled_emissions(DistancePosition::Front, front_read)
                + polled_emissions(DistancePosition::Back, back_read));
        }

        let deadline: u64 = if self.front.next_poll_at <= self.back.next_poll_at {
            self.front.next_poll_at
        } else {
            self.back.next_poll_at
        };
        (emissions, deadline)
    }

    /// Handles one subscription command. A distance subscription sets the poll
    /// interval of every distance sensor uniformly — both become due at once
    /// (or both disabled, for a zero interval). Cliff and IMU subscriptions
    /// are unsupported and are refused loudly, leaving the schedule untouched.
    pub fn handle_command(&mut self, cmd: SensorCmd, now: u64) -> (r: Result<(), SubscribeError>)
        ensures
            cmd matches SensorCmd::SubscribeTo { sensor: Sensor::Distance, poll_interval_ms } ==> {
                &&& r is Ok
                &&& final(self).front == final(self).back
                &&& poll_interval_ms > 0 ==> final(self).front == (PollState {
                    poll_interval: poll_interval_ms,
                    next_poll_at: now,
                })
                &&& poll_interval_ms == 0 ==> final(self).front == (PollState {
                    poll_interval: NEVER,
                    next_poll_at: NEVER,
                })
            },
            cmd matches SensorCmd::SubscribeTo { sensor: Sensor::Cliff, .. } ==> r == Err::<
                (),
                SubscribeError,
            >(SubscribeError::Unsupported(Sensor::Cliff)) && *final(self) == *old(self),
            cmd matches SensorCmd::SubscribeTo { sensor: Sensor::Imu, .. } ==> r == Err::<
                (),
                SubscribeError,
            >(SubscribeError::Unsupported(Sensor::Imu)) && *final(self) == *old(self),
    {
        match cmd {
            SensorCmd::SubscribeTo { sensor: Sensor::Distance, poll_interval_ms } => {
                self.front.set_poll_interval(poll_interval_ms, now);
                self.back.set_poll_interval(poll_interval_ms, now);
                Ok(())
            },
            SensorCmd::SubscribeTo { sensor: Sensor::Cliff, .. } => Err(
                SubscribeError::Unsupported(Sensor::Cliff),
            ),
            SensorCmd::SubscribeTo { sensor: Sensor::Imu, .. } => Err(
                SubscribeError::Unsupported(Sensor::Imu),
            ),
        }
    }
}

} // verus!
