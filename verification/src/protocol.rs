//! Message types exchanged between the tasks and with the host system.
//!
//! Speeds are fixed-point values in thousandths of full scale (per-mille):
//! `1000` means full speed forward, `-1000` full speed reverse. Times and
//! intervals are in milliseconds.

use vstd::prelude::*;

verus! {

/// The kinds of sensor the robot carries.
#[derive(Clone, Copy, Debug, PartialEq, Eq, Structural)]
pub enum Sensor {
    /// Measures distance, detects obstacles.
    Distance,
    /// Detects no ground under the robot (cliffs, stairs).
    Cliff,
    /// Inertial measurement unit, measures acceleration and rotation.
    Imu,
}

/// Status events reported upstream to the host system.
#[derive(Clone, Copy, Debug, PartialEq, Eq, Structural)]
pub enum EngineEvent {
    Ready,
    EmergencyStop,
    LowBattery,
    Unavailable(Sensor),
}

/// Command to control the movement of the robot.
///
/// Values outside `[-1000, 1000]` are accepted here and clamped at the
/// actuator boundary, not at construction.
#[derive(Clone, Copy, Debug, PartialEq, Eq, Structural)]
pub struct MoveCmd {
    /// Left side speed in per-mille of full scale (forward positive).
    pub left: i32,
    /// Right side speed in per-mille of full scale (forward positive).
    pub right: i32,
}

impl MoveCmd {
    /// The command that halts both sides.
    pub fn stop() -> (c: MoveCmd)
        ensures
            c == (MoveCmd { left: 0, right: 0 }),
    {
        MoveCmd { left: 0, right: 0 }
    }
}

/// Subscribe commands for the various sensors, with the poll interval in
/// milliseconds. An interval of zero disables polling for that sensor kind.
#[derive(Clone, Copy, Debug, PartialEq, Eq, Structural)]
pub enum SensorCmd {
    SubscribeTo { sensor: Sensor, poll_interval_ms: u64 },
}

/// Telemetry data from the distance sensors, in millimeters.
#[derive(Clone, Copy, Debug, PartialEq, Eq, Structural)]
pub enum Telemetry {
    DistanceFront { mm: u16 },
    DistanceBack { mm: u16 },
}

/// Inner system errors routed to the error handler task.
#[derive(Clone, Copy, Debug, PartialEq, Eq, Structural)]
pub enum SystemError {
    /// A sensor of the given kind failed (bus error or sensor not responding).
    SensorError(Sensor),
}

} // verus!
