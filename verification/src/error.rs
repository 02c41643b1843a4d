//! Error classification and the error handler task's decision step.
//!
//! Every inbound system error is classified by the kind of sensor it names.
//! The classification is the single safety-relevant branch point of the
//! system and is exhaustive over the sensor kinds: adding a kind forces an
//! explicit severity here, never a default fall-through. A critical error
//! triggers the reflex synchronously, before the handler's loop returns to
//! its queue; a recoverable error is absorbed — the system keeps operating.

use vstd::prelude::*;

use crate::bus::LatestSignal;
use crate::led::LedCmd;
use crate::protocol::{MoveCmd, Sensor, SystemError};
use crate::reflex::{emergency_stop, SafetyState, FAST_BLINK_MS};

verus! {

/// How bad an error is: critical errors trigger the reflex, recoverable ones
/// leave the system running.
#[derive(Clone, Copy, Debug, PartialEq, Eq, Structural)]
pub enum Severity {
    /// The robot risks falling: stop at once.
    Critical,
    /// Degraded perception only: keep operating.
    Recoverable,
}

/// The severity of an error from each kind of sensor: a cliff sensor error is
/// critical (the robot risks falling); distance and IMU errors cost perception
/// only and are recoverable.
pub open spec fn severity_model(kind: Sensor) -> Severity {
    match kind {
        Sensor::Cliff => Severity::Critical,
        Sensor::Distance => Severity::Recoverable,
        Sensor::Imu => Severity::Recoverable,
    }
}

/// Classifies a sensor kind's error severity.
pub fn severity(kind: Sensor) -> (s: Severity)
    ensures
        s == severity_model(kind),
{
    match kind {
        Sensor::Cliff => Severity::Critical,
        Sensor::Distance => Severity::Recoverable,
        Sensor::Imu => Severity::Recoverable,
    }
}

/// One iteration of the error handler task, for one error received from the
/// error queue. A critical error — and only a critical error — triggers the
/// reflex: the safety machine stops, the LED signal gets the fast-blink alarm
/// and the movement signal the halt command. A recoverable error leaves all
/// of them untouched; the handler continues either way.
pub fn error_handler(
    err: SystemError,
    safety: &mut SafetyState,
    led_signal: &mut LatestSignal<LedCmd>,
    move_signal: &mut LatestSignal<MoveCmd>,
) -> (sev: Severity)
    ensures
        err matches SystemError::SensorError(kind) ==> sev == severity_model(kind),
        sev == Severity::Critical ==> {
            &&& *final(safety) == SafetyState::Stopped
            &&& final(led_signal)@ == Some(LedCmd::Blink(FAST_BLINK_MS))
            &&& final(move_signal)@ == Some((MoveCmd { left: 0, right: 0 }))
        },
        sev == Severity::Recoverable ==> {
            &&& *final(safety) == *old(safety)
            &&& final(led_signal)@ == old(led_signal)@
            &&& final(move_signal)@ == old(move_signal)@
        },
{
    match err {
        SystemError::SensorError(kind) => {
            let sev = severity(kind);
            match sev {
                Severity::Critical => {
                    emergency_stop(err, safety, led_signal, move_signal);
                },
                Severity::Recoverable => {
                    // Absorbed locally; forwarding a status notification
                    // upstream is future work.
                },
            }
            sev
        },
    }
}

/// Law: severity routing is exact. An error from the cliff sensor — and no
/// other kind — is critical, so a cliff sensor error always triggers the
/// reflex and a distance or IMU sensor error never does.
pub proof fn lemma_severity_routing(kind: Sensor)
    ensures
        severity_model(kind) == Severity::Critical <==> kind == Sensor::Cliff,
        severity_model(kind) == Severity::Recoverable <==> (kind == Sensor::Distance || kind
            == Sensor::Imu),
{
}

} // verus!
