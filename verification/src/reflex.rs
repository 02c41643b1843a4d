//! The safety reflex: the emergency-stop trigger.
//!
//! The reflex is invoked synchronously from the error handler's loop and never
//! suspends: it only writes latest-value signals, which never block, so the
//! safety action is applied before any other queued work is processed. It
//! raises the visual alarm (a fast blink), commands the actuators to halt, and
//! moves the safety machine to its stopped state.

use vstd::prelude::*;

use crate::bus::{signal_model, LatestSignal};
use crate::led::LedCmd;
use crate::protocol::{MoveCmd, SystemError};

verus! {

/// Half-period of the visual alarm's fast blink, in milliseconds.
pub const FAST_BLINK_MS: u64 = 10;

/// The two-state safety machine: normal operation, or stopped after an
/// emergency.
#[derive(Clone, Copy, Debug, PartialEq, Eq, Structural)]
pub enum SafetyState {
    Normal,
    Stopped,
}

/// Triggers an emergency stop due to the given cause: the LED signal gets the
/// fast-blink alarm, the movement signal gets the halt command (overwriting
/// any pending movement — the latest value wins), and the safety machine
/// stops. Overwrites preempt whatever the LED or the motors were doing.
pub fn emergency_stop(
    _cause: SystemError,
    safety: &mut SafetyState,
    led_signal: &mut LatestSignal<LedCmd>,
    move_signal: &mut LatestSignal<MoveCmd>,
)
    ensures
        *final(safety) == SafetyState::Stopped,
        final(led_signal)@ == signal_model(old(led_signal)@, LedCmd::Blink(FAST_BLINK_MS)),
        final(move_signal)@ == signal_model(old(move_signal)@, (MoveCmd { left: 0, right: 0 })),
{
    led_signal.signal(LedCmd::Blink(FAST_BLINK_MS));
    move_signal.signal(MoveCmd::stop());
    *safety = SafetyState::Stopped;
}

} // verus!
