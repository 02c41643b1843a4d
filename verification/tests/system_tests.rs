use robot_core::bus::EventBus;
use robot_core::chassis::{SideDrive, SkidSteer};
use robot_core::error::{error_handler, severity, Severity};
use robot_core::led::{led_initial, led_output, led_step, LedCmd, LedEvent};
use robot_core::protocol::{MoveCmd, Sensor, SensorCmd, SystemError, Telemetry};
use robot_core::reflex::{emergency_stop, SafetyState, FAST_BLINK_MS};
use robot_core::sensors::{Emission, SensorPoller};

#[test]
fn severity_classification_is_exhaustive() {
    assert_eq!(severity(Sensor::Cliff), Severity::Critical);
    assert_eq!(severity(Sensor::Distance), Severity::Recoverable);
    assert_eq!(severity(Sensor::Imu), Severity::Recoverable);
}

#[test]
fn cliff_error_triggers_reflex() {
    let mut bus = EventBus::new();
    let mut safety = SafetyState::Normal;
    let sev = error_handler(
        SystemError::SensorError(Sensor::Cliff),
        &mut safety,
        &mut bus.led_signal,
        &mut bus.move_signal,
    );
    assert_eq!(sev, Severity::Critical);
    assert_eq!(safety, SafetyState::Stopped);
    assert_eq!(bus.led_signal.try_take(), Some(LedCmd::Blink(FAST_BLINK_MS)));
    assert_eq!(bus.move_signal.try_take(), Some(MoveCmd { left: 0, right: 0 }));
}

#[test]
fn recoverable_errors_never_trigger_reflex() {
    let mut bus = EventBus::new();
    let mut safety = SafetyState::Normal;
    for kind in [Sensor::Distance, Sensor::Imu] {
        let sev = error_handler(
            SystemError::SensorError(kind),
            &mut safety,
            &mut bus.led_signal,
            &mut bus.move_signal,
        );
        assert_eq!(sev, Severity::Recoverable);
        assert_eq!(safety, SafetyState::Normal);
        assert!(!bus.led_signal.signaled());
        assert!(!bus.move_signal.signaled());
    }
}

#[test]
fn reflex_overwrites_pending_led_and_movement() {
    // The alarm preempts any prior LED pattern and any pending movement:
    // latest value wins on both signals.
    let mut bus = EventBus::new();
    let mut safety = SafetyState::Normal;
    bus.led_signal.signal(LedCmd::Blink(500));
    bus.move_signal.signal(MoveCmd { left: 800, right: 800 });
    emergency_stop(
        SystemError::SensorError(Sensor::Cliff),
        &mut safety,
        &mut bus.led_signal,
        &mut bus.move_signal,
    );
    assert_eq!(bus.led_signal.try_take(), Some(LedCmd::Blink(10)));
    assert_eq!(bus.move_signal.try_take(), Some(MoveCmd { left: 0, right: 0 }));
    assert_eq!(safety, SafetyState::Stopped);
}

#[test]
fn subscribe_poll_and_reschedule_end_to_end() {
    // Subscribe Distance at 100 ms at t=0; the front read succeeds with 250 mm
    // at t=100: DistanceFront{250} is emitted and the front sensor's next poll
    // lands at t=200.
    let mut poller = SensorPoller::new();
    let mut bus = EventBus::new();
    assert_eq!(
        poller.handle_command(
            SensorCmd::SubscribeTo { sensor: Sensor::Distance, poll_interval_ms: 100 },
            0,
        ),
        Ok(())
    );
    // t = 0: both due at once after the subscription.
    let (em, deadline) = poller.poll_cycle(0, Some(Ok(240)), Some(Ok(400)));
    assert_eq!(em.len(), 2);
    assert_eq!(deadline, 100);
    // t = 100: both due again; route the emissions onto the bus queues.
    let (em, deadline) = poller.poll_cycle(100, Some(Ok(250)), Some(Ok(410)));
    for e in em {
        match e {
            Emission::Report(t) => assert!(bus.telemetry_ch.try_send(t)),
            Emission::Fault(err) => assert!(bus.error_ch.try_send(err)),
        }
    }
    assert_eq!(
        bus.telemetry_ch.try_receive(),
        Some(Telemetry::DistanceFront { mm: 250 })
    );
    assert_eq!(
        bus.telemetry_ch.try_receive(),
        Some(Telemetry::DistanceBack { mm: 410 })
    );
    assert_eq!(poller.front.next_poll_at, 200);
    assert_eq!(deadline, 200);
}

#[test]
fn blink_then_emergency_preempts_pattern() {
    // Blink(50) at t=0 gives on/off/on at t=0/50/100; a cliff error then
    // replaces the pattern with the fast alarm immediately.
    let mut bus = EventBus::new();
    let mut safety = SafetyState::Normal;
    bus.led_signal.signal(LedCmd::Blink(50));

    let mut phase = led_initial();
    let cmd = bus.led_signal.try_take().unwrap();
    phase = led_step(phase, LedEvent::Command(cmd));
    assert!(led_output(&phase)); // t = 0: on
    phase = led_step(phase, LedEvent::TimeoutElapsed);
    assert!(!led_output(&phase)); // t = 50: off
    phase = led_step(phase, LedEvent::TimeoutElapsed);
    assert!(led_output(&phase)); // t = 100: on

    error_handler(
        SystemError::SensorError(Sensor::Cliff),
        &mut safety,
        &mut bus.led_signal,
        &mut bus.move_signal,
    );
    let cmd = bus.led_signal.try_take().unwrap();
    assert_eq!(cmd, LedCmd::Blink(10));
    phase = led_step(phase, LedEvent::Command(cmd));
    assert!(led_output(&phase)); // alarm starts lit, half-period 10 ms
}

#[test]
fn movement_signal_to_actuator_end_to_end() {
    // MoveCommand{left: 1.5, right: -2.0} in full-scale units is 1500 and
    // -2000 per-mille; the actuator applies full forward / full reverse.
    let mut bus = EventBus::new();
    let mut chassis = SkidSteer::new(1000);
    bus.move_signal.signal(MoveCmd { left: 1500, right: -2000 });
    let cmd = bus.move_signal.try_take().unwrap();
    robot_core::chassis::movement_handler(&mut chassis, cmd);
    assert_eq!(chassis.left, SideDrive { forward_duty: 1000, reverse_duty: 0 });
    assert_eq!(chassis.right, SideDrive { forward_duty: 0, reverse_duty: 1000 });
}
