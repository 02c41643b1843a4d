use robot_core::bus::{BoundedQueue, EventBus, LatestSignal, QUEUE_CAPACITY};
use robot_core::led::LedCmd;
use robot_core::protocol::{Sensor, SystemError};

#[test]
fn signal_coalesces_to_latest_write() {
    let mut sig: LatestSignal<LedCmd> = LatestSignal::new();
    sig.signal(LedCmd::On);
    sig.signal(LedCmd::Off);
    sig.signal(LedCmd::Blink(100));
    assert_eq!(sig.try_take(), Some(LedCmd::Blink(100)));
    assert_eq!(sig.try_take(), None);
}

#[test]
fn signal_starts_empty_and_reports_pending() {
    let mut sig: LatestSignal<u32> = LatestSignal::new();
    assert!(!sig.signaled());
    assert_eq!(sig.try_take(), None);
    sig.signal(7);
    assert!(sig.signaled());
    assert_eq!(sig.try_take(), Some(7));
    assert!(!sig.signaled());
}

#[test]
fn full_queue_refuses_then_accepts_after_drain() {
    let mut q: BoundedQueue<u32> = BoundedQueue::new(QUEUE_CAPACITY);
    for i in 0..QUEUE_CAPACITY as u32 {
        assert!(q.try_send(i));
    }
    assert!(q.is_full());
    // The writer is refused, nothing is dropped: all ten entries survive.
    assert!(!q.try_send(99));
    assert_eq!(q.len(), QUEUE_CAPACITY);
    // A reader drains the oldest entry; the retried write then succeeds.
    assert_eq!(q.try_receive(), Some(0));
    assert!(q.try_send(99));
    // Every message written is read, in FIFO order.
    for i in 1..QUEUE_CAPACITY as u32 {
        assert_eq!(q.try_receive(), Some(i));
    }
    assert_eq!(q.try_receive(), Some(99));
    assert_eq!(q.try_receive(), None);
}

#[test]
fn queue_is_fifo() {
    let mut q: BoundedQueue<SystemError> = BoundedQueue::new(3);
    assert!(q.try_send(SystemError::SensorError(Sensor::Distance)));
    assert!(q.try_send(SystemError::SensorError(Sensor::Cliff)));
    assert!(q.try_send(SystemError::SensorError(Sensor::Imu)));
    assert_eq!(q.try_receive(), Some(SystemError::SensorError(Sensor::Distance)));
    assert_eq!(q.try_receive(), Some(SystemError::SensorError(Sensor::Cliff)));
    assert_eq!(q.try_receive(), Some(SystemError::SensorError(Sensor::Imu)));
    assert_eq!(q.try_receive(), None);
}

#[test]
fn empty_queue_reports_empty() {
    let mut q: BoundedQueue<u32> = BoundedQueue::new(1);
    assert!(q.is_empty());
    assert_eq!(q.try_receive(), None);
    assert!(q.try_send(1));
    assert!(!q.is_empty());
}

#[test]
fn event_bus_starts_empty() {
    let mut bus = EventBus::new();
    assert!(bus.error_ch.is_empty());
    assert!(bus.sensor_cmd_ch.is_empty());
    assert!(bus.telemetry_ch.is_empty());
    assert!(!bus.led_signal.signaled());
    assert!(!bus.move_signal.signaled());
    assert!(bus.error_ch.try_send(SystemError::SensorError(Sensor::Cliff)));
    assert_eq!(bus.error_ch.len(), 1);
}
