//! Core task-orchestration logic for a small mobile robot's firmware.
//!
//! The crate covers the parts of the firmware that make decisions: the
//! inter-task communication primitives (bounded FIFO queues and latest-value
//! signals), the LED status state machine, the skid-steer speed model, the
//! adaptive multi-sensor polling scheduler, and the error-classification and
//! safety-reflex path. Hardware gateways (PWM generation, I2C transactions,
//! pin toggling) and the async runtime that drives each task's loop live
//! outside this crate; every function here is a pure step that a runtime calls
//! with plain values (the current time in milliseconds, the outcome of a
//! hardware read) and that returns the next state and the actions to perform.

pub mod bus;
pub mod chassis;
pub mod error;
pub mod led;
pub mod protocol;
pub mod reflex;
pub mod sensors;
