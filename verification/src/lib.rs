//! Frame orchestration for an interactive cube viewer.
//!
//! The library holds the verified core of the application: accumulation of
//! raw input events into per-frame camera deltas, a monotonic clock with a
//! rolling frames-per-second average, the camera update that makes motion
//! frame-rate independent, and the per-iteration state machine of the run
//! loop. Window, event-polling and GPU submission live outside the library
//! and exchange plain values with it.

pub mod app;
pub mod camera;
pub mod clock;
pub mod input;
pub mod num;
