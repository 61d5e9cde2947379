//! Core of a motion-sensing alarm device: a three-phase alarm state machine,
//! the conditional reset rule that arbitrates between a manual button and an
//! accelerometer, the motion-delta watcher, the bounded reset-signal queue,
//! the indicator-ring rendering protocol, and a lock-guarded shared cell that
//! serializes concurrent access to the one alarm state.
//!
//! Peripheral setup, sensor bus traffic and the physical output waveforms are
//! outside collaborators; this crate holds the decision logic they drive.

pub mod cell;
pub mod dispatch;
pub mod motion;
pub mod render;
pub mod ring;
pub mod state;
