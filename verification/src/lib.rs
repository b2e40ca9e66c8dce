//! Coordination core of a battery-powered environmental monitor.
//!
//! The core decides; it performs no I/O. Each task is a state machine that is
//! told what happened and answers with what to do next.

use vstd::prelude::*;

pub mod bme680_device;
pub mod display_controller;
pub mod mailbox;
pub mod parameter;
pub mod pms7003_device;
pub mod screen;
pub mod signal;
pub mod text;

verus! {

/// A sensor result on its way to the refresh coordinator.
#[derive(Debug, Clone, Copy, PartialEq, Eq, Structural)]
pub enum DisplayInfo {
    Bme680Data(bme680_device::Bme680Data),
    Pms7003Data(pms7003_device::PmSensorData),
}

/// The refusal of an event that a state machine was not waiting for.
#[derive(Debug, Clone, Copy, PartialEq, Eq, Structural)]
pub struct OutOfTurn;

} // verus!
