//! Control core for a liquid cooler: the status and command frames of its
//! interrupt protocol, and the loop that turns temperature samples into
//! smoothed fan and pump speeds.

pub mod temperature;
pub mod status;
pub mod control;
pub mod command;
pub mod sensor;
