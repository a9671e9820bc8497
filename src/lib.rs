//! Bluetooth Low Energy physical-layer radio driver and data-channel hopping
//! engine, with their behaviour stated as contracts.
//!
//! The radio, timer and PPI peripherals are held as register images: the
//! driver writes its configuration into them, and the hardware (or a test
//! standing for it) raises events in them before the interrupt handler runs.

pub mod constants;
pub mod hil;
pub mod connection;
pub mod radio;
