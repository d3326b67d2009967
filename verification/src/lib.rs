//! Bring-up and liveness supervision of a network interface.
//!
//! The library decides; the program around it performs. Every blocking call
//! into the link driver, the event bus or the probe utility is made by the
//! caller, who hands the outcome back as a plain value and is told what to do
//! next.

pub mod settings;
pub mod configuration;
pub mod events;
pub mod probe;
pub mod bringup;
pub mod trace;
