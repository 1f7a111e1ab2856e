//! The logic of a Matter-over-Thread thermostat that is retrofitted into a Mill Gen 2
//! panel heater, in place of its WiFi module.
//!
//! The board does not drive a relay: the heater's own microcontroller keeps the
//! temperature sensor, the triac and the control loop, and reports over a UART what it is
//! doing. What is here is everything between that UART and the Matter clusters:
//!
//! - [`mill`]: the wire protocol, both directions.
//! - [`heater`]: what the heater reports, and the energy counters derived from it.
//! - [`thermostat`]: the Thermostat cluster's view of the heater, and the requests made
//!   of it.
//! - [`meter`]: what the heating element draws and has drawn.
//! - [`element`]: what the element is rated at, which is what the meter is scaled by.
//! - [`supervisor`] and [`boot_diag`]: why the board last reset.
//! - [`radio`]: whether BLE was down when Thread started.
//! - [`identity`]: what tells one board from the next.
//! - [`node`]: which handler serves which cluster.
//! - [`vendor_kv`] and [`factory_reset`]: what survives a reboot, and what does not.
//! - [`config`] and [`overlay`]: what may be configured.
//!
//! Nothing in here touches hardware, storage or a network. A function that would have to
//! takes what was read and returns what is to be written: bytes to store, frames to send,
//! readings to report.

pub mod attr;
pub mod boot_diag;
pub mod bytes;
mod clock;
pub mod config;
pub mod element;
pub mod factory_reset;
pub mod heater;
pub mod hex;
pub mod identity;
pub mod meter;
pub mod mill;
pub mod node;
pub mod overlay;
pub mod radio;
pub mod supervisor;
pub mod thermostat;
pub mod vendor_kv;
