//! The logic of the BIRDS reference device, a raw controller and its bridge on one
//! RP2040.
//!
//! - [`bridge_owner`] keeps the lease of the safety policy, and [`manager`] is the
//!   bridge task around it. Both are state machines: they name the next outside
//!   call and take its result. [`owner_model`] and [`manager_model`] say what whole
//!   operations amount to, for any policy and any board; [`owner_laws`] and
//!   [`manager_laws`] say what the policy, the board and the clients see of them.
//! - [`control_protocol`] and [`control`] read the requests of the control serial
//!   channel, and [`diagnostics`] encodes its diagnostic payloads.
//! - [`uart`], [`uart_codec`] and [`pio_uart`] carry 9-bit words between the data
//!   serial channel and the ASIC.
//! - [`serial_number`] derives the USB serial number.
//!
//! [`safety`], [`bridge`] and [`payload`] hold the values that these exchange.

pub mod bridge;
pub mod bridge_owner;
pub mod control;
pub mod control_protocol;
pub mod diagnostics;
pub mod manager;
pub mod manager_laws;
pub mod manager_model;
pub mod owner_laws;
pub mod owner_model;
pub mod payload;
pub mod pio_uart;
pub mod safety;
pub mod serial_number;
pub mod uart;
pub mod uart_codec;
