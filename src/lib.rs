//! Host side of the XAP protocol: a binary request/response and broadcast
//! protocol spoken with QMK keyboards over fixed-size reports.
//!
//! - `token`: transaction tokens and their classification.
//! - `codec`, `request`: little-endian fields and request frames with a
//!   back-patched length byte; `painter` and `xap` hold the request types.
//! - `broadcast`: unsolicited frames and their typed payloads.
//! - `device`, `client`: the per-device query state machine and the device
//!   registry with its enumeration pass.
//! - `events`, `logs`: what the readers hand to the application loop, and
//!   console output assembled into lines.
//! - `constants`, `aggregation`: the keycode table and its display grouping.
//! - `gui`: screen layout decisions of the drawing helpers.
//!
//! Reading and writing reports, timers and threads are left to the caller,
//! which feeds the results back as plain values.

pub mod error;
pub mod token;
pub mod codec;
pub mod request;
pub mod painter;
pub mod xap;
pub mod broadcast;
pub mod aggregation;
pub mod events;
pub mod device;
pub mod client;
pub mod constants;
pub mod gui;
pub mod logs;
