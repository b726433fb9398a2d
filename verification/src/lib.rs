//! Verified core of a small sensor-panel server: two four-channel ADC chips
//! and a few digital pins are polled in the background, the latest readings
//! are kept in a shared snapshot, and connected clients receive the snapshot
//! as labeled text updates while being able to send a pin-toggle command back.
//!
//! The hardware bus, the clock and the transport live outside this crate; the
//! library holds the conversion rules, the snapshot and queue semantics, and
//! the wire format, each with a proved contract.

pub mod adc;
pub mod command;
pub mod numparse;
pub mod poll;
pub mod rhino;
pub mod state;
pub mod textfmt;
pub mod wire;
