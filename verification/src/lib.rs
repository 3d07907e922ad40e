//! Verified core of a radar-sensor driver: the sensor lifecycle state machine,
//! the single-slot transport bridge, detector configuration and buffer-sizing
//! rules, and the decoding of engine-filled result records.
//!
//! The opaque signal-processing engine and the hardware bus are collaborators
//! at the boundary: every exchange with them enters this core as a plain value
//! (an event, an outcome flag, a filled byte record), so the decisions taken on
//! those values are verified for every value the collaborators can produce.

pub mod config;
pub mod detector;
pub mod hal;
pub mod radar;
pub mod sensor;
