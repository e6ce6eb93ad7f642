//! Driver logic for a single motor controller on a point-to-point serial
//! link: a binary command codec, a fixed-size telemetry frame decoder that
//! appends samples to named time-series channels, the per-iteration decisions
//! of the reader and writer tasks, and recognition of position datagrams from
//! the network command bridge.
//!
//! Telemetry values travel on the wire as 4-byte big-endian words.  The store
//! keeps each sample's raw wire word next to its timestamp; interpreting a
//! word as an IEEE-754 single or as a signed integer is left to the
//! presentation layer, so the store itself is exact.

pub mod codec;
pub mod driver;
pub mod mover;
pub mod telemetry;
pub mod wire;
