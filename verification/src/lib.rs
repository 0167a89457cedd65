//! Library for a slot-based virtual-controller input client.
//!
//! Physical gamepads are reported by capture backends as canonical input
//! events. The library assigns each physical source to one of four fixed
//! controller slots, tracks per-slot button masks and stick values, and
//! encodes the four-slot snapshot into the fixed 108-byte wire record that
//! the receiving console expects. All I/O (reading hardware, sending
//! datagrams, configuration files) lives outside this crate; the library is
//! the state machine and the codec.

pub mod client;
pub mod codec;
pub mod config;
pub mod input;
pub mod pad;
