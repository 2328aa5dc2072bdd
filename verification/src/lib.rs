//! Hexadecimal text for MIDI traffic: the line format in both directions,
//! port lookup by name, and the decisions of a command-line session.

pub mod decode;
pub mod digits;
pub mod error;
pub mod format;
pub mod ports;
pub mod roundtrip;
pub mod session;
pub mod session_laws;
