//! A client for the line-oriented ASCII protocol of an ODrive motor
//! controller: framing of outgoing commands, timeout-bounded line reading,
//! numeric parsing of replies, and a polling routine that waits for the
//! device to reach its idle state.
//!
//! The client is generic over the byte stream it drives and over the clock
//! it consults, so every piece of protocol logic is stated and checked
//! against explicit models of both.
pub mod commands;
pub mod enumerations;
pub mod stream;
pub mod text;
pub mod timer;
