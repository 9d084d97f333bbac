//! Client-side implementation of the deCONZ (ConBee/RaspBee) binary serial
//! protocol: frame codec with checksum, the typed command catalog, and the
//! request/response multiplexer state machine that paces traffic on the
//! half-duplex serial link.
//!
//! Everything here is pure logic on byte vectors and plain values.  The async
//! plumbing (serial port, SLIP framing, channels) lives in the surrounding
//! application, which drives the state machine through its public methods.

pub mod client;
pub mod frame;
pub mod protocol;
