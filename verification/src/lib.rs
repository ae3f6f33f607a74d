//! A verified core for a small smart-home control protocol.
//!
//! The library covers the wire-level framing codec (wrap / unwrap), the
//! connection handshake, the request/response exchange semantics, the
//! device-command dispatcher, the background-polling snapshot cache, and the
//! house/room device registry. Transport I/O (TCP, UDP, threads) lives
//! outside the library; callers hand raw text in and take plain values back.

pub mod decimal;
pub mod device;
pub mod errors;
pub mod exchange;
pub mod handshake;
pub mod house;
pub mod poller;
pub mod protocol;
pub mod room;
pub mod socket_stub;
pub mod telemetry;
pub mod thermometer_stub;
pub mod text;
pub mod traits;
