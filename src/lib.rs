//! Typed construction and wire encoding of ephemeris queries for a remote
//! solar-system ephemeris service.

pub mod request;
pub mod response;
pub mod wire;
