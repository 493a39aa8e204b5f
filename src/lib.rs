//! Safe client layer over the icsneoc2 device-communication API.
//!
//! The native calls themselves live outside this crate; what is here is the
//! logic that surrounds each of them: status checking and error translation,
//! the bounded-buffer protocol for strings and collections, the open-options
//! bitmask, the bus-type enumeration, message ownership and the session
//! state machine.
pub mod status;
pub mod buffer;
pub mod options;
pub mod message;
pub mod device;
pub mod session;
pub mod network;

pub use device::Device;
pub use status::Error;
