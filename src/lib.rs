//! A client library for a BLE smart ring: the 16-byte frame codec, device
//! classification, the session lifecycle, response correlation, and the
//! terminal UI's state machine.

pub mod channel;
pub mod device;
pub mod error;
pub mod gauge;
pub mod protocol;
pub mod session;
pub mod text;
pub mod tui;
