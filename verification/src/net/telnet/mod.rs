//! Telnet: framing of the IAC byte stream and the option-negotiation state machine.

pub mod codes;
pub mod laws;
pub mod message;
pub mod model;
pub mod options;
pub mod protocol;

pub use message::TelnetMessage;
