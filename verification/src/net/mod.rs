//! Connections, protocol envelopes and the byte-level protocol state.

pub mod buffer;
pub mod capabilities;
pub mod connection;
pub mod features;
pub mod oob;
pub mod protocol;
pub mod telnet;

pub use capabilities::{ConnType, Feature, Protocol, ProtocolCapabilities};
pub use connection::{ConnectionComponent, ConnectionStatus, ReadEvent, WriteEvent};
pub use protocol::{
    ProtocolComponent, ProtocolEvent, ProtocolOutEvent, ProtocolStatus, ProtocolType, Text,
};
