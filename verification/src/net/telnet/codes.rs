//! Byte values of the Telnet commands and of the options this server knows.

use vstd::prelude::*;

verus! {

/// Interpret As Command: the escape prefix of every Telnet command.
pub const IAC: u8 = 255;

pub const DONT: u8 = 254;

pub const DO: u8 = 253;

pub const WONT: u8 = 252;

pub const WILL: u8 = 251;

/// Opens a sub-negotiation.
pub const SB: u8 = 250;

/// Go Ahead.
pub const GA: u8 = 249;

/// Closes a sub-negotiation.
pub const SE: u8 = 240;

/// End Of Record, the command that marks the end of a prompt.
pub const EOR: u8 = 239;

pub const NUL: u8 = 0;

pub const LF: u8 = 10;

pub const CR: u8 = 13;

/// Suppress Go Ahead.
pub const SGA: u8 = 3;

/// Terminal type, used by the Mud Terminal Type Standard.
pub const MTTS: u8 = 24;

/// The option under which End Of Record is negotiated.
pub const TELOPT_EOR: u8 = 25;

/// Negotiate About Window Size.
pub const NAWS: u8 = 31;

pub const LINEMODE: u8 = 34;

pub const MSDP: u8 = 69;

pub const MSSP: u8 = 70;

pub const MCCP2: u8 = 86;

pub const MCCP3: u8 = 87;

pub const MXP: u8 = 91;

pub const GMCP: u8 = 201;

} // verus!
