//! The capability profile of a client: what the negotiation has found out
//! about the program at the other end.

use vstd::prelude::*;

verus! {

/// The protocol that a listener and its connections speak.
#[derive(Debug, Clone, Copy, PartialEq, Eq, Structural)]
pub enum Protocol {
    Telnet,
    WebSocket,
    SSH,
}

/// Whether a connection is wrapped in TLS.
#[derive(Debug, Clone, Copy, PartialEq, Eq, Structural)]
pub enum ConnType {
    Plain,
    TLS,
}

/// A feature that a client has or has not.
#[derive(Debug, Clone, Copy, PartialEq, Eq, Structural)]
pub enum Feature {
    /// ANSI colour.
    Ansi,
    /// The 256 colours of xterm.
    Xterm256,
    /// 24-bit colour.
    Truecolor,
    /// UTF-8 text.
    Utf8,
    /// HTML text.
    Html,
    /// The MUD eXtension Protocol.
    Mxp,
    /// The Generic MUD Communication Protocol.
    Gmcp,
    /// The MUD Server Data Protocol.
    Msdp,
    /// The MUD Server Status Protocol.
    Mssp,
    /// The Mud Terminal Type Standard.
    Mtts,
    /// Reports of the window size.
    Naws,
    /// Compression of what the server sends.
    Mccp2,
    /// Suppression of Go Ahead.
    Sga,
    /// Input by whole lines.
    Linemode,
    /// A screen reader.
    ScreenReader,
    /// VT100 escape sequences.
    Vt100,
    /// Mouse tracking.
    MouseTracking,
    /// A colour palette set by OSC sequences.
    OscColorPalette,
    /// The Mud New-Environ Standard.
    Mnes,
    /// Out-of-band commands.
    Oob,
    /// A proxy between the client and the server.
    Proxy,
}

/// The number of features.
pub const FEATURES: usize = 21;

/// The place of a feature among the flags of a record.
pub open spec fn slot_of(feature: Feature) -> int {
    match feature {
        Feature::Ansi => 0,
        Feature::Xterm256 => 1,
        Feature::Truecolor => 2,
        Feature::Utf8 => 3,
        Feature::Html => 4,
        Feature::Mxp => 5,
        Feature::Gmcp => 6,
        Feature::Msdp => 7,
        Feature::Mssp => 8,
        Feature::Mtts => 9,
        Feature::Naws => 10,
        Feature::Mccp2 => 11,
        Feature::Sga => 12,
        Feature::Linemode => 13,
        Feature::ScreenReader => 14,
        Feature::Vt100 => 15,
        Feature::MouseTracking => 16,
        Feature::OscColorPalette => 17,
        Feature::Mnes => 18,
        Feature::Oob => 19,
        Feature::Proxy => 20,
    }
}

impl Feature {
    /// The place of this feature among the flags of a record.
    pub fn slot(self) -> (i: usize)
        ensures
            i == slot_of(self),
            i < FEATURES,
    {
        match self {
            Feature::Ansi => 0,
            Feature::Xterm256 => 1,
            Feature::Truecolor => 2,
            Feature::Utf8 => 3,
            Feature::Html => 4,
            Feature::Mxp => 5,
            Feature::Gmcp => 6,
            Feature::Msdp => 7,
            Feature::Mssp => 8,
            Feature::Mtts => 9,
            Feature::Naws => 10,
            Feature::Mccp2 => 11,
            Feature::Sga => 12,
            Feature::Linemode => 13,
            Feature::ScreenReader => 14,
            Feature::Vt100 => 15,
            Feature::MouseTracking => 16,
            Feature::OscColorPalette => 17,
            Feature::Mnes => 18,
            Feature::Oob => 19,
            Feature::Proxy => 20,
        }
    }
}

/// The features of a client.
#[derive(Debug, Clone)]
pub struct ProtocolCapabilities {
    pub protocol: Protocol,
    pub client_name: String,
    pub client_version: String,
    /// Columns of the client's window.
    pub width: u16,
    /// Rows of the client's window.
    pub height: u16,
    /// One flag for each feature, at the feature's place. The flags stand in
    /// an array and not in a field each: with some twenty boolean fields in
    /// one record the prover runs out of resources on a setter of one line.
    pub flags: [bool; 21],
}

/// What a `ProtocolCapabilities` stands for: who the client is, the size of
/// its window, and the set of its features.
pub struct Profile {
    pub protocol: Protocol,
    pub client_name: Seq<char>,
    pub client_version: Seq<char>,
    pub width: u16,
    pub height: u16,
    pub features: Set<Feature>,
}

impl View for ProtocolCapabilities {
    type V = Profile;

    open spec fn view(&self) -> Profile {
        Profile {
            protocol: self.protocol,
            client_name: self.client_name@,
            client_version: self.client_version@,
            width: self.width,
            height: self.height,
            features: Set::new(|feature: Feature| self.flags@[slot_of(feature)]),
        }
    }
}

/// The profile with a feature switched on or off.
pub open spec fn with_feature(profile: Profile, feature: Feature, on: bool) -> Profile {
    Profile {
        features: if on {
            profile.features.insert(feature)
        } else {
            profile.features.remove(feature)
        },
        ..profile
    }
}

/// The width assumed of a window until the client reports one.
pub const DEFAULT_WIDTH: u16 = 78;

/// The height assumed of a window until the client reports one.
pub const DEFAULT_HEIGHT: u16 = 24;

/// The profile of a client of which nothing is known yet: a Telnet client
/// called `UNKNOWN`, with a window of 78 by 24 and no feature.
pub open spec fn unknown_client() -> Profile {
    Profile {
        protocol: Protocol::Telnet,
        client_name: "UNKNOWN"@,
        client_version: "UNKNOWN"@,
        width: DEFAULT_WIDTH,
        height: DEFAULT_HEIGHT,
        features: Set::empty(),
    }
}

/// What is assumed of a WebSocket client from the start.
pub open spec fn websocket_client() -> Profile {
    Profile {
        protocol: Protocol::WebSocket,
        features: set![
            Feature::Utf8,
            Feature::Html,
            Feature::Gmcp,
            Feature::Oob,
            Feature::Msdp,
            Feature::Truecolor,
        ],
        ..unknown_client()
    }
}

/// What is assumed of an SSH client from the start.
pub open spec fn ssh_client() -> Profile {
    Profile { protocol: Protocol::SSH, features: set![Feature::Truecolor], ..unknown_client() }
}

impl Default for ProtocolCapabilities {
    fn default() -> (out: Self)
        ensures
            out@ == unknown_client(),
    {
        let out = ProtocolCapabilities {
            protocol: Protocol::Telnet,
            client_name: "UNKNOWN".to_owned(),
            client_version: "UNKNOWN".to_owned(),
            width: DEFAULT_WIDTH,
            height: DEFAULT_HEIGHT,
            flags: [false; 21],
        };
        assert(out@.features =~= unknown_client().features);
        out
    }
}

impl ProtocolCapabilities {
    /// The profile that a Telnet connection starts with.
    pub fn telnet() -> (out: Self)
        ensures
            out@ == unknown_client(),
    {
        ProtocolCapabilities::default()
    }

    /// The profile that a WebSocket connection starts with.
    pub fn websocket() -> (out: Self)
        ensures
            out@ == websocket_client(),
    {
        let mut out = ProtocolCapabilities::default();
        out.protocol = Protocol::WebSocket;
        out.set_feature(Feature::Utf8, true);
        out.set_feature(Feature::Html, true);
        out.set_feature(Feature::Gmcp, true);
        out.set_feature(Feature::Oob, true);
        out.set_feature(Feature::Msdp, true);
        out.set_feature(Feature::Truecolor, true);
        assert(out@.features =~= websocket_client().features);
        out
    }

    /// The profile that an SSH connection starts with.
    pub fn ssh() -> (out: Self)
        ensures
            out@ == ssh_client(),
    {
        let mut out = ProtocolCapabilities::default();
        out.protocol = Protocol::SSH;
        out.set_feature(Feature::Truecolor, true);
        assert(out@.features =~= ssh_client().features);
        out
    }
}

} // verus!
