//! The Telnet state machine of one connection.

use super::codes;
use super::message::{append_bytes, TelnetMessage};
use super::model::{
    after_answer, after_message, after_mtts, after_naws, after_negotiate, after_round_0,
    after_round_1, after_round_2, after_stream, after_sub, first_lf, follows, line_event, lines_of,
    local_disabled, local_enabled, local_enabled_sent, opened, opening, opening_of, reaction,
    remote_disabled, remote_disabled_rounds, remote_enabled, remote_enabled_rounds,
    remote_enabled_sent, sub_frame, unfinished_line, Event, Reaction, TelnetState,
};
use super::options::{
    untouched, TelnetHandshakes, TelnetOption, TelnetOptionPerspective, TelnetOptionState,
};
use crate::net::buffer::{
    buf_advance, buf_bytes, buf_extend, buf_get_u16, buf_new, buf_split_to, contents,
};
use crate::net::capabilities::{Feature, ProtocolCapabilities, DEFAULT_HEIGHT, DEFAULT_WIDTH};
use crate::text::{
    after_prefix, begins_with, finishes_with, parse_number, same_text, split_first, text_of_bytes,
    trim_bytes, trim_text, upper,
};
use bytes::BytesMut;
use std::collections::HashMap;
use std::sync::Arc;
use vstd::prelude::*;
use vstd::slice::slice_to_vec;

verus! {

/// What the state machine raises while it reads what the peer sent.
#[derive(Clone, Debug)]
pub enum TelnetEvent {
    /// A line of input, without the whitespace at its ends.
    Line(String),
    Command(u8),
    LocalEnable(u8),
    LocalDisable(u8),
    RemoteEnable(u8),
    RemoteDisable(u8),
    /// The peer has answered on an option of our end.
    LocalHandshake(u8),
    /// The peer has answered on an option of its end.
    RemoteHandshake(u8),
    SubData(u8, Vec<u8>),
}

impl View for TelnetEvent {
    type V = Event;

    open spec fn view(&self) -> Event {
        match *self {
            TelnetEvent::Line(s) => Event::Line(s@),
            TelnetEvent::Command(c) => Event::Command(c),
            TelnetEvent::LocalEnable(op) => Event::LocalEnable(op),
            TelnetEvent::LocalDisable(op) => Event::LocalDisable(op),
            TelnetEvent::RemoteEnable(op) => Event::RemoteEnable(op),
            TelnetEvent::RemoteDisable(op) => Event::RemoteDisable(op),
            TelnetEvent::LocalHandshake(op) => Event::LocalHandshake(op),
            TelnetEvent::RemoteHandshake(op) => Event::RemoteHandshake(op),
            TelnetEvent::SubData(op, d) => Event::SubData(op, d@),
        }
    }
}

/// What a list of events stands for.
pub open spec fn events_of(events: Seq<TelnetEvent>) -> Seq<Event> {
    events.map_values(|e: TelnetEvent| e@)
}

/// The state of the Telnet protocol on one connection.
#[derive(Debug)]
pub struct TelnetProtocol {
    pub op_state: HashMap<u8, TelnetOptionState>,
    pub telnet_options: Arc<HashMap<u8, TelnetOption>>,
    pub handshakes_left: TelnetHandshakes,
    pub app_buffer: BytesMut,
    pub mtts_last: Option<String>,
}

/// What an optional text stands for.
pub open spec fn text_view(text: Option<String>) -> Option<Seq<char>> {
    match text {
        Some(s) => Some(s@),
        None => None,
    }
}

impl View for TelnetProtocol {
    type V = TelnetState;

    open spec fn view(&self) -> TelnetState {
        TelnetState {
            op_state: self.op_state@,
            policy: self.telnet_options@,
            local: self.handshakes_left.local@,
            remote: self.handshakes_left.remote@,
            mtts: self.handshakes_left.mtts@,
            app_buffer: contents(&self.app_buffer),
            mtts_last: text_view(self.mtts_last),
        }
    }
}

/// The state of a connection on which nothing has happened: each option of
/// the policy untouched, nothing awaited, nothing buffered.
pub open spec fn fresh(policy: Map<u8, TelnetOption>) -> TelnetState {
    TelnetState {
        op_state: Map::new(|op: u8| policy.contains_key(op), |op: u8| untouched()),
        policy,
        local: Set::empty(),
        remote: Set::empty(),
        mtts: Set::empty(),
        app_buffer: Seq::empty(),
        mtts_last: None,
    }
}

impl TelnetProtocol {
    /// The state machine of a new connection under the given policy.
    pub fn new(telnet_options: Arc<HashMap<u8, TelnetOption>>) -> (out: Self)
        ensures
            out@ == fresh(telnet_options@),
    {
        let mut op_state: HashMap<u8, TelnetOptionState> = HashMap::new();
        let mut i: usize = 0;
        while i < 256
            invariant
                0 <= i <= 256,
                forall|op: u8|
                    op_state@.contains_key(op) <==> op < i && telnet_options@.contains_key(op),
                forall|op: u8| op_state@.contains_key(op) ==> op_state@[op] == untouched(),
            decreases 256 - i,
        {
            let op: u8 = i as u8;
            if telnet_options.contains_key(&op) {
                op_state.insert(op, TelnetOptionState::default());
            }
            i += 1;
        }
        let out = TelnetProtocol {
            op_state,
            telnet_options,
            handshakes_left: TelnetHandshakes::default(),
            app_buffer: buf_new(),
            mtts_last: None,
        };
        assert(out@.op_state =~= fresh(telnet_options@).op_state);
        out
    }

    /// Hands `data` to the writer.
    fn send_data(&self, writer: &mut BytesMut, data: &[u8])
        ensures
            contents(final(writer)) == contents(old(writer)) + data@,
    {
        buf_extend(writer, data);
    }

    /// Sends a sub-negotiation of `op` with the payload `data`.
    pub fn send_sub(&mut self, op: u8, data: &[u8], writer: &mut BytesMut)
        ensures
            *final(self) == *old(self),
            contents(final(writer)) == contents(old(writer)) + sub_frame(op, data@),
    {
        let out: Vec<u8> = framed(op, data);
        self.send_data(writer, out.as_slice());
    }

    /// Tells whether an option is in use: the policy knows it, and it is
    /// switched on at one end or the other.
    pub fn uses(&self, op: u8) -> (r: bool)
        ensures
            r == (self@.op_state.contains_key(op) && (self@.op_state[op].local.enabled
                || self@.op_state[op].remote.enabled)),
    {
        match self.op_state.get(&op) {
            Some(st) => st.local.enabled || st.remote.enabled,
            None => false,
        }
    }

    /// Opens the negotiation: for each option of the policy, in the order of
    /// the codes, the server offers it or asks for it as the policy says, and
    /// notes that it waits for the answer.
    pub fn start(&mut self, writer: &mut BytesMut)
        ensures
            final(self)@ == (TelnetState {
                op_state: opened(old(self)@.op_state, old(self)@.policy, 256),
                ..old(self)@
            }),
            contents(final(writer)) == contents(old(writer)) + opening(old(self)@.policy, 256),
    {
        let mut out: Vec<u8> = Vec::new();
        let mut i: usize = 0;
        assert(self@.op_state =~= opened(old(self)@.op_state, old(self)@.policy, 0));
        while i < 256
            invariant
                0 <= i <= 256,
                out@ == opening(old(self)@.policy, i as int),
                self@ == (TelnetState {
                    op_state: opened(old(self)@.op_state, old(self)@.policy, i as int),
                    ..old(self)@
                }),
            decreases 256 - i,
        {
            let op: u8 = i as u8;
            let ghost before = out@;
            let entry: Option<TelnetOption> = match self.telnet_options.get(&op) {
                Some(e) => Some(*e),
                None => None,
            };
            if let Some(policy) = entry {
                if policy.start_local {
                    out.push(codes::IAC);
                    out.push(codes::WILL);
                    out.push(op);
                }
                if policy.start_remote {
                    out.push(codes::IAC);
                    out.push(codes::DO);
                    out.push(op);
                }
                let current: Option<TelnetOptionState> = match self.op_state.get(&op) {
                    Some(s) => Some(*s),
                    None => None,
                };
                if let Some(st) = current {
                    let next = TelnetOptionState {
                        local: TelnetOptionPerspective {
                            enabled: st.local.enabled,
                            negotiating: st.local.negotiating || policy.start_local,
                        },
                        remote: TelnetOptionPerspective {
                            enabled: st.remote.enabled,
                            negotiating: st.remote.negotiating || policy.start_remote,
                        },
                    };
                    self.op_state.insert(op, next);
                }
            }
            assert(out@ =~= before + opening_of(old(self)@.policy, op));
            i += 1;
            assert(self@.op_state =~= opened(old(self)@.op_state, old(self)@.policy, i as int));
        }
        self.send_data(writer, out.as_slice());
    }

    /// Our end of `op` has been switched on.
    fn enable_local(
        &mut self,
        op: u8,
        out: &mut Vec<TelnetEvent>,
        writer: &mut BytesMut,
        capabilities: &mut ProtocolCapabilities,
    )
        ensures
            *final(self) == *old(self),
            final(out)@ == old(out)@,
            contents(final(writer)) == contents(old(writer)) + local_enabled_sent(op),
            final(capabilities)@ == local_enabled(old(capabilities)@, op),
    {
        if op == codes::SGA {
            capabilities.set_feature(Feature::Sga, true);
        } else if op == codes::MXP {
            capabilities.set_feature(Feature::Mxp, true);
            let empty: Vec<u8> = Vec::new();
            self.send_sub(codes::MXP, empty.as_slice(), writer);
        }
        assert(contents(writer) =~= contents(old(writer)) + local_enabled_sent(op));
    }

    /// The peer's end of `op` has been switched on.
    fn enable_remote(
        &mut self,
        op: u8,
        out: &mut Vec<TelnetEvent>,
        writer: &mut BytesMut,
        capabilities: &mut ProtocolCapabilities,
    )
        ensures
            final(self)@ == (TelnetState {
                mtts: remote_enabled_rounds(old(self)@.mtts, op),
                ..old(self)@
            }),
            final(out)@ == old(out)@,
            contents(final(writer)) == contents(old(writer)) + remote_enabled_sent(op),
            final(capabilities)@ == remote_enabled(old(capabilities)@, op),
    {
        if op == codes::NAWS {
            capabilities.set_feature(Feature::Naws, true);
        } else if op == codes::MTTS {
            self.handshakes_left.mtts.insert(0);
            self.handshakes_left.mtts.insert(1);
            self.handshakes_left.mtts.insert(2);
            let mut send: Vec<u8> = Vec::new();
            send.push(1);
            assert(send@ =~= seq![1u8]);
            self.send_sub(codes::MTTS, send.as_slice(), writer);
        } else if op == codes::LINEMODE {
            capabilities.set_feature(Feature::Linemode, true);
        }
        assert(contents(writer) =~= contents(old(writer)) + remote_enabled_sent(op));
    }

    /// The peer's end of `op` has been switched off.
    fn disable_remote(
        &mut self,
        op: u8,
        out: &mut Vec<TelnetEvent>,
        writer: &mut BytesMut,
        capabilities: &mut ProtocolCapabilities,
    )
        ensures
            final(self)@ == (TelnetState {
                mtts: remote_disabled_rounds(old(self)@.mtts, op),
                ..old(self)@
            }),
            final(out)@ == old(out)@,
            contents(final(writer)) == contents(old(writer)),
            final(capabilities)@ == remote_disabled(old(capabilities)@, op),
    {
        if op == codes::NAWS {
            capabilities.set_feature(Feature::Naws, false);
            capabilities.set_window(DEFAULT_WIDTH, DEFAULT_HEIGHT);
        } else if op == codes::MTTS {
            capabilities.set_feature(Feature::Mtts, false);
            self.handshakes_left.mtts.clear();
        } else if op == codes::LINEMODE {
            capabilities.set_feature(Feature::Linemode, false);
        }
    }

    /// Our end of `op` has been switched off.
    fn disable_local(
        &mut self,
        op: u8,
        out: &mut Vec<TelnetEvent>,
        writer: &mut BytesMut,
        capabilities: &mut ProtocolCapabilities,
    )
        ensures
            *final(self) == *old(self),
            final(out)@ == old(out)@,
            contents(final(writer)) == contents(old(writer)),
            final(capabilities)@ == local_disabled(old(capabilities)@, op),
    {
        if op == codes::SGA {
            capabilities.set_feature(Feature::Sga, false);
        } else if op == codes::MXP {
            capabilities.set_feature(Feature::Mxp, false);
        }
    }

    /// Takes a negotiation from the peer. An option that the policy does not
    /// know is refused. A known one is switched as the peer says: an
    /// agreement is answered unless it answers a request of ours, the
    /// handshake is raised, and the profile follows the switch.
    fn receive_negotiate(
        &mut self,
        command: u8,
        op: u8,
        out: &mut Vec<TelnetEvent>,
        writer: &mut BytesMut,
        capabilities: &mut ProtocolCapabilities,
    )
        ensures
            follows(
                after_negotiate(old(self)@, old(capabilities)@, command, op),
                final(self)@,
                final(capabilities)@,
                contents(old(writer)),
                contents(final(writer)),
                events_of(old(out)@),
                events_of(final(out)@),
            ),
    {
        let current: Option<TelnetOptionState> = match self.op_state.get(&op) {
            Some(s) => Some(*s),
            None => None,
        };
        match current {
            Some(state) => {
                let r = react(state, command);
                self.op_state.insert(op, r.state);
                if let Some(verb) = r.reply {
                    let mut reply: Vec<u8> = Vec::new();
                    reply.push(codes::IAC);
                    reply.push(verb);
                    reply.push(op);
                    assert(reply@ =~= seq![codes::IAC, verb, op]);
                    self.send_data(writer, reply.as_slice());
                }
                let ghost replied = contents(writer);
                if r.handshake_local {
                    out.push(TelnetEvent::LocalHandshake(op));
                }
                if r.handshake_remote {
                    out.push(TelnetEvent::RemoteHandshake(op));
                }
                assert(events_of(out@) =~= events_of(old(out)@) + after_negotiate(
                    old(self)@,
                    old(capabilities)@,
                    command,
                    op,
                ).events);
                if r.enable_local {
                    self.enable_local(op, out, writer, capabilities);
                }
                if r.disable_local {
                    self.disable_local(op, out, writer, capabilities);
                }
                if r.enable_remote {
                    self.enable_remote(op, out, writer, capabilities);
                }
                if r.disable_remote {
                    self.disable_remote(op, out, writer, capabilities);
                }
                assert(contents(writer) =~= contents(old(writer)) + after_negotiate(
                    old(self)@,
                    old(capabilities)@,
                    command,
                    op,
                ).sent);
            },
            None => {
                if command == codes::WILL || command == codes::DO {
                    let verb: u8 = if command == codes::WILL {
                        codes::DONT
                    } else {
                        codes::WONT
                    };
                    let mut reply: Vec<u8> = Vec::new();
                    reply.push(codes::IAC);
                    reply.push(verb);
                    reply.push(op);
                    assert(reply@ =~= seq![codes::IAC, verb, op]);
                    self.send_data(writer, reply.as_slice());
                } else {
                    assert(contents(writer) =~= contents(old(writer)) + Seq::<u8>::empty());
                }
                assert(events_of(out@) =~= events_of(old(out)@) + Seq::<Event>::empty());
            },
        }
    }

    /// Takes a report of the window size.
    fn receive_naws(
        &mut self,
        data: Vec<u8>,
        out: &mut Vec<TelnetEvent>,
        writer: &mut BytesMut,
        capabilities: &mut ProtocolCapabilities,
    )
        ensures
            *final(self) == *old(self),
            final(out)@ == old(out)@,
            contents(final(writer)) == contents(old(writer)),
            final(capabilities)@ == after_naws(old(capabilities)@, data@),
    {
        let mut new_data = buf_new();
        buf_extend(&mut new_data, data.as_slice());
        assert(contents(&new_data) =~= data@);
        if buf_bytes(&new_data).len() >= 4 {
            let width: u16 = buf_get_u16(&mut new_data);
            let height: u16 = buf_get_u16(&mut new_data);
            capabilities.set_window(width, height);
        }
    }

    /// The first answer of the terminal-type exchange: the client's name, and
    /// its version after a space.
    fn receive_mtts_0(
        &mut self,
        data: String,
        out: &mut Vec<TelnetEvent>,
        writer: &mut BytesMut,
        capabilities: &mut ProtocolCapabilities,
    )
        ensures
            *final(self) == *old(self),
            final(out)@ == old(out)@,
            contents(final(writer)) == contents(old(writer)),
            final(capabilities)@ == after_round_0(old(capabilities)@, data@),
    {
        match split_first(data.as_str(), ' ') {
            Some((name, version)) => {
                capabilities.set_client_name(name.to_owned());
                capabilities.set_client_version(version.to_owned());
            },
            None => {
                capabilities.set_client_name(data);
            },
        }
        let known = {
            let name = capabilities.client_name.as_str();
            same_text(name, "ATLANTIS") || same_text(name, "CMUD") || same_text(name, "KILDCLIENT")
                || same_text(name, "MUDLET") || same_text(name, "MUSHCLIENT") || same_text(
                name,
                "PUTTY",
            ) || same_text(name, "BEIP") || same_text(name, "POTATO") || same_text(
                name,
                "TINYFUGUE",
            ) || begins_with(name, "XTERM") || finishes_with(name, "-256COLOR")
        };
        if known {
            capabilities.enable_colors();
        }
    }

    /// The second answer of the terminal-type exchange: the terminal.
    fn receive_mtts_1(
        &mut self,
        data: String,
        out: &mut Vec<TelnetEvent>,
        writer: &mut BytesMut,
        capabilities: &mut ProtocolCapabilities,
    )
        ensures
            *final(self) == *old(self),
            final(out)@ == old(out)@,
            contents(final(writer)) == contents(old(writer)),
            final(capabilities)@ == after_round_1(old(capabilities)@, data@),
    {
        if begins_with(data.as_str(), "XTERM") || finishes_with(data.as_str(), "-256COLOR") {
            capabilities.enable_colors();
        }
    }

    /// The third answer of the terminal-type exchange: `MTTS` and a number
    /// whose bits are features.
    fn receive_mtts_2(
        &mut self,
        data: String,
        out: &mut Vec<TelnetEvent>,
        writer: &mut BytesMut,
        capabilities: &mut ProtocolCapabilities,
    )
        ensures
            *final(self) == *old(self),
            final(out)@ == old(out)@,
            contents(final(writer)) == contents(old(writer)),
            final(capabilities)@ == after_round_2(old(capabilities)@, data@),
    {
        let bits: usize = match after_prefix(data.as_str(), "MTTS ") {
            Some(rest) => {
                assert(data@.skip("MTTS "@.len() as int) =~= rest@);
                match parse_number(rest) {
                    Some(n) => n,
                    None => 0,
                }
            },
            None => 0,
        };
        capabilities.apply_bits(bits);
    }

    /// Takes an answer of the terminal-type exchange that has been read as
    /// text. An answer that repeats the last one ends the exchange. Any other
    /// goes to the lowest round that is awaited, and the next round, if there
    /// is one, is asked for.
    pub fn receive_answer(
        &mut self,
        answer: String,
        out: &mut Vec<TelnetEvent>,
        writer: &mut BytesMut,
        capabilities: &mut ProtocolCapabilities,
    )
        ensures
            follows(
                after_answer(old(self)@, old(capabilities)@, answer@),
                final(self)@,
                final(capabilities)@,
                contents(old(writer)),
                contents(final(writer)),
                events_of(old(out)@),
                events_of(final(out)@),
            ),
    {
        assert(events_of(out@) =~= events_of(old(out)@) + Seq::<Event>::empty());
        assert(contents(writer) =~= contents(old(writer)) + Seq::<u8>::empty());
        let repeated: bool = match &self.mtts_last {
            Some(last) => same_text(last.as_str(), answer.as_str()),
            None => false,
        };
        if repeated {
            self.handshakes_left.mtts.clear();
            return ;
        }
        let kept: String = answer.as_str().to_owned();
        self.mtts_last = Some(kept);
        let mut send: Vec<u8> = Vec::new();
        send.push(1);
        assert(send@ =~= seq![1u8]);
        let round_0: u8 = 0;
        let round_1: u8 = 1;
        let round_2: u8 = 2;
        if self.handshakes_left.mtts.contains(&round_0) {
            self.receive_mtts_0(answer, out, writer, capabilities);
            self.handshakes_left.mtts.remove(&round_0);
            self.send_sub(codes::MTTS, send.as_slice(), writer);
        } else if self.handshakes_left.mtts.contains(&round_1) {
            self.receive_mtts_1(answer, out, writer, capabilities);
            self.handshakes_left.mtts.remove(&round_1);
            self.send_sub(codes::MTTS, send.as_slice(), writer);
        } else if self.handshakes_left.mtts.contains(&round_2) {
            self.receive_mtts_2(answer, out, writer, capabilities);
            self.handshakes_left.mtts.remove(&round_2);
        }
    }

    /// Takes a sub-negotiation of the terminal type. It is ignored unless a
    /// round is awaited and the payload is a 0 and at least one byte more, of
    /// well-formed UTF-8; the text, in upper case and without the white space
    /// at its ends, is the answer.
    fn receive_mtts(
        &mut self,
        data: Vec<u8>,
        out: &mut Vec<TelnetEvent>,
        writer: &mut BytesMut,
        capabilities: &mut ProtocolCapabilities,
    )
        ensures
            follows(
                after_mtts(old(self)@, old(capabilities)@, data@),
                final(self)@,
                final(capabilities)@,
                contents(old(writer)),
                contents(final(writer)),
                events_of(old(out)@),
                events_of(final(out)@),
            ),
    {
        assert(events_of(out@) =~= events_of(old(out)@) + Seq::<Event>::empty());
        assert(contents(writer) =~= contents(old(writer)) + Seq::<u8>::empty());
        let mut new_data = buf_new();
        buf_extend(&mut new_data, data.as_slice());
        assert(contents(&new_data) =~= data@);
        if buf_bytes(&new_data).len() < 2 {
            return ;
        }
        if self.handshakes_left.mtts.is_empty() {
            return ;
        }
        if buf_bytes(&new_data)[0] != 0 {
            return ;
        }
        buf_advance(&mut new_data, 1);
        let raw: Vec<u8> = slice_to_vec(buf_bytes(&new_data));
        match text_of_bytes(raw) {
            Some(s) => {
                let shouted: String = upper(s.as_str());
                let answer: String = trim_text(shouted.as_str()).to_owned();
                self.receive_answer(answer, out, writer, capabilities);
            },
            None => {},
        }
    }

    /// Takes a sub-negotiation. One about an option that the policy does not
    /// know is dropped.
    fn receive_sub(
        &mut self,
        op: u8,
        data: Vec<u8>,
        out: &mut Vec<TelnetEvent>,
        writer: &mut BytesMut,
        capabilities: &mut ProtocolCapabilities,
    )
        ensures
            follows(
                after_sub(old(self)@, old(capabilities)@, op, data@),
                final(self)@,
                final(capabilities)@,
                contents(old(writer)),
                contents(final(writer)),
                events_of(old(out)@),
                events_of(final(out)@),
            ),
    {
        assert(events_of(out@) =~= events_of(old(out)@) + Seq::<Event>::empty());
        assert(contents(writer) =~= contents(old(writer)) + Seq::<u8>::empty());
        if !self.op_state.contains_key(&op) {
            return ;
        }
        if op == codes::NAWS {
            self.receive_naws(data, out, writer, capabilities);
        } else if op == codes::MTTS {
            self.receive_mtts(data, out, writer, capabilities);
        }
    }

    /// Takes a stand-alone command. None has an effect.
    fn receive_command(
        &mut self,
        command: u8,
        out: &mut Vec<TelnetEvent>,
        writer: &mut BytesMut,
        capabilities: &mut ProtocolCapabilities,
    )
        ensures
            *final(self) == *old(self),
            final(out)@ == old(out)@,
            contents(final(writer)) == contents(old(writer)),
            *final(capabilities) == *old(capabilities),
    {
    }

    /// Takes application bytes: they join the bytes kept so far, and each
    /// line that a line feed completes is raised, trimmed, where it is
    /// well-formed UTF-8, and dropped where it is not.
    fn receive_data(&mut self, data: Vec<u8>, out: &mut Vec<TelnetEvent>)
        ensures
            final(self)@ == (TelnetState {
                app_buffer: unfinished_line(old(self)@.app_buffer + data@),
                ..old(self)@
            }),
            events_of(final(out)@) == events_of(old(out)@) + lines_of(
                old(self)@.app_buffer + data@,
            ),
    {
        buf_extend(&mut self.app_buffer, data.as_slice());
        let ghost all = contents(&self.app_buffer);
        let mut len: usize = buf_bytes(&self.app_buffer).len();
        let mut at: usize = find_lf(buf_bytes(&self.app_buffer));
        assert(events_of(out@) + lines_of(all) =~= events_of(old(out)@) + lines_of(all));
        while at < len
            invariant
                len == contents(&self.app_buffer).len(),
                at == first_lf(contents(&self.app_buffer), 0),
                self@ == (TelnetState {
                    app_buffer: contents(&self.app_buffer),
                    ..old(self)@
                }),
                unfinished_line(contents(&self.app_buffer)) == unfinished_line(all),
                events_of(out@) + lines_of(contents(&self.app_buffer)) == events_of(old(out)@)
                    + lines_of(all),
            decreases len,
        {
            let ghost buffered = contents(&self.app_buffer);
            let ghost raised = events_of(out@);
            let line_bytes = buf_split_to(&mut self.app_buffer, at);
            let line: Vec<u8> = trim_bytes(buf_bytes(&line_bytes));
            match text_of_bytes(line) {
                Some(s) => {
                    out.push(TelnetEvent::Line(s));
                },
                None => {},
            }
            assert(events_of(out@) =~= raised + line_event(buffered.take(at as int)));
            buf_advance(&mut self.app_buffer, 1);
            assert(contents(&self.app_buffer) =~= buffered.skip(at as int + 1));
            assert(raised + lines_of(buffered) =~= events_of(out@) + lines_of(
                contents(&self.app_buffer),
            ));
            len = buf_bytes(&self.app_buffer).len();
            at = find_lf(buf_bytes(&self.app_buffer));
        }
        assert(events_of(out@) + lines_of(contents(&self.app_buffer)) =~= events_of(out@));
    }

    /// Takes one frame from the peer and lets the state machine react to it.
    pub fn process_message(
        &mut self,
        msg: TelnetMessage,
        out: &mut Vec<TelnetEvent>,
        writer: &mut BytesMut,
        capabilities: &mut ProtocolCapabilities,
    )
        ensures
            follows(
                after_message(old(self)@, old(capabilities)@, msg@),
                final(self)@,
                final(capabilities)@,
                contents(old(writer)),
                contents(final(writer)),
                events_of(old(out)@),
                events_of(final(out)@),
            ),
    {
        match msg {
            TelnetMessage::SubNegotiate(op, data) => self.receive_sub(
                op,
                data,
                out,
                writer,
                capabilities,
            ),
            TelnetMessage::Negotiate(comm, op) => self.receive_negotiate(
                comm,
                op,
                out,
                writer,
                capabilities,
            ),
            TelnetMessage::IAC(byte) => {
                self.receive_command(byte, out, writer, capabilities);
                assert(events_of(out@) =~= events_of(old(out)@) + Seq::<Event>::empty());
                assert(contents(writer) =~= contents(old(writer)) + Seq::<u8>::empty());
            },
            TelnetMessage::Data(data) => {
                self.receive_data(data, out);
                assert(contents(writer) =~= contents(old(writer)) + Seq::<u8>::empty());
            },
        }
    }

    /// Takes what has come in: frame after frame is taken off the front of
    /// `input` and handled, until what is left is empty or ends inside a
    /// frame. The unfinished end stays in `input`.
    pub fn process_stream(
        &mut self,
        input: &mut BytesMut,
        out: &mut Vec<TelnetEvent>,
        writer: &mut BytesMut,
        capabilities: &mut ProtocolCapabilities,
    )
        ensures
            final(self)@ == after_stream(old(self)@, old(capabilities)@, contents(old(input))).state,
            final(capabilities)@ == after_stream(
                old(self)@,
                old(capabilities)@,
                contents(old(input)),
            ).profile,
            contents(final(input)) == after_stream(
                old(self)@,
                old(capabilities)@,
                contents(old(input)),
            ).rest,
            contents(final(writer)) == contents(old(writer)) + after_stream(
                old(self)@,
                old(capabilities)@,
                contents(old(input)),
            ).sent,
            events_of(final(out)@) == events_of(old(out)@) + after_stream(
                old(self)@,
                old(capabilities)@,
                contents(old(input)),
            ).events,
    {
        let ghost total = after_stream(old(self)@, old(capabilities)@, contents(old(input)));
        let mut more: bool = true;
        assert(contents(writer) + total.sent =~= contents(old(writer)) + total.sent);
        while more
            invariant
                more ==> {
                    let cur = after_stream(self@, capabilities@, contents(input));
                    &&& cur.state == total.state
                    &&& cur.profile == total.profile
                    &&& cur.rest == total.rest
                    &&& contents(writer) + cur.sent == contents(old(writer)) + total.sent
                    &&& events_of(out@) + cur.events == events_of(old(out)@) + total.events
                },
                !more ==> {
                    &&& self@ == total.state
                    &&& capabilities@ == total.profile
                    &&& contents(input) == total.rest
                    &&& contents(writer) == contents(old(writer)) + total.sent
                    &&& events_of(out@) == events_of(old(out)@) + total.events
                },
            decreases
                    contents(input).len() + (if more {
                        1int
                    } else {
                        0int
                    }),
        {
            let ghost cur = after_stream(self@, capabilities@, contents(input));
            let ghost written = contents(writer);
            let ghost raised = events_of(out@);
            match TelnetMessage::from_bytes(buf_bytes(input)) {
                Some((msg, len)) => {
                    let ghost first = after_message(self@, capabilities@, msg@);
                    buf_advance(input, len);
                    self.process_message(msg, out, writer, capabilities);
                    proof {
                        let others = after_stream(self@, capabilities@, contents(input));
                        assert(cur.sent == first.sent + others.sent);
                        assert(contents(writer) + others.sent =~= written + cur.sent);
                        assert(events_of(out@) + others.events =~= raised + cur.events);
                    }
                },
                None => {
                    more = false;
                    assert(written + cur.sent =~= written);
                    assert(raised + cur.events =~= raised);
                },
            }
        }
    }
}

/// A sub-negotiation of `op` with the payload `data`, with its frame around
/// it.
pub fn framed(op: u8, data: &[u8]) -> (out: Vec<u8>)
    ensures
        out@ == sub_frame(op, data@),
{
    let mut out: Vec<u8> = Vec::new();
    out.push(codes::IAC);
    out.push(codes::SB);
    out.push(op);
    append_bytes(&mut out, data);
    out.push(codes::IAC);
    out.push(codes::SE);
    assert(out@ =~= sub_frame(op, data@));
    out
}

/// The index of the first line feed in `bytes`, or their number where there
/// is none.
pub fn find_lf(bytes: &[u8]) -> (at: usize)
    ensures
        at == first_lf(bytes@, 0),
        at <= bytes@.len(),
{
    let len: usize = bytes.len();
    let mut i: usize = 0;
    while i < len && bytes[i] != codes::LF
        invariant
            len == bytes@.len(),
            0 <= i <= len,
            first_lf(bytes@, 0) == first_lf(bytes@, i as int),
        decreases len - i,
    {
        i += 1;
    }
    i
}

/// The reaction of a known option to a negotiation verb.
pub fn react(state: TelnetOptionState, verb: u8) -> (r: Reaction)
    ensures
        r == reaction(state, verb),
{
    let mut r = Reaction {
        state,
        reply: None,
        handshake_local: false,
        handshake_remote: false,
        enable_local: false,
        disable_local: false,
        enable_remote: false,
        disable_remote: false,
    };
    if verb == codes::WILL {
        if !state.remote.enabled {
            if !state.remote.negotiating {
                r.reply = Some(codes::DO);
            }
            r.state.remote.negotiating = false;
            r.state.remote.enabled = true;
            r.handshake_remote = true;
            r.enable_remote = true;
        }
    } else if verb == codes::WONT {
        r.handshake_remote = state.remote.negotiating;
        r.disable_remote = state.remote.enabled;
        r.state.remote.negotiating = false;
        r.state.remote.enabled = false;
    } else if verb == codes::DO {
        if !state.local.enabled {
            if !state.local.negotiating {
                r.reply = Some(codes::WILL);
            }
            r.state.local.negotiating = false;
            r.state.local.enabled = true;
            r.handshake_local = true;
            r.enable_local = true;
        }
    } else if verb == codes::DONT {
        r.handshake_local = state.local.negotiating;
        r.disable_local = state.local.enabled;
        r.state.local.negotiating = false;
        r.state.local.enabled = false;
    }
    r
}

} // verus!
