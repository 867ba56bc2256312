//! The protocol envelope of a connection: the protocol's own state, the
//! capability profile, and the queues between the bytes and the upper layers.

use crate::net::buffer::{buf_bytes, contents};
use crate::net::capabilities::ProtocolCapabilities;
use crate::net::connection::{ConnectionComponent, ConnectionStatus};
use crate::net::telnet::codes;
use crate::net::oob::{
    encode_gmcp, encode_msdp, gmcp_payload, msdp_payload, named_values, push_named_values,
};
use crate::net::telnet::message::append_bytes;
use crate::net::telnet::model::{
    after_stream, line_texts, opened, opening, sub_frame, Event, TelnetState,
};
use crate::net::telnet::options::TelnetOption;
use crate::net::telnet::protocol::{events_of, framed, fresh, TelnetEvent, TelnetProtocol};
use legion::Entity;
use std::collections::HashMap;
use std::collections::VecDeque;
use std::sync::Arc;
use vstd::prelude::*;
use vstd::utf8::encode_utf8;

verus! {

/// `legion::Entity`, carried as it comes: nothing is known of what it holds.
#[verifier::external_type_specification]
#[verifier::external_body]
pub struct ExEntity(legion::Entity);

/// Text for the client, without markup.
#[derive(Debug, Clone)]
pub struct Text {
    pub plain: String,
}

impl Text {
    /// The text of `content`.
    pub fn new(content: &str) -> (out: Self)
        ensures
            out.plain@ == content@,
    {
        Text { plain: content.to_owned() }
    }

    /// The bytes that show the text on a client of the given capabilities:
    /// its UTF-8 encoding, on every client.
    pub fn render(&self, capabilities: &ProtocolCapabilities) -> (out: Vec<u8>)
        ensures
            out@ == encode_utf8(self.plain@),
    {
        let mut out: Vec<u8> = Vec::new();
        append_bytes(&mut out, self.plain.as_str().as_bytes());
        assert(out@ =~= encode_utf8(self.plain@));
        out
    }
}

/// The protocol of a connection, with its state.
#[derive(Debug)]
pub enum ProtocolType {
    Telnet(TelnetProtocol),
    WebSocket,
    SSH,
}

/// What a client has said, for the upper layers.
#[derive(Debug, Clone)]
pub enum ProtocolEvent {
    /// A line of input.
    Line(String),
    /// An out-of-band command with its plain arguments and its named ones,
    /// each name once, in the order in which they were given.
    OOB(String, Vec<String>, Vec<(String, String)>),
    /// The client asks for the server's status.
    RequestMSSP,
    /// A user name and a password for a new account.
    CreateUser(String, String),
    /// A user name and a password.
    Login(String, String),
}

/// What the upper layers have to say to a client.
#[derive(Debug, Clone)]
pub enum ProtocolOutEvent {
    Line(Text),
    /// An out-of-band command with its plain arguments and its named ones,
    /// each name once, in the order in which they are to be written.
    OOB(String, Vec<String>, Vec<(String, String)>),
    Prompt(Text),
    /// The server's status, as names and values.
    MSSP(Vec<(String, String)>),
}

/// How far a connection has come.
#[derive(Debug, Clone, Copy, PartialEq, Eq, Structural)]
pub enum ProtocolStatus {
    Negotiating,
    Active,
}

/// The protocol side of one connection.
#[derive(Debug)]
pub struct ProtocolComponent {
    pub ptype: ProtocolType,
    pub pstatus: ProtocolStatus,
    pub capabilities: ProtocolCapabilities,
    /// What the client has said and the upper layers have not read.
    pub in_buffer: VecDeque<ProtocolEvent>,
    /// What the upper layers have said and the client has not been sent.
    pub out_buffer: VecDeque<ProtocolOutEvent>,
    /// When the connection was made, in milliseconds of a clock that does
    /// not go back.
    pub created: u64,
    /// The session of the user who has logged in, if any has.
    pub session: Option<Entity>,
}

/// The milliseconds that a negotiation may take.
pub const NEGOTIATION_DEADLINE: u64 = 300;

/// The prompt that greets a client once the negotiation is over.
pub open spec fn welcome_text() -> Seq<char> {
    "Welcome! Type 'help' for help."@
}

/// The text of a line, where the event is a line.
pub open spec fn line_of(event: ProtocolEvent) -> Option<Seq<char>> {
    match event {
        ProtocolEvent::Line(s) => Some(s@),
        _ => None,
    }
}

/// Tells that `after` is `before` with one line for each of `texts` behind it.
pub open spec fn lines_appended(
    before: Seq<ProtocolEvent>,
    after: Seq<ProtocolEvent>,
    texts: Seq<Seq<char>>,
) -> bool {
    &&& after.len() == before.len() + texts.len()
    &&& after.take(before.len() as int) == before
    &&& forall|i: int| 0 <= i < texts.len() ==> line_of(#[trigger] after[before.len() + i]) == Some(texts[i])
}

/// The mark that ends a prompt: End Of Record where that option is on at our
/// end, else Go Ahead unless its suppression is on at our end.
pub open spec fn prompt_mark(state: TelnetState) -> Seq<u8> {
    if state.op_state.contains_key(codes::TELOPT_EOR) && state.op_state[codes::TELOPT_EOR].local.enabled {
        seq![codes::IAC, codes::EOR]
    } else if state.op_state.contains_key(codes::SGA) && state.op_state[codes::SGA].local.enabled {
        Seq::empty()
    } else {
        seq![codes::IAC, codes::GA]
    }
}

/// Tells whether an option is in use: the policy knows it, and it is switched
/// on at one end or the other.
pub open spec fn in_use(state: TelnetState, op: u8) -> bool {
    state.op_state.contains_key(op) && (state.op_state[op].local.enabled
        || state.op_state[op].remote.enabled)
}

/// The bytes that an out-of-band command is sent as: a GMCP sub-negotiation
/// where GMCP is in use, else an MSDP sub-negotiation where MSDP is in use,
/// and nothing where neither is.
pub open spec fn oob_bytes(
    state: TelnetState,
    cmd: Seq<char>,
    args: Seq<String>,
    kwargs: Seq<(String, String)>,
) -> Seq<u8> {
    if in_use(state, codes::GMCP) {
        sub_frame(codes::GMCP, gmcp_payload(cmd, args, kwargs))
    } else if in_use(state, codes::MSDP) {
        sub_frame(codes::MSDP, msdp_payload(cmd, args, kwargs))
    } else {
        Seq::empty()
    }
}

/// The bytes that an event for the client is sent as over Telnet. A line ends
/// in CR LF, a prompt in its mark; a status report is a sub-negotiation of
/// names and values; an out-of-band command is a sub-negotiation of the option
/// that carries it.
pub open spec fn telnet_bytes(state: TelnetState, event: ProtocolOutEvent) -> Seq<u8> {
    match event {
        ProtocolOutEvent::Line(text) => encode_utf8(text.plain@) + seq![codes::CR, codes::LF],
        ProtocolOutEvent::Prompt(text) => encode_utf8(text.plain@) + prompt_mark(state),
        ProtocolOutEvent::MSSP(pairs) => sub_frame(codes::MSSP, named_values(pairs@)),
        ProtocolOutEvent::OOB(cmd, args, kwargs) => oob_bytes(state, cmd@, args@, kwargs@),
    }
}

impl ProtocolComponent {
    /// The state of the Telnet protocol, where the connection speaks Telnet.
    pub open spec fn telnet_state(&self) -> Option<TelnetState> {
        match self.ptype {
            ProtocolType::Telnet(t) => Some(t@),
            _ => None,
        }
    }

    /// The protocol side of a new Telnet connection.
    pub fn telnet(options: Arc<HashMap<u8, TelnetOption>>, created: u64) -> (out: Self)
        ensures
            out.telnet_state() == Some(fresh(options@)),
            out.pstatus == ProtocolStatus::Negotiating,
            out.capabilities@ == crate::net::capabilities::unknown_client(),
            out.in_buffer@.len() == 0,
            out.out_buffer@.len() == 0,
            out.created == created,
            out.session is None,
    {
        ProtocolComponent {
            ptype: ProtocolType::Telnet(TelnetProtocol::new(options)),
            pstatus: ProtocolStatus::Negotiating,
            capabilities: ProtocolCapabilities::telnet(),
            in_buffer: VecDeque::new(),
            out_buffer: VecDeque::new(),
            created,
            session: None,
        }
    }

    /// The protocol side of a new WebSocket connection.
    pub fn websocket(created: u64) -> (out: Self)
        ensures
            out.ptype is WebSocket,
            out.pstatus == ProtocolStatus::Negotiating,
            out.capabilities@ == crate::net::capabilities::websocket_client(),
            out.in_buffer@.len() == 0,
            out.out_buffer@.len() == 0,
            out.created == created,
            out.session is None,
    {
        ProtocolComponent {
            ptype: ProtocolType::WebSocket,
            pstatus: ProtocolStatus::Negotiating,
            capabilities: ProtocolCapabilities::websocket(),
            in_buffer: VecDeque::new(),
            out_buffer: VecDeque::new(),
            created,
            session: None,
        }
    }

    /// The protocol side of a new SSH connection.
    pub fn ssh(created: u64) -> (out: Self)
        ensures
            out.ptype is SSH,
            out.pstatus == ProtocolStatus::Negotiating,
            out.capabilities@ == crate::net::capabilities::ssh_client(),
            out.in_buffer@.len() == 0,
            out.out_buffer@.len() == 0,
            out.created == created,
            out.session is None,
    {
        ProtocolComponent {
            ptype: ProtocolType::SSH,
            pstatus: ProtocolStatus::Negotiating,
            capabilities: ProtocolCapabilities::ssh(),
            in_buffer: VecDeque::new(),
            out_buffer: VecDeque::new(),
            created,
            session: None,
        }
    }

    /// Opens the protocol: Telnet queues its opening negotiation for the
    /// client, the other protocols have nothing to say.
    pub fn start(&mut self, conn: &mut ConnectionComponent)
        ensures
            final(self).pstatus == old(self).pstatus,
            final(self).capabilities == old(self).capabilities,
            final(self).in_buffer == old(self).in_buffer,
            final(self).out_buffer == old(self).out_buffer,
            final(self).created == old(self).created,
            final(self).session == old(self).session,
            *final(conn) == (ConnectionComponent { write_buff: final(conn).write_buff, ..*old(conn) }),
            match old(self).telnet_state() {
                Some(state) => {
                    &&& final(self).telnet_state() == Some(
                        TelnetState { op_state: opened(state.op_state, state.policy, 256), ..state },
                    )
                    &&& contents(&final(conn).write_buff) == contents(&old(conn).write_buff)
                        + opening(state.policy, 256)
                },
                None => {
                    &&& final(self).ptype == old(self).ptype
                    &&& final(conn).write_buff == old(conn).write_buff
                },
            },
    {
        match &mut self.ptype {
            ProtocolType::Telnet(telnet) => {
                telnet.start(&mut conn.write_buff);
            },
            _ => {},
        }
    }

    /// Queues each line among `events` for the upper layers.
    fn queue_lines(&mut self, events: &Vec<TelnetEvent>)
        ensures
            final(self).ptype == old(self).ptype,
            final(self).pstatus == old(self).pstatus,
            final(self).capabilities == old(self).capabilities,
            final(self).out_buffer == old(self).out_buffer,
            final(self).created == old(self).created,
            final(self).session == old(self).session,
            lines_appended(
                old(self).in_buffer@,
                final(self).in_buffer@,
                line_texts(events_of(events@)),
            ),
    {
        let n: usize = events.len();
        let mut i: usize = 0;
        assert(events_of(events@).take(0) =~= Seq::<Event>::empty());
        assert(self.in_buffer@.take(self.in_buffer@.len() as int) =~= self.in_buffer@);
        while i < n
            invariant
                n == events@.len(),
                0 <= i <= n,
                self.ptype == old(self).ptype,
                self.pstatus == old(self).pstatus,
                self.capabilities == old(self).capabilities,
                self.out_buffer == old(self).out_buffer,
                self.created == old(self).created,
                self.session == old(self).session,
                lines_appended(
                    old(self).in_buffer@,
                    self.in_buffer@,
                    line_texts(events_of(events@).take(i as int)),
                ),
            decreases n - i,
        {
            let ghost queued = self.in_buffer@;
            let ghost seen = events_of(events@).take(i as int);
            assert(events_of(events@).take(i as int + 1).drop_last() =~= seen);
            match &events[i] {
                TelnetEvent::Line(s) => {
                    self.in_buffer.push_back(ProtocolEvent::Line(s.clone()));
                    assert(self.in_buffer@.take(old(self).in_buffer@.len() as int) =~= queued.take(
                        old(self).in_buffer@.len() as int,
                    ));
                },
                _ => {},
            }
            i += 1;
        }
        assert(events_of(events@).take(n as int) =~= events_of(events@));
    }

    /// Lets the protocol read what has come in. Telnet takes the complete
    /// frames off the inbound buffer, answers the client and queues the lines
    /// for the upper layers. The other protocols take no data: the server
    /// closes a live connection on which some has come.
    pub fn process_new_data(&mut self, conn: &mut ConnectionComponent)
        ensures
            final(self).pstatus == old(self).pstatus,
            final(self).out_buffer == old(self).out_buffer,
            final(self).created == old(self).created,
            final(self).session == old(self).session,
            final(conn).protocol == old(conn).protocol,
            final(conn).ctype == old(conn).ctype,
            final(conn).token == old(conn).token,
            final(conn).write_ready == old(conn).write_ready,
            final(conn).new_data == old(conn).new_data,
            match old(self).telnet_state() {
                Some(state) => {
                    let total = after_stream(
                        state,
                        old(self).capabilities@,
                        contents(&old(conn).read_buff),
                    );
                    &&& final(self).telnet_state() == Some(total.state)
                    &&& final(self).capabilities@ == total.profile
                    &&& contents(&final(conn).read_buff) == total.rest
                    &&& contents(&final(conn).write_buff) == contents(&old(conn).write_buff)
                        + total.sent
                    &&& lines_appended(
                        old(self).in_buffer@,
                        final(self).in_buffer@,
                        line_texts(total.events),
                    )
                    &&& final(conn).status == old(conn).status
                },
                None => {
                    &&& *final(self) == *old(self)
                    &&& final(conn).read_buff == old(conn).read_buff
                    &&& final(conn).write_buff == old(conn).write_buff
                    &&& if contents(&old(conn).read_buff).len() > 0 && old(conn).status is Active {
                        final(conn).status is ServerClosed
                    } else {
                        final(conn).status == old(conn).status
                    }
                },
            },
    {
        let mut events: Vec<TelnetEvent> = Vec::new();
        match &mut self.ptype {
            ProtocolType::Telnet(telnet) => {
                assert(events_of(events@) =~= Seq::<Event>::empty());
                telnet.process_stream(
                    &mut conn.read_buff,
                    &mut events,
                    &mut conn.write_buff,
                    &mut self.capabilities,
                );
                assert(events_of(events@) =~= after_stream(
                    old(self).telnet_state()->0,
                    old(self).capabilities@,
                    contents(&old(conn).read_buff),
                ).events);
            },
            _ => {
                if buf_bytes(&conn.read_buff).len() > 0 && conn.is_active() {
                    conn.status = ConnectionStatus::ServerClosed;
                }
                return ;
            },
        }
        self.queue_lines(&events);
    }

    /// Sends an event to the client. Over Telnet a line goes out with CR LF
    /// behind it, a prompt with its mark, a status report as a sub-negotiation
    /// of names and values, and an out-of-band command as a sub-negotiation of
    /// GMCP or, where GMCP is not in use, of MSDP; where neither is in use it
    /// is dropped. The other protocols send nothing.
    pub fn send_event(&mut self, event: ProtocolOutEvent, conn: &mut ConnectionComponent)
        ensures
            *final(self) == *old(self),
            *final(conn) == (ConnectionComponent { write_buff: final(conn).write_buff, ..*old(conn) }),
            contents(&final(conn).write_buff) == contents(&old(conn).write_buff) + (match old(
                self,
            ).telnet_state() {
                Some(state) => telnet_bytes(state, event),
                None => Seq::empty(),
            }),
    {
        match &self.ptype {
            ProtocolType::Telnet(telnet) => {
                match event {
                    ProtocolOutEvent::Line(text) => {
                        let mut bytes: Vec<u8> = text.render(&self.capabilities);
                        bytes.push(codes::CR);
                        bytes.push(codes::LF);
                        assert(bytes@ =~= telnet_bytes(telnet@, event));
                        conn.write(bytes.as_slice());
                    },
                    ProtocolOutEvent::Prompt(text) => {
                        let mut bytes: Vec<u8> = text.render(&self.capabilities);
                        let eor: bool = match telnet.op_state.get(&codes::TELOPT_EOR) {
                            Some(st) => st.local.enabled,
                            None => false,
                        };
                        let sga: bool = match telnet.op_state.get(&codes::SGA) {
                            Some(st) => st.local.enabled,
                            None => false,
                        };
                        if eor {
                            bytes.push(codes::IAC);
                            bytes.push(codes::EOR);
                        } else if !sga {
                            bytes.push(codes::IAC);
                            bytes.push(codes::GA);
                        }
                        assert(bytes@ =~= telnet_bytes(telnet@, event));
                        conn.write(bytes.as_slice());
                    },
                    ProtocolOutEvent::MSSP(pairs) => {
                        let mut payload: Vec<u8> = Vec::new();
                        push_named_values(&mut payload, &pairs);
                        assert(payload@ =~= named_values(pairs@));
                        let bytes: Vec<u8> = framed(codes::MSSP, payload.as_slice());
                        conn.write(bytes.as_slice());
                    },
                    ProtocolOutEvent::OOB(cmd, args, kwargs) => {
                        if telnet.uses(codes::GMCP) {
                            let payload: Vec<u8> = encode_gmcp(cmd.as_str(), &args, &kwargs);
                            let bytes: Vec<u8> = framed(codes::GMCP, payload.as_slice());
                            conn.write(bytes.as_slice());
                        } else if telnet.uses(codes::MSDP) {
                            let payload: Vec<u8> = encode_msdp(cmd.as_str(), &args, &kwargs);
                            let bytes: Vec<u8> = framed(codes::MSDP, payload.as_slice());
                            conn.write(bytes.as_slice());
                        } else {
                            assert(contents(&conn.write_buff) =~= contents(&old(conn).write_buff)
                                + Seq::<u8>::empty());
                        }
                    },
                }
            },
            _ => {
                assert(contents(&conn.write_buff) =~= contents(&old(conn).write_buff) + Seq::<
                    u8,
                >::empty());
            },
        }
    }

    /// Tells whether the negotiation is over at the time `now`: nothing is
    /// awaited any more, or the deadline has passed. A protocol other than
    /// Telnet negotiates nothing.
    pub open spec fn negotiation_over(&self, now: u64) -> bool {
        match self.ptype {
            ProtocolType::Telnet(t) => t.handshakes_left.none_left() || now - self.created
                > NEGOTIATION_DEADLINE,
            _ => true,
        }
    }

    /// Looks after a connection that is still negotiating: once the
    /// negotiation is over the connection becomes active and the welcome
    /// prompt is queued for the client. An active connection stays as it is.
    pub fn health_check(&mut self, now: u64) -> (became_active: bool)
        ensures
            final(self).ptype == old(self).ptype,
            final(self).capabilities == old(self).capabilities,
            final(self).in_buffer == old(self).in_buffer,
            final(self).created == old(self).created,
            final(self).session == old(self).session,
            became_active == (old(self).pstatus == ProtocolStatus::Negotiating && old(
                self,
            ).negotiation_over(now)),
            became_active ==> {
                &&& final(self).pstatus == ProtocolStatus::Active
                &&& final(self).out_buffer@.len() == old(self).out_buffer@.len() + 1
                &&& final(self).out_buffer@.drop_last() == old(self).out_buffer@
                &&& final(self).out_buffer@.last() matches ProtocolOutEvent::Prompt(text)
                    && text.plain@ == welcome_text()
            },
            !became_active ==> *final(self) == *old(self),
    {
        match self.pstatus {
            ProtocolStatus::Active => {
                return false;
            },
            ProtocolStatus::Negotiating => {},
        }
        let over: bool = match &self.ptype {
            ProtocolType::Telnet(telnet) => {
                telnet.handshakes_left.is_empty() || (now > self.created && now - self.created
                    > NEGOTIATION_DEADLINE)
            },
            _ => true,
        };
        if over {
            self.pstatus = ProtocolStatus::Active;
            self.out_buffer.push_back(
                ProtocolOutEvent::Prompt(Text::new("Welcome! Type 'help' for help.")),
            );
            assert(self.out_buffer@.drop_last() =~= old(self).out_buffer@);
        }
        over
    }
}

} // verus!
