//! The stages of a tick, as far as they decide and compute: each one takes a
//! connection and the protocol side that belongs to it.

use crate::engine::resources::ConnPoll;
use crate::game::login_cmds::{login_effect, queued, LoginCommands};
use crate::net::buffer::contents;
use crate::net::capabilities::{ConnType, Protocol};
use crate::net::connection::ConnectionComponent;
use crate::net::protocol::{
    lines_appended, telnet_bytes, ProtocolComponent, ProtocolEvent, ProtocolOutEvent,
    ProtocolStatus,
};
use crate::net::telnet::model::{after_stream, line_texts, opened, opening, TelnetState};
use crate::net::telnet::options::TelnetOption;
use crate::net::telnet::protocol::fresh;
use mio::Token;
use std::collections::HashMap;
use std::sync::Arc;
use vstd::prelude::*;

verus! {

/// Makes the two records of a connection that has just been accepted, and
/// opens the protocol: a Telnet connection starts with the opening negotiation
/// in its outbound buffer.
pub fn accept_new_connection(
    protocol: Protocol,
    ctype: ConnType,
    token: Token,
    options: Arc<HashMap<u8, TelnetOption>>,
    now: u64,
) -> (out: (ConnectionComponent, ProtocolComponent))
    ensures
        out.0.protocol == protocol,
        out.0.ctype == ctype,
        out.0.token == token,
        !out.0.write_ready,
        !out.0.new_data,
        out.0.status is Active,
        contents(&out.0.read_buff) == Seq::<u8>::empty(),
        out.1.pstatus == ProtocolStatus::Negotiating,
        out.1.created == now,
        out.1.session is None,
        out.1.in_buffer@.len() == 0,
        out.1.out_buffer@.len() == 0,
        match protocol {
            Protocol::Telnet => {
                &&& out.1.telnet_state() == Some(
                    TelnetState {
                        op_state: opened(fresh(options@).op_state, options@, 256),
                        ..fresh(options@)
                    },
                )
                &&& out.1.capabilities@ == crate::net::capabilities::unknown_client()
                &&& contents(&out.0.write_buff) == opening(options@, 256)
            },
            Protocol::WebSocket => {
                &&& out.1.ptype is WebSocket
                &&& out.1.capabilities@ == crate::net::capabilities::websocket_client()
                &&& contents(&out.0.write_buff) == Seq::<u8>::empty()
            },
            Protocol::SSH => {
                &&& out.1.ptype is SSH
                &&& out.1.capabilities@ == crate::net::capabilities::ssh_client()
                &&& contents(&out.0.write_buff) == Seq::<u8>::empty()
            },
        },
{
    let mut conn = ConnectionComponent::new(protocol, ctype, token);
    let mut prot = match protocol {
        Protocol::Telnet => ProtocolComponent::telnet(options, now),
        Protocol::WebSocket => ProtocolComponent::websocket(now),
        Protocol::SSH => ProtocolComponent::ssh(now),
    };
    prot.start(&mut conn);
    assert(contents(&conn.write_buff) =~= match protocol {
        Protocol::Telnet => opening(options@, 256),
        _ => Seq::<u8>::empty(),
    });
    (conn, prot)
}

/// The decode stage: where bytes have come in since the last look, the
/// protocol reads them, and the connection is marked as looked at.
pub fn process_connection_newdata(conn: &mut ConnectionComponent, prot: &mut ProtocolComponent)
    ensures
        !final(conn).new_data,
        final(conn).protocol == old(conn).protocol,
        final(conn).ctype == old(conn).ctype,
        final(conn).token == old(conn).token,
        final(conn).write_ready == old(conn).write_ready,
        final(prot).pstatus == old(prot).pstatus,
        final(prot).out_buffer == old(prot).out_buffer,
        final(prot).created == old(prot).created,
        final(prot).session == old(prot).session,
        !old(conn).new_data ==> *final(prot) == *old(prot) && *final(conn) == *old(conn),
        old(conn).new_data ==> match old(prot).telnet_state() {
            Some(state) => {
                let total = after_stream(
                    state,
                    old(prot).capabilities@,
                    contents(&old(conn).read_buff),
                );
                &&& final(prot).telnet_state() == Some(total.state)
                &&& final(prot).capabilities@ == total.profile
                &&& contents(&final(conn).read_buff) == total.rest
                &&& contents(&final(conn).write_buff) == contents(&old(conn).write_buff)
                    + total.sent
                &&& lines_appended(
                    old(prot).in_buffer@,
                    final(prot).in_buffer@,
                    line_texts(total.events),
                )
                &&& final(conn).status == old(conn).status
            },
            None => {
                &&& *final(prot) == *old(prot)
                &&& final(conn).read_buff == old(conn).read_buff
                &&& final(conn).write_buff == old(conn).write_buff
                &&& if contents(&old(conn).read_buff).len() > 0 && old(conn).status is Active {
                    final(conn).status is ServerClosed
                } else {
                    final(conn).status == old(conn).status
                }
            },
        },
{
    if conn.new_data {
        prot.process_new_data(conn);
        conn.new_data = false;
    }
}

/// The first step of the write stage: a connection that the last poll found
/// writable is marked so, and any other keeps its mark.
pub fn process_connection_outgoing(conn: &mut ConnectionComponent, conn_poll: &ConnPoll)
    ensures
        *final(conn) == (ConnectionComponent {
            write_ready: old(conn).write_ready || conn_poll.write_ready@.contains(old(conn).token),
            ..*old(conn)
        }),
{
    if conn_poll.is_write_ready(conn.token) {
        conn.write_ready = true;
    }
}

/// The health check of one connection, whatever the state of its transport:
/// a protocol that is still negotiating becomes active once nothing is awaited
/// any more or the deadline has passed, and the welcome prompt is queued for
/// the client. An active protocol stays as it is.
pub fn connection_health_check(
    conn: &ConnectionComponent,
    prot: &mut ProtocolComponent,
    now: u64,
) -> (became_active: bool)
    ensures
        became_active == (old(prot).pstatus == ProtocolStatus::Negotiating && old(
            prot,
        ).negotiation_over(now)),
        !became_active ==> *final(prot) == *old(prot),
        became_active ==> {
            &&& final(prot).pstatus == ProtocolStatus::Active
            &&& final(prot).ptype == old(prot).ptype
            &&& final(prot).capabilities == old(prot).capabilities
            &&& final(prot).in_buffer == old(prot).in_buffer
            &&& final(prot).created == old(prot).created
            &&& final(prot).session == old(prot).session
            &&& final(prot).out_buffer@.len() == old(prot).out_buffer@.len() + 1
            &&& final(prot).out_buffer@.drop_last() == old(prot).out_buffer@
            &&& final(prot).out_buffer@.last() matches ProtocolOutEvent::Prompt(text)
                && text.plain@ == crate::net::protocol::welcome_text()
        },
{
    prot.health_check(now)
}

/// The bytes that a queue of events for the client is sent as, first event
/// first. A protocol other than Telnet sends nothing.
pub open spec fn queue_bytes(state: Option<TelnetState>, events: Seq<ProtocolOutEvent>) -> Seq<u8>
    decreases events.len(),
{
    if events.len() == 0 {
        Seq::empty()
    } else {
        (match state {
            Some(s) => telnet_bytes(s, events[0]),
            None => Seq::empty(),
        }) + queue_bytes(state, events.drop_first())
    }
}

/// Sends the client all that the upper layers have queued for it, in the
/// order in which it was queued.
pub fn send_out_events(prot: &mut ProtocolComponent, conn: &mut ConnectionComponent)
    ensures
        final(prot).out_buffer@.len() == 0,
        final(prot).ptype == old(prot).ptype,
        final(prot).pstatus == old(prot).pstatus,
        final(prot).capabilities == old(prot).capabilities,
        final(prot).in_buffer == old(prot).in_buffer,
        final(prot).created == old(prot).created,
        final(prot).session == old(prot).session,
        *final(conn) == (ConnectionComponent { write_buff: final(conn).write_buff, ..*old(conn) }),
        contents(&final(conn).write_buff) == contents(&old(conn).write_buff) + queue_bytes(
            old(prot).telnet_state(),
            old(prot).out_buffer@,
        ),
{
    let ghost state = prot.telnet_state();
    let ghost all = prot.out_buffer@;
    assert(contents(&conn.write_buff) + queue_bytes(state, all) =~= contents(&old(conn).write_buff)
        + queue_bytes(state, all));
    let mut more: bool = true;
    while more
        invariant
            prot.ptype == old(prot).ptype,
            prot.pstatus == old(prot).pstatus,
            prot.capabilities == old(prot).capabilities,
            prot.in_buffer == old(prot).in_buffer,
            prot.created == old(prot).created,
            prot.session == old(prot).session,
            state == old(prot).telnet_state(),
            all == old(prot).out_buffer@,
            *conn == (ConnectionComponent { write_buff: conn.write_buff, ..*old(conn) }),
            contents(&conn.write_buff) + queue_bytes(state, prot.out_buffer@) == contents(
                &old(conn).write_buff,
            ) + queue_bytes(state, all),
            !more ==> prot.out_buffer@.len() == 0,
        decreases
                prot.out_buffer@.len() + (if more {
                    1int
                } else {
                    0int
                }),
    {
        let ghost queued = prot.out_buffer@;
        let ghost written = contents(&conn.write_buff);
        match prot.out_buffer.pop_front() {
            Some(event) => {
                assert(prot.out_buffer@ =~= queued.drop_first());
                prot.send_event(event, conn);
                assert(contents(&conn.write_buff) + queue_bytes(state, prot.out_buffer@)
                    =~= written + queue_bytes(state, queued));
            },
            None => {
                more = false;
            },
        }
    }
    assert(contents(&conn.write_buff) + queue_bytes(state, prot.out_buffer@) =~= contents(
        &conn.write_buff,
    ));
}

/// Takes the oldest event of a client that has not logged in and carries it
/// out: a line is a login command, and any other event is dropped. A client
/// that has logged in is left to its session.
pub fn execute_connection_events(
    conn: &ConnectionComponent,
    prot: &mut ProtocolComponent,
    lcmds: &mut LoginCommands,
)
    ensures
        final(lcmds).cmds == old(lcmds).cmds,
        final(prot).ptype == old(prot).ptype,
        final(prot).pstatus == old(prot).pstatus,
        final(prot).capabilities == old(prot).capabilities,
        final(prot).created == old(prot).created,
        final(prot).session == old(prot).session,
        if old(prot).session is Some || old(prot).in_buffer@.len() == 0 {
            *final(prot) == *old(prot)
        } else {
            match old(prot).in_buffer@[0] {
                ProtocolEvent::Line(s) => queued(
                    login_effect(old(lcmds).cmds@, s@),
                    old(prot).in_buffer@.drop_first(),
                    old(prot).out_buffer@,
                    *final(prot),
                ),
                _ => {
                    &&& final(prot).in_buffer@ == old(prot).in_buffer@.drop_first()
                    &&& final(prot).out_buffer == old(prot).out_buffer
                },
            }
        },
{
    if prot.session.is_some() || prot.in_buffer.len() == 0 {
        return ;
    }
    match prot.in_buffer.pop_front() {
        Some(event) => {
            assert(prot.in_buffer@ =~= old(prot).in_buffer@.drop_first());
            match event {
                ProtocolEvent::Line(s) => {
                    lcmds.execute(prot, s);
                },
                _ => {},
            }
        },
        None => {},
    }
}

} // verus!
