//! The record of one client: its buffers, its readiness flags and its status,
//! and what each result of a read or a write does to them.

use crate::net::buffer::{buf_advance, buf_bytes, buf_extend, buf_new, contents};
use crate::net::capabilities::{ConnType, Protocol};
use bytes::BytesMut;
use mio::Token;
use vstd::prelude::*;

verus! {

/// `std::io::Error`, carried as it comes: nothing is known of what it holds.
#[verifier::external_type_specification]
#[verifier::external_body]
pub struct ExIoError(std::io::Error);

/// `mio::Token`: a number, in a public field.
#[verifier::external_type_specification]
pub struct ExToken(mio::Token);

/// Whether a connection is alive, and if not, why.
#[derive(Debug)]
pub enum ConnectionStatus {
    Active,
    /// The peer has closed its end.
    ClientEOF,
    ClientTimeout,
    ServerClosed,
    /// The transport has failed.
    ClientError(std::io::Error),
}

/// What a read on the transport came to.
#[derive(Debug)]
pub enum ReadEvent<'a> {
    /// The bytes that were read. None means that the peer has closed its end.
    Chunk(&'a [u8]),
    /// Nothing more can be read for now.
    WouldBlock,
    Failed(std::io::Error),
}

/// What a write on the transport came to.
#[derive(Debug)]
pub enum WriteEvent {
    /// The number of bytes that the transport took.
    Written(usize),
    /// The transport takes nothing more for now.
    WouldBlock,
    Failed(std::io::Error),
}

/// One client.
#[derive(Debug)]
pub struct ConnectionComponent {
    pub protocol: Protocol,
    pub ctype: ConnType,
    /// The name by which the poller knows this connection.
    pub token: Token,
    /// The transport has room for more bytes.
    pub write_ready: bool,
    /// Bytes have come in since the protocol last looked.
    pub new_data: bool,
    /// What was read and not yet decoded.
    pub read_buff: BytesMut,
    /// What is to be written.
    pub write_buff: BytesMut,
    pub status: ConnectionStatus,
}

impl ConnectionComponent {
    /// The record of a connection that has just been accepted: alive, with
    /// empty buffers, not known to be writable.
    pub fn new(protocol: Protocol, ctype: ConnType, token: Token) -> (out: Self)
        ensures
            out.protocol == protocol,
            out.ctype == ctype,
            out.token == token,
            !out.write_ready,
            !out.new_data,
            contents(&out.read_buff) == Seq::<u8>::empty(),
            contents(&out.write_buff) == Seq::<u8>::empty(),
            out.status is Active,
    {
        ConnectionComponent {
            protocol,
            ctype,
            token,
            write_ready: false,
            new_data: false,
            read_buff: buf_new(),
            write_buff: buf_new(),
            status: ConnectionStatus::Active,
        }
    }

    /// Tells whether the connection runs over TLS.
    pub fn is_tls(&self) -> (r: bool)
        ensures
            r == (self.ctype == ConnType::TLS),
    {
        match self.ctype {
            ConnType::TLS => true,
            ConnType::Plain => false,
        }
    }

    /// Tells whether the connection is alive. No I/O is due on one that is not.
    pub fn is_active(&self) -> (r: bool)
        ensures
            r == (self.status is Active),
    {
        match self.status {
            ConnectionStatus::Active => true,
            _ => false,
        }
    }

    /// Queues `data` for the peer.
    pub fn write(&mut self, data: &[u8]) -> (n: usize)
        ensures
            n == data@.len(),
            contents(&final(self).write_buff) == contents(&old(self).write_buff) + data@,
            final(self).protocol == old(self).protocol,
            final(self).ctype == old(self).ctype,
            final(self).token == old(self).token,
            final(self).write_ready == old(self).write_ready,
            final(self).new_data == old(self).new_data,
            final(self).read_buff == old(self).read_buff,
            final(self).status == old(self).status,
    {
        buf_extend(&mut self.write_buff, data);
        data.len()
    }

    /// Takes what a read on the transport came to, and tells whether to read
    /// again. Bytes join the inbound buffer, which is then marked as new. An
    /// empty read means that the peer is gone, and a failure ends the
    /// connection; `WouldBlock` ends the reading and nothing else.
    pub fn on_read(&mut self, event: ReadEvent<'_>) -> (again: bool)
        ensures
            final(self).protocol == old(self).protocol,
            final(self).ctype == old(self).ctype,
            final(self).token == old(self).token,
            final(self).write_ready == old(self).write_ready,
            final(self).write_buff == old(self).write_buff,
            match event {
                ReadEvent::Chunk(chunk) => {
                    &&& contents(&final(self).read_buff) == contents(&old(self).read_buff) + chunk@
                    &&& again == (chunk@.len() > 0)
                    &&& final(self).new_data == (old(self).new_data || chunk@.len() > 0)
                    &&& if chunk@.len() > 0 {
                        final(self).status == old(self).status
                    } else {
                        final(self).status is ClientEOF
                    }
                },
                ReadEvent::WouldBlock => !again && *final(self) == *old(self),
                ReadEvent::Failed(e) => {
                    &&& !again
                    &&& final(self).status == ConnectionStatus::ClientError(e)
                    &&& final(self).read_buff == old(self).read_buff
                    &&& final(self).new_data == old(self).new_data
                },
            },
    {
        match event {
            ReadEvent::Chunk(chunk) => {
                if chunk.len() == 0 {
                    self.status = ConnectionStatus::ClientEOF;
                    assert(contents(&self.read_buff) =~= contents(&old(self).read_buff) + chunk@);
                    false
                } else {
                    buf_extend(&mut self.read_buff, chunk);
                    self.new_data = true;
                    true
                }
            },
            ReadEvent::WouldBlock => false,
            ReadEvent::Failed(e) => {
                self.status = ConnectionStatus::ClientError(e);
                false
            },
        }
    }

    /// Notes that the poller has found the transport writable.
    pub fn mark_writable(&mut self)
        ensures
            *final(self) == (ConnectionComponent { write_ready: true, ..*old(self) }),
    {
        self.write_ready = true;
    }

    /// The bytes to hand to the transport next: all that is queued, where the
    /// connection is alive and writable and something is queued, and `None`
    /// in any other case.
    pub fn next_write(&self) -> (r: Option<&[u8]>)
        ensures
            r is Some <==> self.write_ready && self.status is Active && contents(
                &self.write_buff,
            ).len() > 0,
            r is Some ==> r->0@ == contents(&self.write_buff),
    {
        if !self.write_ready || !self.is_active() {
            return None;
        }
        let queued = buf_bytes(&self.write_buff);
        if queued.len() == 0 {
            None
        } else {
            Some(queued)
        }
    }

    /// Takes what a write on the transport came to, and tells whether to write
    /// again. Bytes that were taken leave the outbound buffer; `WouldBlock`
    /// means that the transport is full, and the connection is no longer
    /// writable; a failure ends the writing and is left to the next read.
    pub fn on_write(&mut self, event: WriteEvent) -> (again: bool)
        requires
            event matches WriteEvent::Written(n) ==> n <= contents(&old(self).write_buff).len(),
        ensures
            final(self).protocol == old(self).protocol,
            final(self).ctype == old(self).ctype,
            final(self).token == old(self).token,
            final(self).new_data == old(self).new_data,
            final(self).read_buff == old(self).read_buff,
            final(self).status == old(self).status,
            match event {
                WriteEvent::Written(n) => {
                    &&& contents(&final(self).write_buff) == contents(&old(self).write_buff).skip(
                        n as int,
                    )
                    &&& final(self).write_ready == old(self).write_ready
                    &&& again == (n < contents(&old(self).write_buff).len())
                },
                WriteEvent::WouldBlock => {
                    &&& !again
                    &&& !final(self).write_ready
                    &&& final(self).write_buff == old(self).write_buff
                },
                WriteEvent::Failed(_) => !again && *final(self) == *old(self),
            },
    {
        match event {
            WriteEvent::Written(n) => {
                let queued: usize = buf_bytes(&self.write_buff).len();
                buf_advance(&mut self.write_buff, n);
                n < queued
            },
            WriteEvent::WouldBlock => {
                self.write_ready = false;
                false
            },
            WriteEvent::Failed(_) => false,
        }
    }
}

} // verus!
