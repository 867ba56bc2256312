//! What the engine keeps between the stages of a tick: the two sequences of
//! tokens, and what the last poll found ready.

use mio::Token;
use vstd::prelude::*;

verus! {

/// What a poll says of one socket.
#[derive(Debug, Clone, Copy)]
pub struct Readiness {
    pub token: Token,
    pub readable: bool,
    pub writable: bool,
}

/// The tokens of the sockets that a poll found readable, in the poll's order.
pub open spec fn readable_tokens(events: Seq<Readiness>) -> Seq<Token>
    decreases events.len(),
{
    if events.len() == 0 {
        Seq::empty()
    } else if events.last().readable {
        readable_tokens(events.drop_last()).push(events.last().token)
    } else {
        readable_tokens(events.drop_last())
    }
}

/// The tokens of the sockets that a poll found writable, in the poll's order.
pub open spec fn writable_tokens(events: Seq<Readiness>) -> Seq<Token>
    decreases events.len(),
{
    if events.len() == 0 {
        Seq::empty()
    } else if events.last().writable {
        writable_tokens(events.drop_last()).push(events.last().token)
    } else {
        writable_tokens(events.drop_last())
    }
}

/// Tells whether `token` is among `tokens`.
pub fn holds(tokens: &Vec<Token>, token: Token) -> (r: bool)
    ensures
        r == tokens@.contains(token),
{
    let n: usize = tokens.len();
    let mut i: usize = 0;
    while i < n
        invariant
            n == tokens@.len(),
            0 <= i <= n,
            forall|j: int| 0 <= j < i ==> tokens@[j] != token,
        decreases n - i,
    {
        if tokens[i].0 == token.0 {
            assert(tokens@[i as int] == token);
            return true;
        }
        i += 1;
    }
    false
}

/// The poll of the connections: the tokens handed out so far, and the
/// connections that the last poll found ready.
#[derive(Debug)]
pub struct ConnPoll {
    pub write_ready: Vec<Token>,
    pub read_ready: Vec<Token>,
    /// The number of the token handed out last.
    pub next: usize,
}

impl ConnPoll {
    /// A poll that has handed out no token and found nothing ready.
    pub fn new() -> (out: Self)
        ensures
            out.write_ready@ == Seq::<Token>::empty(),
            out.read_ready@ == Seq::<Token>::empty(),
            out.next == 0,
    {
        ConnPoll { write_ready: Vec::new(), read_ready: Vec::new(), next: 0 }
    }

    /// Takes the outcome of a poll: the connections found ready before are
    /// forgotten, and each socket of `events` is noted as readable, as
    /// writable, or as both. Gives the greater of the two counts.
    pub fn poll(&mut self, events: &[Readiness]) -> (busiest: usize)
        ensures
            final(self).read_ready@ == readable_tokens(events@),
            final(self).write_ready@ == writable_tokens(events@),
            final(self).next == old(self).next,
            busiest == (if final(self).write_ready@.len() >= final(self).read_ready@.len() {
                final(self).write_ready@.len()
            } else {
                final(self).read_ready@.len()
            }),
    {
        self.write_ready.clear();
        self.read_ready.clear();
        let n: usize = events.len();
        let mut i: usize = 0;
        assert(events@.take(0) =~= Seq::<Readiness>::empty());
        while i < n
            invariant
                n == events@.len(),
                0 <= i <= n,
                self.next == old(self).next,
                self.read_ready@ == readable_tokens(events@.take(i as int)),
                self.write_ready@ == writable_tokens(events@.take(i as int)),
            decreases n - i,
        {
            assert(events@.take(i as int + 1).drop_last() =~= events@.take(i as int));
            let event: Readiness = events[i];
            if event.readable {
                self.read_ready.push(event.token);
            }
            if event.writable {
                self.write_ready.push(event.token);
            }
            i += 1;
        }
        assert(events@.take(n as int) =~= events@);
        if self.write_ready.len() >= self.read_ready.len() {
            self.write_ready.len()
        } else {
            self.read_ready.len()
        }
    }

    /// Hands out the next token: each one is a number that was not handed out
    /// before, and none is 0.
    pub fn get_next(&mut self) -> (token: Token)
        requires
            old(self).next < usize::MAX,
        ensures
            final(self).next == old(self).next + 1,
            token == Token(final(self).next),
            final(self).write_ready == old(self).write_ready,
            final(self).read_ready == old(self).read_ready,
    {
        self.next = self.next + 1;
        Token(self.next)
    }

    /// Tells whether the last poll found the connection of `token` readable.
    pub fn is_read_ready(&self, token: Token) -> (r: bool)
        ensures
            r == self.read_ready@.contains(token),
    {
        holds(&self.read_ready, token)
    }

    /// Tells whether the last poll found the connection of `token` writable.
    pub fn is_write_ready(&self, token: Token) -> (r: bool)
        ensures
            r == self.write_ready@.contains(token),
    {
        holds(&self.write_ready, token)
    }
}

/// The poll of the listeners: the tokens handed out so far, and the listeners
/// on which the last poll found connections waiting.
#[derive(Debug)]
pub struct ListenPoll {
    pub accept_ready: Vec<Token>,
    /// The number of the token handed out last.
    pub next: usize,
}

impl ListenPoll {
    /// A poll that has handed out no token and found nothing ready.
    pub fn new() -> (out: Self)
        ensures
            out.accept_ready@ == Seq::<Token>::empty(),
            out.next == 0,
    {
        ListenPoll { accept_ready: Vec::new(), next: 0 }
    }

    /// Hands out the next token: each one is a number that was not handed out
    /// before, and none is 0.
    pub fn get_next(&mut self) -> (token: Token)
        requires
            old(self).next < usize::MAX,
        ensures
            final(self).next == old(self).next + 1,
            token == Token(final(self).next),
            final(self).accept_ready == old(self).accept_ready,
    {
        self.next = self.next + 1;
        Token(self.next)
    }

    /// Takes the outcome of a poll: the listeners found ready before are
    /// forgotten, and each readable socket of `events` is noted. Gives their
    /// number.
    pub fn poll(&mut self, events: &[Readiness]) -> (ready: usize)
        ensures
            final(self).accept_ready@ == readable_tokens(events@),
            final(self).next == old(self).next,
            ready == final(self).accept_ready@.len(),
    {
        self.accept_ready.clear();
        let n: usize = events.len();
        let mut i: usize = 0;
        assert(events@.take(0) =~= Seq::<Readiness>::empty());
        while i < n
            invariant
                n == events@.len(),
                0 <= i <= n,
                self.next == old(self).next,
                self.accept_ready@ == readable_tokens(events@.take(i as int)),
            decreases n - i,
        {
            assert(events@.take(i as int + 1).drop_last() =~= events@.take(i as int));
            let event: Readiness = events[i];
            if event.readable {
                self.accept_ready.push(event.token);
            }
            i += 1;
        }
        assert(events@.take(n as int) =~= events@);
        self.accept_ready.len()
    }

    /// Tells whether the last poll found connections waiting on the listener
    /// of `token`.
    pub fn is_accept_ready(&self, token: Token) -> (r: bool)
        ensures
            r == self.accept_ready@.contains(token),
    {
        holds(&self.accept_ready, token)
    }
}

} // verus!
