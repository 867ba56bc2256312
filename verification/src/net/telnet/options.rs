//! Telnet options: the policy that says which ones the server takes part in,
//! the negotiated state of each, and the handshakes that are still awaited.

use super::codes;
use std::collections::HashMap;
use std::collections::HashSet;
use std::sync::Arc;
use vstd::prelude::*;
use vstd::relations::injective_on;
use vstd::set_lib::{lemma_int_range, lemma_len_subset, lemma_map_size, set_int_range};

verus! {

/// One end's view of an option.
#[derive(Clone, Copy, Debug, PartialEq, Eq, Structural)]
pub struct TelnetOptionPerspective {
    pub enabled: bool,
    /// True while a request of ours is unanswered.
    pub negotiating: bool,
}

impl Default for TelnetOptionPerspective {
    fn default() -> (out: Self)
        ensures
            out == (TelnetOptionPerspective { enabled: false, negotiating: false }),
    {
        TelnetOptionPerspective { enabled: false, negotiating: false }
    }
}

/// The negotiated state of an option: the peer's end and ours.
#[derive(Clone, Copy, Debug, PartialEq, Eq, Structural)]
pub struct TelnetOptionState {
    pub remote: TelnetOptionPerspective,
    pub local: TelnetOptionPerspective,
}

/// The state of an option that nobody has spoken of yet.
pub open spec fn untouched() -> TelnetOptionState {
    TelnetOptionState {
        remote: TelnetOptionPerspective { enabled: false, negotiating: false },
        local: TelnetOptionPerspective { enabled: false, negotiating: false },
    }
}

impl Default for TelnetOptionState {
    fn default() -> (out: Self)
        ensures
            out == untouched(),
    {
        TelnetOptionState {
            remote: TelnetOptionPerspective { enabled: false, negotiating: false },
            local: TelnetOptionPerspective { enabled: false, negotiating: false },
        }
    }
}

/// The server's policy on one option.
#[derive(Clone, Copy, Debug, PartialEq, Eq, Structural)]
pub struct TelnetOption {
    pub allow_local: bool,
    pub allow_remote: bool,
    /// The server offers the option when a connection opens.
    pub start_local: bool,
    /// The server asks the peer for the option when a connection opens.
    pub start_remote: bool,
}

impl Default for TelnetOption {
    fn default() -> (out: Self)
        ensures
            out == (TelnetOption {
                allow_local: false,
                allow_remote: false,
                start_local: false,
                start_remote: false,
            }),
    {
        TelnetOption {
            allow_local: false,
            allow_remote: false,
            start_local: false,
            start_remote: false,
        }
    }
}

/// A set of bytes has at most 256 members.
pub proof fn lemma_byte_set_len(s: Set<u8>)
    requires
        s.finite(),
    ensures
        s.len() <= 256,
{
    let f = |b: u8| b as int;
    let image = s.map(f);
    assert(injective_on(f, s));
    lemma_map_size(s, image, f);
    lemma_int_range(0, 256);
    assert(image.subset_of(set_int_range(0, 256)));
    lemma_len_subset(image, set_int_range(0, 256));
}

/// The handshakes that a connection still waits for: options offered, options
/// asked for, and the rounds of the terminal-type exchange.
#[derive(Debug)]
pub struct TelnetHandshakes {
    pub local: HashSet<u8>,
    pub remote: HashSet<u8>,
    pub mtts: HashSet<u8>,
}

impl Default for TelnetHandshakes {
    fn default() -> (out: Self)
        ensures
            out.wf(),
            out.local@ == Set::<u8>::empty(),
            out.remote@ == Set::<u8>::empty(),
            out.mtts@ == Set::<u8>::empty(),
    {
        TelnetHandshakes { local: HashSet::new(), remote: HashSet::new(), mtts: HashSet::new() }
    }
}

impl TelnetHandshakes {
    /// Each of the three sets is finite.
    pub open spec fn wf(&self) -> bool {
        self.local@.finite() && self.remote@.finite() && self.mtts@.finite()
    }

    /// The number of handshakes awaited.
    pub open spec fn count(&self) -> nat {
        self.local@.len() + self.remote@.len() + self.mtts@.len()
    }

    /// Nothing is awaited.
    pub open spec fn none_left(&self) -> bool {
        self.local@.is_empty() && self.remote@.is_empty() && self.mtts@.is_empty()
    }

    /// The number of handshakes awaited.
    pub fn len(&self) -> (n: usize)
        requires
            self.wf(),
        ensures
            n == self.count(),
    {
        proof {
            lemma_byte_set_len(self.local@);
            lemma_byte_set_len(self.remote@);
            lemma_byte_set_len(self.mtts@);
        }
        self.local.len() + self.remote.len() + self.mtts.len()
    }

    /// Tells whether nothing is awaited.
    pub fn is_empty(&self) -> (r: bool)
        ensures
            r == self.none_left(),
    {
        self.local.is_empty() && self.remote.is_empty() && self.mtts.is_empty()
    }
}

/// For a valid set of handshakes, none is left exactly when their number is 0.
pub proof fn lemma_none_left_is_count_zero(h: TelnetHandshakes)
    requires
        h.wf(),
    ensures
        h.none_left() <==> h.count() == 0,
{
    broadcast use vstd::set_lib::lemma_set_empty_equivalency_len;

    assert(h.local@.is_empty() <==> h.local@.len() == 0);
    assert(h.remote@.is_empty() <==> h.remote@.len() == 0);
    assert(h.mtts@.is_empty() <==> h.mtts@.len() == 0);
}

/// A policy entry, from its four flags.
pub open spec fn entry(
    allow_local: bool,
    allow_remote: bool,
    start_local: bool,
    start_remote: bool,
) -> TelnetOption {
    TelnetOption { allow_local, allow_remote, start_local, start_remote }
}

/// The policy that the server follows unless it is given another.
pub open spec fn default_policy() -> Map<u8, TelnetOption> {
    Map::<u8, TelnetOption>::empty().insert(codes::SGA, entry(true, true, false, true)).insert(
        codes::NAWS,
        entry(false, true, true, false),
    ).insert(codes::MTTS, entry(false, true, true, false)).insert(
        codes::MSSP,
        entry(true, true, false, true),
    ).insert(codes::GMCP, entry(true, true, false, true)).insert(
        codes::MSDP,
        entry(true, true, false, true),
    ).insert(codes::LINEMODE, entry(false, true, true, false)).insert(
        codes::TELOPT_EOR,
        entry(true, true, false, true),
    )
}

/// The policy table, shared by every connection.
pub struct TelnetOptions(pub Arc<HashMap<u8, TelnetOption>>);

impl Default for TelnetOptions {
    fn default() -> (out: Self)
        ensures
            out.0@ == default_policy(),
    {
        let mut map: HashMap<u8, TelnetOption> = HashMap::new();
        let asked = TelnetOption {
            allow_local: true,
            allow_remote: true,
            start_local: false,
            start_remote: true,
        };
        let offered = TelnetOption {
            allow_local: false,
            allow_remote: true,
            start_local: true,
            start_remote: false,
        };
        map.insert(codes::SGA, asked);
        map.insert(codes::NAWS, offered);
        map.insert(codes::MTTS, offered);
        map.insert(codes::MSSP, asked);
        map.insert(codes::GMCP, asked);
        map.insert(codes::MSDP, asked);
        map.insert(codes::LINEMODE, offered);
        map.insert(codes::TELOPT_EOR, asked);
        TelnetOptions(Arc::new(map))
    }
}

} // verus!
