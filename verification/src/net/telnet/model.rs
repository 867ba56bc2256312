//! What the Telnet state machine does, as plain mathematics: each function
//! gives, for a state and an input, the state that follows, the bytes sent and
//! the events raised.

use super::codes;
use super::message::{decoded, Frame};
use super::options::{TelnetOption, TelnetOptionPerspective, TelnetOptionState};
use crate::text::{first_char, parsed, text_trimmed, trimmed, uppercased};
use crate::net::capabilities::{with_feature, Feature, Profile, DEFAULT_HEIGHT, DEFAULT_WIDTH};
use crate::net::features::{with_bits, with_colors};
use vstd::prelude::*;
use vstd::utf8::{decode_utf8, valid_utf8};

verus! {

/// What the state machine raises.
pub enum Event {
    Line(Seq<char>),
    Command(u8),
    LocalEnable(u8),
    LocalDisable(u8),
    RemoteEnable(u8),
    RemoteDisable(u8),
    LocalHandshake(u8),
    RemoteHandshake(u8),
    SubData(u8, Seq<u8>),
}

/// The state of the Telnet protocol on one connection.
pub struct TelnetState {
    /// The negotiated state of each option of the policy.
    pub op_state: Map<u8, TelnetOptionState>,
    pub policy: Map<u8, TelnetOption>,
    /// Handshakes awaited on options that were offered.
    pub local: Set<u8>,
    /// Handshakes awaited on options that were asked for.
    pub remote: Set<u8>,
    /// The rounds of the terminal-type exchange that are still to come.
    pub mtts: Set<u8>,
    /// Application bytes that do not make up a line yet.
    pub app_buffer: Seq<u8>,
    /// The last answer of the terminal-type exchange.
    pub mtts_last: Option<Seq<char>>,
}

/// What one input leads to.
pub struct Outcome {
    pub state: TelnetState,
    pub profile: Profile,
    /// The bytes sent to the peer.
    pub sent: Seq<u8>,
    pub events: Seq<Event>,
}

/// Tells that `outcome` has come about: the state and the profile are those
/// of the outcome, and what it sent and raised stands behind what was written
/// and raised before.
pub open spec fn follows(
    outcome: Outcome,
    state: TelnetState,
    profile: Profile,
    written_before: Seq<u8>,
    written: Seq<u8>,
    raised_before: Seq<Event>,
    raised: Seq<Event>,
) -> bool {
    &&& state == outcome.state
    &&& profile == outcome.profile
    &&& written == written_before + outcome.sent
    &&& raised == raised_before + outcome.events
}

/// The outcome of an input that is ignored.
pub open spec fn ignored(state: TelnetState, profile: Profile) -> Outcome {
    Outcome { state, profile, sent: Seq::empty(), events: Seq::empty() }
}

/// A negotiation of three bytes.
pub open spec fn triple(verb: u8, op: u8) -> Seq<u8> {
    seq![codes::IAC, verb, op]
}

/// A sub-negotiation with its frame around it.
pub open spec fn sub_frame(op: u8, payload: Seq<u8>) -> Seq<u8> {
    seq![codes::IAC, codes::SB, op] + payload + seq![codes::IAC, codes::SE]
}

/// The request for the next answer of the terminal-type exchange.
pub open spec fn mtts_request() -> Seq<u8> {
    sub_frame(codes::MTTS, seq![1u8])
}

// ---------------------------------------------------------------------------
// Opening of a connection
// ---------------------------------------------------------------------------
/// What the server sends about one option when a connection opens.
pub open spec fn opening_of(policy: Map<u8, TelnetOption>, op: u8) -> Seq<u8> {
    if policy.contains_key(op) {
        (if policy[op].start_local {
            triple(codes::WILL, op)
        } else {
            Seq::empty()
        }) + (if policy[op].start_remote {
            triple(codes::DO, op)
        } else {
            Seq::empty()
        })
    } else {
        Seq::empty()
    }
}

/// What the server sends when a connection opens, for the options below
/// `upto`, in the order of their codes.
pub open spec fn opening(policy: Map<u8, TelnetOption>, upto: int) -> Seq<u8>
    decreases upto,
{
    if upto <= 0 {
        Seq::empty()
    } else {
        opening(policy, upto - 1) + opening_of(policy, (upto - 1) as u8)
    }
}

/// The state of an option once the server has opened on it.
pub open spec fn opened_state(st: TelnetOptionState, policy: TelnetOption) -> TelnetOptionState {
    TelnetOptionState {
        local: TelnetOptionPerspective {
            enabled: st.local.enabled,
            negotiating: st.local.negotiating || policy.start_local,
        },
        remote: TelnetOptionPerspective {
            enabled: st.remote.enabled,
            negotiating: st.remote.negotiating || policy.start_remote,
        },
    }
}

/// The option states once the server has opened on the options below `upto`.
pub open spec fn opened(
    states: Map<u8, TelnetOptionState>,
    policy: Map<u8, TelnetOption>,
    upto: int,
) -> Map<u8, TelnetOptionState> {
    Map::new(
        |op: u8| states.contains_key(op),
        |op: u8|
            if op < upto && policy.contains_key(op) {
                opened_state(states[op], policy[op])
            } else {
                states[op]
            },
    )
}

// ---------------------------------------------------------------------------
// Negotiation
// ---------------------------------------------------------------------------
/// What a negotiation does to an option that the policy knows.
pub struct Reaction {
    pub state: TelnetOptionState,
    /// The verb of the reply, if one is sent.
    pub reply: Option<u8>,
    pub handshake_local: bool,
    pub handshake_remote: bool,
    pub enable_local: bool,
    pub disable_local: bool,
    pub enable_remote: bool,
    pub disable_remote: bool,
}

/// The reaction that changes nothing.
pub open spec fn no_reaction(st: TelnetOptionState) -> Reaction {
    Reaction {
        state: st,
        reply: None,
        handshake_local: false,
        handshake_remote: false,
        enable_local: false,
        disable_local: false,
        enable_remote: false,
        disable_remote: false,
    }
}

/// One end of an option after the peer has agreed to it.
pub open spec fn agreed(p: TelnetOptionPerspective) -> TelnetOptionPerspective {
    TelnetOptionPerspective { enabled: true, negotiating: false }
}

/// One end of an option after the peer has refused or withdrawn it.
pub open spec fn refused(p: TelnetOptionPerspective) -> TelnetOptionPerspective {
    TelnetOptionPerspective { enabled: false, negotiating: false }
}

/// The reaction of a known option to a negotiation verb.
pub open spec fn reaction(st: TelnetOptionState, verb: u8) -> Reaction {
    if verb == codes::WILL {
        if !st.remote.enabled {
            Reaction {
                state: TelnetOptionState { remote: agreed(st.remote), local: st.local },
                reply: if st.remote.negotiating {
                    None
                } else {
                    Some(codes::DO)
                },
                handshake_remote: true,
                enable_remote: true,
                ..no_reaction(st)
            }
        } else {
            no_reaction(st)
        }
    } else if verb == codes::WONT {
        Reaction {
            state: TelnetOptionState { remote: refused(st.remote), local: st.local },
            handshake_remote: st.remote.negotiating,
            disable_remote: st.remote.enabled,
            ..no_reaction(st)
        }
    } else if verb == codes::DO {
        if !st.local.enabled {
            Reaction {
                state: TelnetOptionState { remote: st.remote, local: agreed(st.local) },
                reply: if st.local.negotiating {
                    None
                } else {
                    Some(codes::WILL)
                },
                handshake_local: true,
                enable_local: true,
                ..no_reaction(st)
            }
        } else {
            no_reaction(st)
        }
    } else if verb == codes::DONT {
        Reaction {
            state: TelnetOptionState { remote: st.remote, local: refused(st.local) },
            handshake_local: st.local.negotiating,
            disable_local: st.local.enabled,
            ..no_reaction(st)
        }
    } else {
        no_reaction(st)
    }
}

/// The reply to a negotiation about an option that the policy does not know.
pub open spec fn refusal(verb: u8, op: u8) -> Seq<u8> {
    if verb == codes::WILL {
        triple(codes::DONT, op)
    } else if verb == codes::DO {
        triple(codes::WONT, op)
    } else {
        Seq::empty()
    }
}

/// The bytes of the reply that a reaction asks for.
pub open spec fn reply_bytes(r: Reaction, op: u8) -> Seq<u8> {
    match r.reply {
        Some(verb) => triple(verb, op),
        None => Seq::empty(),
    }
}

/// The handshake events of a reaction.
pub open spec fn handshake_events(r: Reaction, op: u8) -> Seq<Event> {
    (if r.handshake_local {
        seq![Event::LocalHandshake(op)]
    } else {
        Seq::empty()
    }) + (if r.handshake_remote {
        seq![Event::RemoteHandshake(op)]
    } else {
        Seq::empty()
    })
}

/// The profile once our end of `op` is switched on.
pub open spec fn local_enabled(profile: Profile, op: u8) -> Profile {
    if op == codes::SGA {
        with_feature(profile, Feature::Sga, true)
    } else if op == codes::MXP {
        with_feature(profile, Feature::Mxp, true)
    } else {
        profile
    }
}

/// What is sent once our end of `op` is switched on.
pub open spec fn local_enabled_sent(op: u8) -> Seq<u8> {
    if op == codes::MXP {
        sub_frame(codes::MXP, Seq::empty())
    } else {
        Seq::empty()
    }
}

/// The profile once our end of `op` is switched off.
pub open spec fn local_disabled(profile: Profile, op: u8) -> Profile {
    if op == codes::SGA {
        with_feature(profile, Feature::Sga, false)
    } else if op == codes::MXP {
        with_feature(profile, Feature::Mxp, false)
    } else {
        profile
    }
}

/// The profile once the peer's end of `op` is switched on.
pub open spec fn remote_enabled(profile: Profile, op: u8) -> Profile {
    if op == codes::NAWS {
        with_feature(profile, Feature::Naws, true)
    } else if op == codes::LINEMODE {
        with_feature(profile, Feature::Linemode, true)
    } else {
        profile
    }
}

/// The rounds awaited once the peer's end of `op` is switched on.
pub open spec fn remote_enabled_rounds(rounds: Set<u8>, op: u8) -> Set<u8> {
    if op == codes::MTTS {
        rounds.insert(0).insert(1).insert(2)
    } else {
        rounds
    }
}

/// What is sent once the peer's end of `op` is switched on.
pub open spec fn remote_enabled_sent(op: u8) -> Seq<u8> {
    if op == codes::MTTS {
        mtts_request()
    } else {
        Seq::empty()
    }
}

/// The profile once the peer's end of `op` is switched off.
pub open spec fn remote_disabled(profile: Profile, op: u8) -> Profile {
    if op == codes::NAWS {
        Profile {
            width: DEFAULT_WIDTH,
            height: DEFAULT_HEIGHT,
            ..with_feature(profile, Feature::Naws, false)
        }
    } else if op == codes::MTTS {
        with_feature(profile, Feature::Mtts, false)
    } else if op == codes::LINEMODE {
        with_feature(profile, Feature::Linemode, false)
    } else {
        profile
    }
}

/// The rounds awaited once the peer's end of `op` is switched off.
pub open spec fn remote_disabled_rounds(rounds: Set<u8>, op: u8) -> Set<u8> {
    if op == codes::MTTS {
        Set::empty()
    } else {
        rounds
    }
}

/// The profile after the switches that a reaction asks for.
pub open spec fn switched_profile(profile: Profile, r: Reaction, op: u8) -> Profile {
    let ours_on = if r.enable_local {
        local_enabled(profile, op)
    } else {
        profile
    };
    let ours_off = if r.disable_local {
        local_disabled(ours_on, op)
    } else {
        ours_on
    };
    let theirs_on = if r.enable_remote {
        remote_enabled(ours_off, op)
    } else {
        ours_off
    };
    if r.disable_remote {
        remote_disabled(theirs_on, op)
    } else {
        theirs_on
    }
}

/// The rounds awaited after the switches that a reaction asks for.
pub open spec fn switched_rounds(rounds: Set<u8>, r: Reaction, op: u8) -> Set<u8> {
    let theirs_on = if r.enable_remote {
        remote_enabled_rounds(rounds, op)
    } else {
        rounds
    };
    if r.disable_remote {
        remote_disabled_rounds(theirs_on, op)
    } else {
        theirs_on
    }
}

/// What the switches of a reaction send.
pub open spec fn switched_sent(r: Reaction, op: u8) -> Seq<u8> {
    (if r.enable_local {
        local_enabled_sent(op)
    } else {
        Seq::empty()
    }) + (if r.enable_remote {
        remote_enabled_sent(op)
    } else {
        Seq::empty()
    })
}

/// What a negotiation leads to. An option that the policy does not know is
/// refused and nothing changes; a known one reacts by its state.
pub open spec fn after_negotiate(state: TelnetState, profile: Profile, verb: u8, op: u8) -> Outcome {
    if state.op_state.contains_key(op) {
        let r = reaction(state.op_state[op], verb);
        Outcome {
            state: TelnetState {
                op_state: state.op_state.insert(op, r.state),
                mtts: switched_rounds(state.mtts, r, op),
                ..state
            },
            profile: switched_profile(profile, r, op),
            sent: reply_bytes(r, op) + switched_sent(r, op),
            events: handshake_events(r, op),
        }
    } else {
        Outcome { state, profile, sent: refusal(verb, op), events: Seq::empty() }
    }
}

// ---------------------------------------------------------------------------
// Window size
// ---------------------------------------------------------------------------
/// Two bytes read as a number, the first counting most.
pub open spec fn big_endian(high: u8, low: u8) -> u16 {
    (high * 256 + low) as u16
}

/// The profile after a report of the window size: the width, then the height,
/// of two bytes each. A shorter report is ignored.
pub open spec fn after_naws(profile: Profile, payload: Seq<u8>) -> Profile {
    if payload.len() >= 4 {
        Profile {
            width: big_endian(payload[0], payload[1]),
            height: big_endian(payload[2], payload[3]),
            ..profile
        }
    } else {
        profile
    }
}

// ---------------------------------------------------------------------------
// Terminal type
// ---------------------------------------------------------------------------
/// The clients that are known to show 256 colours.
pub open spec fn known_client(name: Seq<char>) -> bool {
    name == "ATLANTIS"@ || name == "CMUD"@ || name == "KILDCLIENT"@ || name == "MUDLET"@ || name
        == "MUSHCLIENT"@ || name == "PUTTY"@ || name == "BEIP"@ || name == "POTATO"@ || name
        == "TINYFUGUE"@
}

/// A name that tells of an xterm with 256 colours.
pub open spec fn xterm_like(name: Seq<char>) -> bool {
    "XTERM"@.is_prefix_of(name) || "-256COLOR"@.is_suffix_of(name)
}

/// The first answer names the client, and its version after a space.
pub open spec fn after_round_0(profile: Profile, answer: Seq<char>) -> Profile {
    let at = first_char(answer, ' ', 0);
    let named = if at < answer.len() {
        Profile { client_name: answer.take(at), client_version: answer.skip(at + 1), ..profile }
    } else {
        Profile { client_name: answer, ..profile }
    };
    if known_client(named.client_name) || xterm_like(named.client_name) {
        with_colors(named)
    } else {
        named
    }
}

/// The second answer names the terminal.
pub open spec fn after_round_1(profile: Profile, answer: Seq<char>) -> Profile {
    if xterm_like(answer) {
        with_colors(profile)
    } else {
        profile
    }
}

/// The number in the third answer: what follows `MTTS ` read as a number, or
/// 0 where the answer is of another form.
pub open spec fn mtts_bits(answer: Seq<char>) -> usize {
    if "MTTS "@.is_prefix_of(answer) {
        match parsed(answer.skip("MTTS "@.len() as int)) {
            Some(n) => n,
            None => 0,
        }
    } else {
        0
    }
}

/// The third answer carries a number whose bits are features.
pub open spec fn after_round_2(profile: Profile, answer: Seq<char>) -> Profile {
    with_bits(profile, mtts_bits(answer))
}

/// What an answer of the terminal-type exchange leads to, once it is read as
/// text, for the lowest round that is still awaited.
pub open spec fn after_answer(state: TelnetState, profile: Profile, answer: Seq<char>) -> Outcome {
    if state.mtts_last == Some(answer) {
        Outcome {
            state: TelnetState { mtts: Set::empty(), ..state },
            profile,
            sent: Seq::empty(),
            events: Seq::empty(),
        }
    } else if state.mtts.contains(0) {
        Outcome {
            state: TelnetState { mtts: state.mtts.remove(0), mtts_last: Some(answer), ..state },
            profile: after_round_0(profile, answer),
            sent: mtts_request(),
            events: Seq::empty(),
        }
    } else if state.mtts.contains(1) {
        Outcome {
            state: TelnetState { mtts: state.mtts.remove(1), mtts_last: Some(answer), ..state },
            profile: after_round_1(profile, answer),
            sent: mtts_request(),
            events: Seq::empty(),
        }
    } else if state.mtts.contains(2) {
        Outcome {
            state: TelnetState { mtts: state.mtts.remove(2), mtts_last: Some(answer), ..state },
            profile: after_round_2(profile, answer),
            sent: Seq::empty(),
            events: Seq::empty(),
        }
    } else {
        Outcome {
            state: TelnetState { mtts_last: Some(answer), ..state },
            profile,
            sent: Seq::empty(),
            events: Seq::empty(),
        }
    }
}

/// What a terminal-type sub-negotiation leads to. It is ignored unless a round
/// is awaited and the payload is a 0, then at least one byte, of well-formed
/// UTF-8. The answer is the text in upper case, without the white space at
/// its ends.
pub open spec fn after_mtts(state: TelnetState, profile: Profile, payload: Seq<u8>) -> Outcome {
    if payload.len() < 2 || state.mtts.is_empty() || payload[0] != 0 {
        ignored(state, profile)
    } else {
        let raw = payload.skip(1);
        if valid_utf8(raw) {
            after_answer(state, profile, text_trimmed(uppercased(decode_utf8(raw))))
        } else {
            ignored(state, profile)
        }
    }
}

/// What a sub-negotiation leads to.
pub open spec fn after_sub(state: TelnetState, profile: Profile, op: u8, payload: Seq<u8>) -> Outcome {
    if !state.op_state.contains_key(op) {
        ignored(state, profile)
    } else if op == codes::NAWS {
        Outcome {
            state,
            profile: after_naws(profile, payload),
            sent: Seq::empty(),
            events: Seq::empty(),
        }
    } else if op == codes::MTTS {
        after_mtts(state, profile, payload)
    } else {
        ignored(state, profile)
    }
}

// ---------------------------------------------------------------------------
// Application data
// ---------------------------------------------------------------------------
/// The first index at or after `from` that holds a line feed, or the length of
/// `s` where there is none.
pub open spec fn first_lf(s: Seq<u8>, from: int) -> int
    decreases s.len() - from,
{
    if from >= s.len() || s[from] == codes::LF {
        from
    } else {
        first_lf(s, from + 1)
    }
}

/// The event that the bytes of one line raise: the line, trimmed, where it is
/// well-formed UTF-8, and nothing where it is not.
pub open spec fn line_event(raw: Seq<u8>) -> Seq<Event> {
    let line = trimmed(raw);
    if valid_utf8(line) {
        seq![Event::Line(decode_utf8(line))]
    } else {
        Seq::empty()
    }
}

/// The events of the complete lines in `buf`, first line first.
pub open spec fn lines_of(buf: Seq<u8>) -> Seq<Event>
    decreases buf.len(),
{
    let at = first_lf(buf, 0);
    if 0 <= at < buf.len() {
        line_event(buf.take(at)) + lines_of(buf.skip(at + 1))
    } else {
        Seq::empty()
    }
}

/// What is left of `buf` behind its last complete line.
pub open spec fn unfinished_line(buf: Seq<u8>) -> Seq<u8>
    decreases buf.len(),
{
    let at = first_lf(buf, 0);
    if 0 <= at < buf.len() {
        unfinished_line(buf.skip(at + 1))
    } else {
        buf
    }
}

/// What application bytes lead to: they join the bytes kept so far, each
/// complete line is raised, and the rest is kept.
pub open spec fn after_data(state: TelnetState, profile: Profile, data: Seq<u8>) -> Outcome {
    Outcome {
        state: TelnetState { app_buffer: unfinished_line(state.app_buffer + data), ..state },
        profile,
        sent: Seq::empty(),
        events: lines_of(state.app_buffer + data),
    }
}

/// What one frame leads to.
pub open spec fn after_message(state: TelnetState, profile: Profile, frame: Frame) -> Outcome {
    match frame {
        Frame::SubNegotiate(op, payload) => after_sub(state, profile, op, payload),
        Frame::Negotiate(verb, op) => after_negotiate(state, profile, verb, op),
        Frame::IAC(_) => ignored(state, profile),
        Frame::Data(data) => after_data(state, profile, data),
    }
}

/// What a stretch of input leads to.
pub struct StreamOutcome {
    pub state: TelnetState,
    pub profile: Profile,
    /// The bytes sent to the peer.
    pub sent: Seq<u8>,
    pub events: Seq<Event>,
    /// The end of the input that is no complete frame yet.
    pub rest: Seq<u8>,
}

/// What the bytes of `input` lead to: frame after frame is taken off its
/// front and handled, until what is left is empty or ends inside a frame.
pub open spec fn after_stream(state: TelnetState, profile: Profile, input: Seq<u8>) -> StreamOutcome
    decreases input.len(),
{
    match decoded(input) {
        Some((frame, n)) => {
            if 0 < n <= input.len() {
                let first = after_message(state, profile, frame);
                let others = after_stream(first.state, first.profile, input.skip(n));
                StreamOutcome {
                    state: others.state,
                    profile: others.profile,
                    sent: first.sent + others.sent,
                    events: first.events + others.events,
                    rest: others.rest,
                }
            } else {
                StreamOutcome {
                    state,
                    profile,
                    sent: Seq::empty(),
                    events: Seq::empty(),
                    rest: input,
                }
            }
        },
        None => StreamOutcome {
            state,
            profile,
            sent: Seq::empty(),
            events: Seq::empty(),
            rest: input,
        },
    }
}

/// The texts of the lines among some events, in their order.
pub open spec fn line_texts(events: Seq<Event>) -> Seq<Seq<char>>
    decreases events.len(),
{
    if events.len() == 0 {
        Seq::empty()
    } else {
        match events.last() {
            Event::Line(text) => line_texts(events.drop_last()).push(text),
            _ => line_texts(events.drop_last()),
        }
    }
}

/// A line ends at the first line feed: none stands before the index that
/// `first_lf` gives, and one stands there unless the index is the length.
pub proof fn lemma_first_lf(s: Seq<u8>, from: int)
    requires
        0 <= from <= s.len(),
    ensures
        from <= first_lf(s, from) <= s.len(),
        forall|i: int| from <= i < first_lf(s, from) ==> s[i] != codes::LF,
        first_lf(s, from) < s.len() ==> s[first_lf(s, from)] == codes::LF,
    decreases s.len() - from,
{
    if from < s.len() && s[from] != codes::LF {
        lemma_first_lf(s, from + 1);
    }
}

} // verus!
