//! What holds of the negotiation whatever the peer sends.

use super::codes;
use super::message::{is_negotiation, Frame};
use super::model::{
    after_message, after_negotiate, no_reaction, reaction, refusal, reply_bytes, switched_sent,
    TelnetState,
};
use super::options::{TelnetOptionPerspective, TelnetOptionState};
use crate::net::capabilities::Profile;
use vstd::prelude::*;

verus! {

/// One end of an option is settled where it is not both switched on and
/// waiting for an answer.
pub open spec fn settled(p: TelnetOptionPerspective) -> bool {
    !(p.enabled && p.negotiating)
}

/// No negotiation makes the server wait for an answer: an end waits after a
/// verb only where it waited before.
pub proof fn lemma_waiting_only_ends(st: TelnetOptionState, verb: u8)
    ensures
        reaction(st, verb).state.local.negotiating ==> st.local.negotiating,
        reaction(st, verb).state.remote.negotiating ==> st.remote.negotiating,
{
}

/// A negotiation leaves a settled end settled, and a refusal settles the end
/// it is about.
pub proof fn lemma_stays_settled(st: TelnetOptionState, verb: u8)
    ensures
        settled(st.local) ==> settled(reaction(st, verb).state.local),
        settled(st.remote) ==> settled(reaction(st, verb).state.remote),
        verb == codes::WONT ==> settled(reaction(st, verb).state.remote),
        verb == codes::DONT ==> settled(reaction(st, verb).state.local),
{
}

/// The server answers only a change: a reply goes out only where the verb
/// switches an end on that was off and had not been asked for.
pub proof fn lemma_reply_means_change(st: TelnetOptionState, verb: u8)
    ensures
        reaction(st, verb).reply is Some ==> {
            ||| (verb == codes::WILL && !st.remote.enabled && !st.remote.negotiating && reaction(
                st,
                verb,
            ).state.remote.enabled)
            ||| (verb == codes::DO && !st.local.enabled && !st.local.negotiating && reaction(
                st,
                verb,
            ).state.local.enabled)
        },
{
}

/// The state of an option is a fixed point of the verb that led to it: the
/// same verb once more changes nothing, answers nothing and raises nothing.
pub proof fn lemma_verb_settles(st: TelnetOptionState, verb: u8)
    ensures
        reaction(reaction(st, verb).state, verb) == no_reaction(reaction(st, verb).state),
{
}

/// The state of an option after a run of verbs, first verb first.
pub open spec fn after_verbs(st: TelnetOptionState, verbs: Seq<u8>) -> TelnetOptionState
    decreases verbs.len(),
{
    if verbs.len() == 0 {
        st
    } else {
        reaction(after_verbs(st, verbs.drop_last()), verbs.last()).state
    }
}

/// Whatever run of verbs the peer sends about an option that was settled, the
/// option is settled after it, and the last verb alone decides the end that it
/// is about: on after an agreement, off after a refusal, waiting for nothing.
pub proof fn lemma_last_verb_decides(st: TelnetOptionState, verbs: Seq<u8>)
    requires
        settled(st.local),
        settled(st.remote),
    ensures
        settled(after_verbs(st, verbs).local),
        settled(after_verbs(st, verbs).remote),
        verbs.len() > 0 && verbs.last() == codes::WILL ==> after_verbs(st, verbs).remote == (
        TelnetOptionPerspective { enabled: true, negotiating: false }),
        verbs.len() > 0 && verbs.last() == codes::WONT ==> after_verbs(st, verbs).remote == (
        TelnetOptionPerspective { enabled: false, negotiating: false }),
        verbs.len() > 0 && verbs.last() == codes::DO ==> after_verbs(st, verbs).local == (
        TelnetOptionPerspective { enabled: true, negotiating: false }),
        verbs.len() > 0 && verbs.last() == codes::DONT ==> after_verbs(st, verbs).local == (
        TelnetOptionPerspective { enabled: false, negotiating: false }),
    decreases verbs.len(),
{
    if verbs.len() > 0 {
        lemma_last_verb_decides(st, verbs.drop_last());
        lemma_stays_settled(after_verbs(st, verbs.drop_last()), verbs.last());
    }
}

/// The same negotiation once more, about an option that the policy knows,
/// changes nothing and sends nothing: the exchange cannot go round in a loop.
pub proof fn lemma_repeat_is_silent(state: TelnetState, profile: Profile, verb: u8, op: u8)
    requires
        state.op_state.contains_key(op),
    ensures
        ({
            let first = after_negotiate(state, profile, verb, op);
            let second = after_negotiate(first.state, first.profile, verb, op);
            &&& second.state == first.state
            &&& second.profile == first.profile
            &&& second.sent == Seq::<u8>::empty()
            &&& second.events == Seq::<super::model::Event>::empty()
        }),
{
    let first = after_negotiate(state, profile, verb, op);
    let second = after_negotiate(first.state, first.profile, verb, op);
    lemma_verb_settles(state.op_state[op], verb);
    assert(second.state.op_state =~= first.state.op_state);
    assert(second.sent =~= Seq::<u8>::empty());
    assert(second.events =~= Seq::<super::model::Event>::empty());
}

/// The negotiation that answers a negotiation: none, or one of three bytes
/// about the same option.
pub open spec fn answer_to(state: TelnetState, verb: u8, op: u8) -> Seq<u8> {
    if state.op_state.contains_key(op) {
        reply_bytes(reaction(state.op_state[op], verb), op)
    } else {
        refusal(verb, op)
    }
}

/// The number of bytes in `s` that are `a` or `b`.
pub open spec fn count_of(s: Seq<u8>, a: u8, b: u8) -> nat
    decreases s.len(),
{
    if s.len() == 0 {
        0
    } else {
        count_of(s.drop_last(), a, b) + (if s.last() == a || s.last() == b {
            1nat
        } else {
            0nat
        })
    }
}

/// Counting in two stretches and adding gives the count of the whole.
pub proof fn lemma_count_adds(s: Seq<u8>, t: Seq<u8>, a: u8, b: u8)
    ensures
        count_of(s + t, a, b) == count_of(s, a, b) + count_of(t, a, b),
    decreases t.len(),
{
    if t.len() == 0 {
        assert(s + t =~= s);
    } else {
        assert((s + t).drop_last() =~= s + t.drop_last());
        lemma_count_adds(s, t.drop_last(), a, b);
    }
}

/// One message of the peer is answered by at most one negotiation: what goes
/// out is that answer, if any, and then the sub-negotiations that a switch
/// asks for.
pub proof fn lemma_one_answer(state: TelnetState, profile: Profile, verb: u8, op: u8)
    ensures
        ({
            let answer = answer_to(state, verb, op);
            let sent = after_negotiate(state, profile, verb, op).sent;
            &&& answer.len() == 0 || (answer.len() == 3 && answer[0] == codes::IAC
                && is_negotiation(answer[1]) && answer[2] == op)
            &&& answer.is_prefix_of(sent)
            &&& !state.op_state.contains_key(op) ==> sent == answer
            &&& state.op_state.contains_key(op) ==> sent == answer + switched_sent(
                reaction(state.op_state[op], verb),
                op,
            )
        }),
{
    let answer = answer_to(state, verb, op);
    let sent = after_negotiate(state, profile, verb, op).sent;
    if state.op_state.contains_key(op) {
        assert(answer =~= sent.subrange(0, answer.len() as int));
    } else {
        assert(answer =~= sent.subrange(0, answer.len() as int));
    }
}

/// One negotiation of the peer makes the server send at most two bytes that
/// are `DO` or `DONT`, and at most two that are `WILL` or `WONT`.
pub proof fn lemma_few_verbs(state: TelnetState, profile: Profile, verb: u8, op: u8)
    ensures
        count_of(after_negotiate(state, profile, verb, op).sent, codes::DO, codes::DONT) <= 2,
        count_of(after_negotiate(state, profile, verb, op).sent, codes::WILL, codes::WONT) <= 2,
{
    let sent = after_negotiate(state, profile, verb, op).sent;
    let answer = answer_to(state, verb, op);
    lemma_one_answer(state, profile, verb, op);
    let subs = if state.op_state.contains_key(op) {
        switched_sent(reaction(state.op_state[op], verb), op)
    } else {
        Seq::<u8>::empty()
    };
    assert(sent =~= answer + subs);
    lemma_count_adds(answer, subs, codes::DO, codes::DONT);
    lemma_count_adds(answer, subs, codes::WILL, codes::WONT);
    lemma_count_short(answer, codes::DO, codes::DONT);
    lemma_count_short(answer, codes::WILL, codes::WONT);
    assert(count_of(answer, codes::DO, codes::DONT) <= 2) by {
        lemma_count_triple(answer, codes::DO, codes::DONT);
    }
    assert(count_of(answer, codes::WILL, codes::WONT) <= 2) by {
        lemma_count_triple(answer, codes::WILL, codes::WONT);
    }
    lemma_subs_hold_no_verb(state, verb, op);
}

/// A stretch holds at most as many of two bytes as it is long.
pub proof fn lemma_count_short(s: Seq<u8>, a: u8, b: u8)
    ensures
        count_of(s, a, b) <= s.len(),
    decreases s.len(),
{
    if s.len() > 0 {
        lemma_count_short(s.drop_last(), a, b);
    }
}

/// A stretch of at most three bytes that starts with IAC holds at most two
/// bytes that are verbs.
proof fn lemma_count_triple(s: Seq<u8>, a: u8, b: u8)
    requires
        s.len() == 0 || (s.len() == 3 && s[0] == codes::IAC),
        a != codes::IAC,
        b != codes::IAC,
    ensures
        count_of(s, a, b) <= 2,
{
    if s.len() == 3 {
        let first = s.subrange(0, 1);
        let others = s.subrange(1, 3);
        assert(s =~= first + others);
        lemma_count_adds(first, others, a, b);
        lemma_count_short(others, a, b);
        assert(first.drop_last() =~= Seq::<u8>::empty());
        assert(first.last() == codes::IAC);
        assert(count_of(first.drop_last(), a, b) == 0);
        assert(count_of(first, a, b) == 0);
    }
}

/// The sub-negotiations that a switch asks for hold no negotiation verb.
proof fn lemma_subs_hold_no_verb(state: TelnetState, verb: u8, op: u8)
    ensures
        state.op_state.contains_key(op) ==> count_of(
            switched_sent(reaction(state.op_state[op], verb), op),
            codes::DO,
            codes::DONT,
        ) == 0 && count_of(
            switched_sent(reaction(state.op_state[op], verb), op),
            codes::WILL,
            codes::WONT,
        ) == 0,
{
    if state.op_state.contains_key(op) {
        let subs = switched_sent(reaction(state.op_state[op], verb), op);
        let mxp = seq![codes::IAC, codes::SB, codes::MXP, codes::IAC, codes::SE];
        let mtts = seq![codes::IAC, codes::SB, codes::MTTS, 1u8, codes::IAC, codes::SE];
        assert(subs =~= Seq::<u8>::empty() || subs =~= mxp || subs =~= mtts);
        reveal_with_fuel(count_of, 8);
        assert(count_of(mxp, codes::DO, codes::DONT) == 0);
        assert(count_of(mxp, codes::WILL, codes::WONT) == 0);
        assert(count_of(mtts, codes::DO, codes::DONT) == 0);
        assert(count_of(mtts, codes::WILL, codes::WONT) == 0);
    }
}

/// Whatever the peer sends, the policy stays, the state covers the same
/// options, and the rounds awaited stay finitely many.
pub proof fn lemma_message_keeps_shape(state: TelnetState, profile: Profile, frame: Frame)
    ensures
        after_message(state, profile, frame).state.policy == state.policy,
        after_message(state, profile, frame).state.op_state.dom() == state.op_state.dom(),
        after_message(state, profile, frame).state.local == state.local,
        after_message(state, profile, frame).state.remote == state.remote,
        state.mtts.finite() ==> after_message(state, profile, frame).state.mtts.finite(),
{
    let after = after_message(state, profile, frame).state;
    assert(after.op_state.dom() =~= state.op_state.dom());
}

} // verus!
