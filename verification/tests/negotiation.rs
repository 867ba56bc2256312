use bytes::BytesMut;
use mudcrab::net::telnet::codes;
use mudcrab::net::telnet::options::{
    TelnetHandshakes, TelnetOption, TelnetOptionPerspective, TelnetOptionState, TelnetOptions,
};
use mudcrab::net::telnet::protocol::{react, TelnetEvent, TelnetProtocol};
use mudcrab::net::telnet::TelnetMessage;
use mudcrab::net::{Feature, ProtocolCapabilities};
use std::collections::HashMap;
use std::sync::Arc;

struct Rig {
    telnet: TelnetProtocol,
    caps: ProtocolCapabilities,
    out: Vec<TelnetEvent>,
    writer: BytesMut,
}

fn rig() -> Rig {
    Rig {
        telnet: TelnetProtocol::new(TelnetOptions::default().0),
        caps: ProtocolCapabilities::telnet(),
        out: Vec::new(),
        writer: BytesMut::new(),
    }
}

fn feed(r: &mut Rig, msg: TelnetMessage) -> Vec<u8> {
    r.writer.clear();
    r.telnet.process_message(msg, &mut r.out, &mut r.writer, &mut r.caps);
    r.writer.to_vec()
}

fn state(r: &Rig, op: u8) -> TelnetOptionState {
    r.telnet.op_state[&op]
}

fn off() -> TelnetOptionPerspective {
    TelnetOptionPerspective { enabled: false, negotiating: false }
}

#[test]
fn default_policy_has_the_eight_options() {
    let policy = TelnetOptions::default().0;
    assert_eq!(policy.len(), 8);
    let asked = TelnetOption { allow_local: true, allow_remote: true, start_local: false, start_remote: true };
    let offered = TelnetOption { allow_local: false, allow_remote: true, start_local: true, start_remote: false };
    for op in [codes::SGA, codes::MSSP, codes::GMCP, codes::MSDP, codes::TELOPT_EOR] {
        assert_eq!(policy[&op], asked);
    }
    for op in [codes::NAWS, codes::MTTS, codes::LINEMODE] {
        assert_eq!(policy[&op], offered);
    }
}

#[test]
fn new_protocol_knows_each_option_of_the_policy() {
    let r = rig();
    assert_eq!(r.telnet.op_state.len(), 8);
    for op in [3u8, 24, 25, 31, 34, 69, 70, 201] {
        assert_eq!(state(&r, op), TelnetOptionState { remote: off(), local: off() });
    }
    assert!(r.telnet.handshakes_left.is_empty());
    assert!(r.telnet.app_buffer.is_empty());
    assert!(r.telnet.mtts_last.is_none());
}

#[test]
fn start_sends_one_triple_for_each_option_in_the_order_of_the_codes() {
    let mut r = rig();
    r.telnet.start(&mut r.writer);
    assert_eq!(
        r.writer.to_vec(),
        vec![
            255, 253, 3, 255, 251, 24, 255, 253, 25, 255, 251, 31, 255, 251, 34, 255, 253, 69,
            255, 253, 70, 255, 253, 201
        ]
    );
    for op in [3u8, 25, 69, 70, 201] {
        assert!(state(&r, op).remote.negotiating);
        assert!(!state(&r, op).local.negotiating);
    }
    for op in [24u8, 31, 34] {
        assert!(state(&r, op).local.negotiating);
        assert!(!state(&r, op).remote.negotiating);
    }
}

#[test]
fn start_with_an_empty_policy_sends_nothing() {
    let mut telnet = TelnetProtocol::new(Arc::new(HashMap::new()));
    let mut writer = BytesMut::new();
    telnet.start(&mut writer);
    assert!(writer.is_empty());
    assert!(telnet.op_state.is_empty());
}

#[test]
fn unknown_option_is_refused() {
    let mut r = rig();
    assert_eq!(feed(&mut r, TelnetMessage::Negotiate(codes::WILL, 99)), vec![255, 254, 99]);
    assert_eq!(feed(&mut r, TelnetMessage::Negotiate(codes::DO, 99)), vec![255, 252, 99]);
    assert_eq!(feed(&mut r, TelnetMessage::Negotiate(codes::WONT, 99)), Vec::<u8>::new());
    assert_eq!(feed(&mut r, TelnetMessage::Negotiate(codes::DONT, 99)), Vec::<u8>::new());
    assert!(r.out.is_empty());
    assert!(!r.telnet.op_state.contains_key(&99));
}

#[test]
fn unasked_will_is_answered_with_do() {
    let mut r = rig();
    assert_eq!(feed(&mut r, TelnetMessage::Negotiate(codes::WILL, codes::SGA)), vec![255, 253, 3]);
    assert!(state(&r, 3).remote.enabled);
    assert!(matches!(r.out.as_slice(), [TelnetEvent::RemoteHandshake(3)]));
}

#[test]
fn will_that_answers_our_do_gets_no_reply() {
    let mut r = rig();
    r.telnet.start(&mut r.writer);
    assert_eq!(feed(&mut r, TelnetMessage::Negotiate(codes::WILL, codes::SGA)), Vec::<u8>::new());
    assert!(state(&r, 3).remote.enabled);
    assert!(!state(&r, 3).remote.negotiating);
    assert!(matches!(r.out.as_slice(), [TelnetEvent::RemoteHandshake(3)]));
}

#[test]
fn unasked_do_is_answered_with_will() {
    let mut r = rig();
    assert_eq!(feed(&mut r, TelnetMessage::Negotiate(codes::DO, codes::SGA)), vec![255, 251, 3]);
    assert!(state(&r, 3).local.enabled);
    assert!(r.caps.supports(Feature::Sga));
    assert!(matches!(r.out.as_slice(), [TelnetEvent::LocalHandshake(3)]));
}

#[test]
fn dont_switches_our_end_off() {
    let mut r = rig();
    feed(&mut r, TelnetMessage::Negotiate(codes::DO, codes::SGA));
    assert!(r.caps.supports(Feature::Sga));
    assert_eq!(feed(&mut r, TelnetMessage::Negotiate(codes::DONT, codes::SGA)), Vec::<u8>::new());
    assert!(!state(&r, 3).local.enabled);
    assert!(!r.caps.supports(Feature::Sga));
    assert_eq!(r.out.len(), 1);
}

#[test]
fn wont_that_refuses_our_do_raises_the_handshake() {
    let mut r = rig();
    r.telnet.start(&mut r.writer);
    assert_eq!(feed(&mut r, TelnetMessage::Negotiate(codes::WONT, codes::SGA)), Vec::<u8>::new());
    assert!(!state(&r, 3).remote.negotiating);
    assert!(!state(&r, 3).remote.enabled);
    assert!(matches!(r.out.as_slice(), [TelnetEvent::RemoteHandshake(3)]));
}

#[test]
fn the_same_verb_twice_is_silent_the_second_time() {
    for verb in [codes::WILL, codes::WONT, codes::DO, codes::DONT] {
        let mut r = rig();
        feed(&mut r, TelnetMessage::Negotiate(verb, codes::NAWS));
        let after_first = state(&r, codes::NAWS);
        let raised = r.out.len();
        assert_eq!(feed(&mut r, TelnetMessage::Negotiate(verb, codes::NAWS)), Vec::<u8>::new());
        assert_eq!(state(&r, codes::NAWS), after_first);
        assert_eq!(r.out.len(), raised);
    }
}

#[test]
fn a_verb_never_makes_an_end_wait() {
    let all = [false, true];
    for verb in [codes::WILL, codes::WONT, codes::DO, codes::DONT, 0u8] {
        for le in all {
            for ln in all {
                for re in all {
                    for rn in all {
                        let st = TelnetOptionState {
                            local: TelnetOptionPerspective { enabled: le, negotiating: ln },
                            remote: TelnetOptionPerspective { enabled: re, negotiating: rn },
                        };
                        let r = react(st, verb);
                        assert!(!r.state.local.negotiating || ln);
                        assert!(!r.state.remote.negotiating || rn);
                        assert_eq!(react(r.state, verb).state, r.state);
                        assert!(react(r.state, verb).reply.is_none());
                    }
                }
            }
        }
    }
}

#[test]
fn one_negotiation_is_answered_by_at_most_one_triple() {
    for verb in [codes::WILL, codes::WONT, codes::DO, codes::DONT] {
        for op in [3u8, 24, 31, 91, 99, 253, 251] {
            let mut r = rig();
            let sent = feed(&mut r, TelnetMessage::Negotiate(verb, op));
            let do_dont = sent.iter().filter(|b| **b == codes::DO || **b == codes::DONT).count();
            let will_wont = sent.iter().filter(|b| **b == codes::WILL || **b == codes::WONT).count();
            assert!(do_dont <= 2);
            assert!(will_wont <= 2);
        }
    }
}

#[test]
fn naws_switch_off_resets_the_window() {
    let mut r = rig();
    feed(&mut r, TelnetMessage::Negotiate(codes::WILL, codes::NAWS));
    assert!(r.caps.supports(Feature::Naws));
    feed(&mut r, TelnetMessage::SubNegotiate(codes::NAWS, vec![0, 120, 0, 40]));
    assert_eq!((r.caps.width, r.caps.height), (120, 40));
    feed(&mut r, TelnetMessage::Negotiate(codes::WONT, codes::NAWS));
    assert!(!r.caps.supports(Feature::Naws));
    assert_eq!((r.caps.width, r.caps.height), (78, 24));
}

#[test]
fn naws_reads_two_big_endian_numbers() {
    let mut r = rig();
    feed(&mut r, TelnetMessage::SubNegotiate(codes::NAWS, vec![1, 2, 3, 4, 9]));
    assert_eq!((r.caps.width, r.caps.height), (258, 772));
}

#[test]
fn short_naws_is_ignored() {
    let mut r = rig();
    feed(&mut r, TelnetMessage::SubNegotiate(codes::NAWS, vec![0, 80, 0]));
    assert_eq!((r.caps.width, r.caps.height), (78, 24));
}

#[test]
fn sub_negotiation_of_an_unknown_option_is_dropped() {
    let mut r = rig();
    let sent = feed(&mut r, TelnetMessage::SubNegotiate(99, vec![1, 2, 3, 4]));
    assert!(sent.is_empty());
    assert!(r.out.is_empty());
    assert_eq!((r.caps.width, r.caps.height), (78, 24));
}

#[test]
fn linemode_follows_the_peer() {
    let mut r = rig();
    feed(&mut r, TelnetMessage::Negotiate(codes::WILL, codes::LINEMODE));
    assert!(r.caps.supports(Feature::Linemode));
    feed(&mut r, TelnetMessage::Negotiate(codes::WONT, codes::LINEMODE));
    assert!(!r.caps.supports(Feature::Linemode));
}

#[test]
fn mxp_switch_on_sends_an_empty_sub_negotiation() {
    let mut policy: HashMap<u8, TelnetOption> = HashMap::new();
    policy.insert(codes::MXP, TelnetOption { allow_local: true, allow_remote: true, start_local: true, start_remote: false });
    let mut telnet = TelnetProtocol::new(Arc::new(policy));
    let mut caps = ProtocolCapabilities::telnet();
    let mut out = Vec::new();
    let mut writer = BytesMut::new();
    telnet.start(&mut writer);
    assert_eq!(writer.to_vec(), vec![255, 251, 91]);
    writer.clear();
    telnet.process_message(TelnetMessage::Negotiate(codes::DO, codes::MXP), &mut out, &mut writer, &mut caps);
    assert_eq!(writer.to_vec(), vec![255, 250, 91, 255, 240]);
    assert!(caps.supports(Feature::Mxp));
    writer.clear();
    telnet.process_message(TelnetMessage::Negotiate(codes::DONT, codes::MXP), &mut out, &mut writer, &mut caps);
    assert!(writer.is_empty());
    assert!(!caps.supports(Feature::Mxp));
}

#[test]
fn command_has_no_effect() {
    let mut r = rig();
    assert!(feed(&mut r, TelnetMessage::IAC(codes::GA)).is_empty());
    assert!(r.out.is_empty());
}

#[test]
fn send_sub_frames_the_payload() {
    let mut r = rig();
    r.telnet.send_sub(70, &[1, b'a', 2, b'b'], &mut r.writer);
    assert_eq!(r.writer.to_vec(), vec![255, 250, 70, 1, b'a', 2, b'b', 255, 240]);
}

#[test]
fn handshakes_count_all_three_sets() {
    let mut h = TelnetHandshakes::default();
    assert_eq!(h.len(), 0);
    assert!(h.is_empty());
    h.local.insert(3);
    h.remote.insert(31);
    h.mtts.insert(0);
    h.mtts.insert(1);
    assert_eq!(h.len(), 4);
    assert!(!h.is_empty());
}

#[test]
fn lines_are_trimmed_and_raised_in_order() {
    let mut r = rig();
    feed(&mut r, TelnetMessage::Data(b"  look \r\nsay hi\nnor".to_vec()));
    assert!(matches!(r.out.as_slice(), [TelnetEvent::Line(a), TelnetEvent::Line(b)] if a == "look" && b == "say hi"));
    assert_eq!(r.telnet.app_buffer.to_vec(), b"nor".to_vec());
    feed(&mut r, TelnetMessage::Data(b"th\n".to_vec()));
    assert!(matches!(&r.out[2], TelnetEvent::Line(c) if c == "north"));
    assert!(r.telnet.app_buffer.is_empty());
}

#[test]
fn empty_line_is_raised_as_an_empty_text() {
    let mut r = rig();
    feed(&mut r, TelnetMessage::Data(b"\r\n".to_vec()));
    assert!(matches!(r.out.as_slice(), [TelnetEvent::Line(a)] if a.is_empty()));
}

#[test]
fn line_of_utf8_is_kept() {
    let mut r = rig();
    feed(&mut r, TelnetMessage::Data("héllo wörld\n".as_bytes().to_vec()));
    assert!(matches!(r.out.as_slice(), [TelnetEvent::Line(a)] if a == "héllo wörld"));
}

#[test]
fn line_that_is_not_utf8_is_dropped() {
    let mut r = rig();
    feed(&mut r, TelnetMessage::Data(vec![b'a', 0xC3, b'\n', b'o', b'k', b'\n']));
    assert!(matches!(r.out.as_slice(), [TelnetEvent::Line(a)] if a == "ok"));
    assert!(r.telnet.app_buffer.is_empty());
}
