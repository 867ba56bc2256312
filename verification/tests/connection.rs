use mio::Token;
use mudcrab::net::telnet::codes;
use mudcrab::net::telnet::options::{TelnetOption, TelnetOptions};
use mudcrab::net::{
    ConnType, ConnectionComponent, ConnectionStatus, Protocol, ProtocolComponent,
    ProtocolOutEvent, ProtocolType, ReadEvent, Text, WriteEvent,
};
use std::collections::HashMap;
use std::io::{Error, ErrorKind};
use std::sync::Arc;

fn conn() -> ConnectionComponent {
    ConnectionComponent::new(Protocol::Telnet, ConnType::Plain, Token(3))
}

#[test]
fn new_connection_is_alive_and_empty() {
    let c = conn();
    assert!(c.is_active());
    assert!(!c.is_tls());
    assert!(!c.write_ready && !c.new_data);
    assert!(c.read_buff.is_empty() && c.write_buff.is_empty());
    assert_eq!(c.token, Token(3));
    assert!(ConnectionComponent::new(Protocol::SSH, ConnType::TLS, Token(4)).is_tls());
}

#[test]
fn read_appends_and_marks_the_buffer() {
    let mut c = conn();
    assert!(c.on_read(ReadEvent::Chunk(b"abc")));
    assert!(c.on_read(ReadEvent::Chunk(b"de")));
    assert_eq!(c.read_buff.to_vec(), b"abcde".to_vec());
    assert!(c.new_data);
    assert!(c.is_active());
    assert!(!c.on_read(ReadEvent::WouldBlock));
    assert!(c.is_active());
    assert!(c.new_data);
    assert_eq!(c.read_buff.to_vec(), b"abcde".to_vec());
}

#[test]
fn would_block_on_a_fresh_connection_changes_nothing() {
    let mut c = conn();
    assert!(!c.on_read(ReadEvent::WouldBlock));
    assert!(!c.new_data);
    assert!(c.is_active());
}

#[test]
fn empty_read_means_the_peer_is_gone() {
    let mut c = conn();
    c.on_read(ReadEvent::Chunk(b"bye"));
    assert!(!c.on_read(ReadEvent::Chunk(b"")));
    assert!(matches!(c.status, ConnectionStatus::ClientEOF));
    assert!(!c.is_active());
    assert_eq!(c.read_buff.to_vec(), b"bye".to_vec());
    assert!(c.new_data);
}

#[test]
fn failed_read_ends_the_connection() {
    let mut c = conn();
    assert!(!c.on_read(ReadEvent::Failed(Error::new(ErrorKind::ConnectionReset, "reset"))));
    assert!(matches!(&c.status, ConnectionStatus::ClientError(e) if e.kind() == ErrorKind::ConnectionReset));
    assert!(!c.new_data);
}

#[test]
fn nothing_is_written_before_the_transport_is_ready() {
    let mut c = conn();
    assert_eq!(c.write(b"hello"), 5);
    assert!(c.next_write().is_none());
    c.mark_writable();
    assert_eq!(c.next_write(), Some(&b"hello"[..]));
}

#[test]
fn nothing_is_written_where_nothing_is_queued() {
    let mut c = conn();
    c.mark_writable();
    assert!(c.next_write().is_none());
}

#[test]
fn nothing_is_written_on_a_dead_connection() {
    let mut c = conn();
    c.write(b"hello");
    c.mark_writable();
    c.status = ConnectionStatus::ClientEOF;
    assert!(c.next_write().is_none());
}

#[test]
fn written_bytes_leave_the_buffer() {
    let mut c = conn();
    c.write(b"hello world");
    c.mark_writable();
    assert!(c.on_write(WriteEvent::Written(6)));
    assert_eq!(c.next_write(), Some(&b"world"[..]));
    assert!(!c.on_write(WriteEvent::Written(5)));
    assert!(c.write_buff.is_empty());
    assert!(c.write_ready);
    assert!(c.next_write().is_none());
}

#[test]
fn would_block_on_write_clears_the_mark() {
    let mut c = conn();
    c.write(b"hello");
    c.mark_writable();
    assert!(!c.on_write(WriteEvent::WouldBlock));
    assert!(!c.write_ready);
    assert_eq!(c.write_buff.to_vec(), b"hello".to_vec());
    assert!(c.next_write().is_none());
}

#[test]
fn failed_write_is_left_to_the_next_read() {
    let mut c = conn();
    c.write(b"hello");
    c.mark_writable();
    assert!(!c.on_write(WriteEvent::Failed(Error::new(ErrorKind::BrokenPipe, "pipe"))));
    assert!(c.is_active());
    assert!(c.write_ready);
    assert_eq!(c.write_buff.to_vec(), b"hello".to_vec());
}

fn telnet_with(policy: HashMap<u8, TelnetOption>) -> ProtocolComponent {
    ProtocolComponent::telnet(Arc::new(policy), 0)
}

#[test]
fn line_goes_out_with_cr_lf() {
    let mut prot = telnet_with(HashMap::new());
    let mut c = conn();
    prot.send_event(ProtocolOutEvent::Line(Text::new("héllo")), &mut c);
    assert_eq!(c.write_buff.to_vec(), [&"héllo".as_bytes()[..], &b"\r\n"[..]].concat());
}

#[test]
fn prompt_ends_in_go_ahead_by_default() {
    let mut prot = ProtocolComponent::telnet(TelnetOptions::default().0, 0);
    let mut c = conn();
    prot.send_event(ProtocolOutEvent::Prompt(Text::new("> ")), &mut c);
    assert_eq!(c.write_buff.to_vec(), vec![b'>', b' ', 255, 249]);
}

fn enable_local(prot: &mut ProtocolComponent, op: u8) {
    match &mut prot.ptype {
        ProtocolType::Telnet(t) => t.op_state.get_mut(&op).unwrap().local.enabled = true,
        _ => panic!("not telnet"),
    }
}

#[test]
fn prompt_ends_in_nothing_where_go_ahead_is_suppressed() {
    let mut prot = ProtocolComponent::telnet(TelnetOptions::default().0, 0);
    enable_local(&mut prot, codes::SGA);
    let mut c = conn();
    prot.send_event(ProtocolOutEvent::Prompt(Text::new("> ")), &mut c);
    assert_eq!(c.write_buff.to_vec(), b"> ".to_vec());
}

#[test]
fn prompt_ends_in_end_of_record_where_that_is_on() {
    let mut prot = ProtocolComponent::telnet(TelnetOptions::default().0, 0);
    enable_local(&mut prot, codes::SGA);
    enable_local(&mut prot, codes::TELOPT_EOR);
    let mut c = conn();
    prot.send_event(ProtocolOutEvent::Prompt(Text::new("> ")), &mut c);
    assert_eq!(c.write_buff.to_vec(), vec![b'>', b' ', 255, 239]);
}

#[test]
fn status_report_is_a_sub_negotiation() {
    let mut prot = telnet_with(HashMap::new());
    let mut c = conn();
    let pairs = vec![("NAME".to_string(), "Crab".to_string()), ("PLAYERS".to_string(), "3".to_string())];
    prot.send_event(ProtocolOutEvent::MSSP(pairs), &mut c);
    let mut expected = vec![255, 250, 70, 1];
    expected.extend_from_slice(b"NAME");
    expected.push(2);
    expected.extend_from_slice(b"Crab");
    expected.push(1);
    expected.extend_from_slice(b"PLAYERS");
    expected.push(2);
    expected.extend_from_slice(b"3");
    expected.extend_from_slice(&[255, 240]);
    assert_eq!(c.write_buff.to_vec(), expected);
}

#[test]
fn empty_status_report_is_an_empty_sub_negotiation() {
    let mut prot = telnet_with(HashMap::new());
    let mut c = conn();
    prot.send_event(ProtocolOutEvent::MSSP(Vec::new()), &mut c);
    assert_eq!(c.write_buff.to_vec(), vec![255, 250, 70, 255, 240]);
}

fn enable_remote(prot: &mut ProtocolComponent, op: u8) {
    match &mut prot.ptype {
        ProtocolType::Telnet(t) => t.op_state.get_mut(&op).unwrap().remote.enabled = true,
        _ => panic!("not telnet"),
    }
}

fn oob(prot: &mut ProtocolComponent, cmd: &str, args: &[&str], kwargs: &[(&str, &str)]) -> Vec<u8> {
    let mut c = conn();
    let event = ProtocolOutEvent::OOB(
        cmd.to_string(),
        args.iter().map(|a| a.to_string()).collect(),
        kwargs.iter().map(|(k, v)| (k.to_string(), v.to_string())).collect(),
    );
    prot.send_event(event, &mut c);
    c.write_buff.to_vec()
}

fn sub(op: u8, payload: &[u8]) -> Vec<u8> {
    [&[255u8, 250, op][..], payload, &[255u8, 240][..]].concat()
}

fn with_gmcp() -> ProtocolComponent {
    let mut prot = ProtocolComponent::telnet(TelnetOptions::default().0, 0);
    enable_remote(&mut prot, codes::GMCP);
    prot
}

fn with_msdp() -> ProtocolComponent {
    let mut prot = ProtocolComponent::telnet(TelnetOptions::default().0, 0);
    enable_remote(&mut prot, codes::MSDP);
    prot
}

#[test]
fn out_of_band_command_is_dropped_where_no_option_carries_it() {
    let mut prot = telnet_with(HashMap::new());
    assert!(oob(&mut prot, "Core.Hello", &["x"], &[("k", "v")]).is_empty());
    let mut prot = ProtocolComponent::telnet(TelnetOptions::default().0, 0);
    assert!(oob(&mut prot, "Core.Hello", &[], &[]).is_empty());
    enable_local(&mut prot, codes::SGA);
    enable_remote(&mut prot, codes::NAWS);
    assert!(oob(&mut prot, "Core.Hello", &[], &[]).is_empty());
}

#[test]
fn gmcp_command_without_arguments_is_its_name() {
    assert_eq!(oob(&mut with_gmcp(), "Core.Ping", &[], &[]), sub(201, b"Core.Ping"));
}

#[test]
fn gmcp_single_argument_is_a_json_string() {
    assert_eq!(oob(&mut with_gmcp(), "Char.Name", &["bob"], &[]), sub(201, b"Char.Name \"bob\""));
    assert_eq!(oob(&mut with_gmcp(), "Char.Name", &[""], &[]), sub(201, b"Char.Name \"\""));
}

#[test]
fn gmcp_plain_arguments_are_a_json_array() {
    assert_eq!(
        oob(&mut with_gmcp(), "Room.Exits", &["n", "s", "up"], &[]),
        sub(201, b"Room.Exits [\"n\",\"s\",\"up\"]")
    );
}

#[test]
fn gmcp_named_arguments_are_a_json_object() {
    assert_eq!(
        oob(&mut with_gmcp(), "Char.Vitals", &[], &[("hp", "10"), ("mp", "5")]),
        sub(201, b"Char.Vitals {\"hp\":\"10\",\"mp\":\"5\"}")
    );
}

#[test]
fn gmcp_both_kinds_of_arguments_are_an_array_of_both() {
    assert_eq!(
        oob(&mut with_gmcp(), "X", &["a"], &[("k", "v")]),
        sub(201, b"X [[\"a\"],{\"k\":\"v\"}]")
    );
}

#[test]
fn gmcp_string_is_escaped() {
    assert_eq!(
        oob(&mut with_gmcp(), "T", &["a\"b\\c\n\u{1}\u{1f} \u{e9}"], &[]),
        sub(201, "T \"a\\\"b\\\\c\\u000a\\u0001\\u001f \u{e9}\"".as_bytes())
    );
}

#[test]
fn gmcp_data_reads_back_as_json() {
    let args = ["plain", "with \"quotes\"", "back\\slash", "tab\there", "nul\u{0}", "h\u{e9}llo \u{4e16}\u{754c}", ""];
    let sent = oob(&mut with_gmcp(), "Test.Echo", &args, &[]);
    let payload = &sent[3..sent.len() - 2];
    let json = &payload[b"Test.Echo ".len()..];
    let back: Vec<String> = serde_json::from_slice(json).unwrap();
    assert_eq!(back, args.iter().map(|a| a.to_string()).collect::<Vec<String>>());

    let kwargs = [("na\"me", "v\n1"), ("other", "\u{7f}")];
    let sent = oob(&mut with_gmcp(), "Test.Echo", &[], &kwargs);
    let json = &sent[3 + b"Test.Echo ".len()..sent.len() - 2];
    let back: std::collections::BTreeMap<String, String> = serde_json::from_slice(json).unwrap();
    assert_eq!(back.len(), 2);
    assert_eq!(back["na\"me"], "v\n1");
    assert_eq!(back["other"], "\u{7f}");
}

#[test]
fn msdp_command_without_arguments_has_an_empty_value() {
    assert_eq!(oob(&mut with_msdp(), "LIST", &[], &[]), sub(69, &[1, b'L', b'I', b'S', b'T', 2]));
}

#[test]
fn msdp_single_argument_is_the_value() {
    assert_eq!(
        oob(&mut with_msdp(), "HEALTH", &["100"], &[]),
        sub(69, &[&[1u8][..], b"HEALTH", &[2], b"100"].concat())
    );
}

#[test]
fn msdp_plain_arguments_are_an_array() {
    assert_eq!(
        oob(&mut with_msdp(), "EXITS", &["n", "s"], &[]),
        sub(69, &[&[1u8][..], b"EXITS", &[2, 5, 2], b"n", &[2], b"s", &[6]].concat())
    );
}

#[test]
fn msdp_named_arguments_are_a_table() {
    assert_eq!(
        oob(&mut with_msdp(), "ROOM", &[], &[("VNUM", "7"), ("NAME", "Inn")]),
        sub(69, &[&[1u8][..], b"ROOM", &[2, 3, 1], b"VNUM", &[2], b"7", &[1], b"NAME", &[2], b"Inn", &[4]].concat())
    );
}

#[test]
fn msdp_both_kinds_of_arguments_are_an_array_of_both() {
    assert_eq!(
        oob(&mut with_msdp(), "X", &["a"], &[("k", "v")]),
        sub(69, &[&[1u8][..], b"X", &[2, 5, 2, 5, 2], b"a", &[6, 2, 3, 1], b"k", &[2], b"v", &[4, 6]].concat())
    );
}

#[test]
fn gmcp_is_taken_before_msdp() {
    let mut prot = with_msdp();
    enable_remote(&mut prot, codes::GMCP);
    assert_eq!(oob(&mut prot, "Core.Ping", &[], &[]), sub(201, b"Core.Ping"));
}

#[test]
fn option_that_is_on_at_our_end_is_in_use() {
    let mut prot = ProtocolComponent::telnet(TelnetOptions::default().0, 0);
    enable_local(&mut prot, codes::MSDP);
    assert_eq!(oob(&mut prot, "PING", &[], &[]), sub(69, &[1, b'P', b'I', b'N', b'G', 2]));
    match &prot.ptype {
        ProtocolType::Telnet(t) => {
            assert!(t.uses(codes::MSDP));
            assert!(!t.uses(codes::GMCP));
            assert!(!t.uses(99));
        }
        _ => panic!("not telnet"),
    }
}

#[test]
fn queued_events_go_out_in_their_order() {
    let mut prot = telnet_with(HashMap::new());
    let mut c = conn();
    c.write(b"!");
    prot.out_buffer.push_back(ProtocolOutEvent::Line(Text::new("one")));
    prot.out_buffer.push_back(ProtocolOutEvent::Line(Text::new("two")));
    prot.out_buffer.push_back(ProtocolOutEvent::Prompt(Text::new("> ")));
    mudcrab::engine::systems::send_out_events(&mut prot, &mut c);
    assert_eq!(c.write_buff.to_vec(), [&b"!one\r\ntwo\r\n> "[..], &[255, 249][..]].concat());
    assert!(prot.out_buffer.is_empty());
}

#[test]
fn text_renders_as_its_utf8_bytes() {
    let caps = mudcrab::net::ProtocolCapabilities::telnet();
    assert_eq!(Text::new("añb").render(&caps), "añb".as_bytes().to_vec());
    assert_eq!(Text::new("").render(&caps), Vec::<u8>::new());
}
