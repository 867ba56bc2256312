use mudcrab::net::telnet::codes;
use mudcrab::text::trim_bytes;
use mudcrab::net::telnet::TelnetMessage;

fn decode(src: &[u8]) -> Option<(TelnetMessage, usize)> {
    TelnetMessage::from_bytes(src)
}

#[test]
fn decode_of_nothing_is_none() {
    assert!(decode(&[]).is_none());
}

#[test]
fn decode_data_run_stops_at_the_first_iac() {
    let (msg, used) = decode(&[b'a', b'b', codes::IAC, codes::WILL, 1]).unwrap();
    assert_eq!(used, 2);
    assert!(matches!(msg, TelnetMessage::Data(ref d) if d == &vec![b'a', b'b']));
}

#[test]
fn decode_data_run_without_iac_takes_all() {
    let (msg, used) = decode(b"hello").unwrap();
    assert_eq!(used, 5);
    assert!(matches!(msg, TelnetMessage::Data(ref d) if d == &b"hello".to_vec()));
}

#[test]
fn decode_escaped_iac_is_one_data_byte() {
    let (msg, used) = decode(&[codes::IAC, codes::IAC, b'x']).unwrap();
    assert_eq!(used, 2);
    assert!(matches!(msg, TelnetMessage::Data(ref d) if d == &vec![255u8]));
}

#[test]
fn decode_lone_iac_is_incomplete() {
    assert!(decode(&[codes::IAC]).is_none());
}

#[test]
fn decode_negotiation_takes_three_bytes() {
    for verb in [codes::WILL, codes::WONT, codes::DO, codes::DONT] {
        let (msg, used) = decode(&[codes::IAC, verb, 31, 9]).unwrap();
        assert_eq!(used, 3);
        assert!(matches!(msg, TelnetMessage::Negotiate(v, 31) if v == verb));
    }
}

#[test]
fn decode_negotiation_without_option_is_incomplete() {
    for verb in [codes::WILL, codes::WONT, codes::DO, codes::DONT] {
        assert!(decode(&[codes::IAC, verb]).is_none());
    }
}

#[test]
fn decode_command_takes_two_bytes() {
    let (msg, used) = decode(&[codes::IAC, codes::GA, b'x']).unwrap();
    assert_eq!(used, 2);
    assert!(matches!(msg, TelnetMessage::IAC(c) if c == codes::GA));
}

#[test]
fn decode_sub_negotiation_ends_at_the_first_iac_se() {
    let src = [codes::IAC, codes::SB, 31, 0, 80, 0, 24, codes::IAC, codes::SE, codes::IAC, codes::SE];
    let (msg, used) = decode(&src).unwrap();
    assert_eq!(used, 9);
    assert!(matches!(msg, TelnetMessage::SubNegotiate(31, ref d) if d == &vec![0u8, 80, 0, 24]));
}

#[test]
fn decode_sub_negotiation_with_empty_payload() {
    let (msg, used) = decode(&[codes::IAC, codes::SB, 91, codes::IAC, codes::SE]).unwrap();
    assert_eq!(used, 5);
    assert!(matches!(msg, TelnetMessage::SubNegotiate(91, ref d) if d.is_empty()));
}

#[test]
fn decode_unfinished_sub_negotiation_is_incomplete() {
    assert!(decode(&[codes::IAC, codes::SB]).is_none());
    assert!(decode(&[codes::IAC, codes::SB, 24]).is_none());
    assert!(decode(&[codes::IAC, codes::SB, 24, 0, b'x', codes::IAC]).is_none());
    assert!(decode(&[codes::IAC, codes::SB, codes::IAC, codes::SE]).is_none());
}

#[test]
fn encode_each_kind_of_frame() {
    assert_eq!(TelnetMessage::Data(vec![1, 2, 3]).to_vec(), vec![1, 2, 3]);
    assert_eq!(TelnetMessage::IAC(codes::GA).to_vec(), vec![255, 249]);
    assert_eq!(TelnetMessage::Negotiate(codes::DO, 31).to_vec(), vec![255, 253, 31]);
    assert_eq!(
        TelnetMessage::SubNegotiate(24, vec![1]).to_vec(),
        vec![255, 250, 24, 1, 255, 240]
    );
    assert_eq!(TelnetMessage::SubNegotiate(91, vec![]).to_vec(), vec![255, 250, 91, 255, 240]);
}

#[test]
fn encode_leaves_data_as_it_is() {
    assert_eq!(TelnetMessage::Data(vec![255]).to_vec(), vec![255]);
}

#[test]
fn encoding_a_decoded_frame_gives_back_the_input() {
    let inputs: Vec<Vec<u8>> = vec![
        b"plain text".to_vec(),
        vec![b'a', 255, 251, 1],
        vec![255, 251, 31, 7],
        vec![255, 254, 3],
        vec![255, 249, 1, 2],
        vec![255, 250, 31, 0, 80, 0, 24, 255, 240, 9],
        vec![255, 250, 24, 0, b'x', 255, 240],
    ];
    for input in inputs {
        let (msg, used) = decode(&input).unwrap();
        assert!(used > 0 && used <= input.len());
        assert_eq!(msg.to_vec(), input[..used].to_vec());
    }
}

#[test]
fn the_escaped_iac_is_the_one_frame_that_encodes_shorter() {
    let (msg, used) = decode(&[255, 255]).unwrap();
    assert_eq!(used, 2);
    assert_eq!(msg.to_vec(), vec![255]);
}

#[test]
fn trim_takes_ascii_whitespace_off_both_ends() {
    assert_eq!(trim_bytes(b"  hello \r\n"), b"hello".to_vec());
    assert_eq!(trim_bytes(b"\t\x0c a b \t"), b"a b".to_vec());
    assert_eq!(trim_bytes(b" \r\n "), Vec::<u8>::new());
    assert_eq!(trim_bytes(b""), Vec::<u8>::new());
    assert_eq!(trim_bytes(b"\x0bx\x0b"), b"\x0bx\x0b".to_vec());
}
