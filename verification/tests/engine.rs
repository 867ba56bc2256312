use mio::Token;
use mudcrab::config::{Config, ConfigError, ListenerConfig, NetConfig, TlsConfig};
use mudcrab::engine::resources::{holds, ConnPoll, ListenPoll, Readiness};
use mudcrab::engine::{tick_sleep, TICK_NANOS};
use mudcrab::net::{ConnType, Feature, Protocol, ProtocolCapabilities};

fn ready(token: usize, readable: bool, writable: bool) -> Readiness {
    Readiness { token: Token(token), readable, writable }
}

#[test]
fn tick_sleeps_for_what_is_left_of_it() {
    assert_eq!(TICK_NANOS, 10_000_000);
    assert_eq!(tick_sleep(0), Some(10_000_000));
    assert_eq!(tick_sleep(2_500_000), Some(7_500_000));
    assert_eq!(tick_sleep(9_999_999), Some(1));
    assert_eq!(tick_sleep(10_000_000), None);
    assert_eq!(tick_sleep(10_000_001), None);
    assert_eq!(tick_sleep(u128::MAX), None);
}

#[test]
fn connection_tokens_count_up_from_one() {
    let mut poll = ConnPoll::new();
    assert_eq!(poll.get_next(), Token(1));
    assert_eq!(poll.get_next(), Token(2));
    assert_eq!(poll.get_next(), Token(3));
    assert_eq!(poll.next, 3);
}

#[test]
fn listener_tokens_are_a_sequence_of_their_own() {
    let mut conns = ConnPoll::new();
    let mut listeners = ListenPoll::new();
    conns.get_next();
    conns.get_next();
    assert_eq!(listeners.get_next(), Token(1));
    assert_eq!(conns.get_next(), Token(3));
    assert_eq!(listeners.get_next(), Token(2));
}

#[test]
fn poll_sorts_the_connections_by_what_they_are_ready_for() {
    let mut poll = ConnPoll::new();
    let busiest = poll.poll(&[ready(4, true, false), ready(2, false, true), ready(9, true, true), ready(5, false, false), ready(1, false, true)]);
    assert_eq!(poll.read_ready, vec![Token(4), Token(9)]);
    assert_eq!(poll.write_ready, vec![Token(2), Token(9), Token(1)]);
    assert_eq!(busiest, 3);
    assert!(poll.is_read_ready(Token(9)) && poll.is_write_ready(Token(9)));
    assert!(poll.is_read_ready(Token(4)) && !poll.is_write_ready(Token(4)));
    assert!(!poll.is_read_ready(Token(5)) && !poll.is_write_ready(Token(5)));
}

#[test]
fn poll_forgets_what_the_last_one_found() {
    let mut poll = ConnPoll::new();
    poll.get_next();
    poll.poll(&[ready(1, true, true)]);
    assert_eq!(poll.poll(&[ready(2, true, false)]), 1);
    assert_eq!(poll.read_ready, vec![Token(2)]);
    assert!(poll.write_ready.is_empty());
    assert_eq!(poll.poll(&[]), 0);
    assert!(poll.read_ready.is_empty());
    assert_eq!(poll.next, 1);
}

#[test]
fn listener_poll_notes_the_readable_listeners() {
    let mut poll = ListenPoll::new();
    assert_eq!(poll.poll(&[ready(1, true, false), ready(2, false, true), ready(3, true, true)]), 2);
    assert_eq!(poll.accept_ready, vec![Token(1), Token(3)]);
    assert!(poll.is_accept_ready(Token(3)));
    assert!(!poll.is_accept_ready(Token(2)));
    assert_eq!(poll.poll(&[]), 0);
    assert!(!poll.is_accept_ready(Token(1)));
}

#[test]
fn holds_looks_for_the_token() {
    assert!(holds(&vec![Token(1), Token(5)], Token(5)));
    assert!(!holds(&vec![Token(1), Token(5)], Token(2)));
    assert!(!holds(&Vec::new(), Token(0)));
}

fn listeners() -> ListenerConfig {
    ListenerConfig { plain_telnet: None, tls_telnet: None, plain_websocket: None, tls_websocket: None, ssh: None }
}

fn tls() -> TlsConfig {
    TlsConfig { key: "key.pem".to_string(), pem: "cert.pem".to_string() }
}

fn config(l: Option<ListenerConfig>, t: Option<TlsConfig>) -> Config {
    Config { net: Some(NetConfig { listeners: l, tls: t }) }
}

#[test]
fn config_without_net_cannot_start() {
    assert_eq!(Config { net: None }.listener_plan().unwrap_err(), ConfigError::MissingNet);
}

#[test]
fn config_without_listeners_cannot_start() {
    assert_eq!(config(None, Some(tls())).listener_plan().unwrap_err(), ConfigError::MissingListeners);
}

#[test]
fn config_with_no_address_cannot_start() {
    assert_eq!(config(Some(listeners()), None).listener_plan().unwrap_err(), ConfigError::NoListeners);
}

#[test]
fn config_with_tls_listener_needs_tls_material() {
    let mut l = listeners();
    l.plain_telnet = Some("0.0.0.0:4000".to_string());
    l.tls_telnet = Some("0.0.0.0:4001".to_string());
    assert_eq!(config(Some(l.clone()), None).listener_plan().unwrap_err(), ConfigError::MissingTls);
    assert_eq!(config(Some(l), Some(tls())).listener_plan().unwrap().len(), 2);
    let mut w = listeners();
    w.tls_websocket = Some("0.0.0.0:4003".to_string());
    assert_eq!(config(Some(w), None).listener_plan().unwrap_err(), ConfigError::MissingTls);
}

#[test]
fn config_without_tls_listener_needs_no_tls_material() {
    let mut l = listeners();
    l.plain_telnet = Some("127.0.0.1:4000".to_string());
    let plan = config(Some(l), None).listener_plan().unwrap();
    assert_eq!(plan.len(), 1);
    assert_eq!(plan[0].address, "127.0.0.1:4000");
    assert_eq!(plan[0].protocol, Protocol::Telnet);
    assert_eq!(plan[0].ctype, ConnType::Plain);
}

#[test]
fn config_plans_each_listener_in_order() {
    let l = ListenerConfig {
        plain_telnet: Some("a:1".to_string()),
        tls_telnet: Some("a:2".to_string()),
        plain_websocket: Some("a:3".to_string()),
        tls_websocket: Some("a:4".to_string()),
        ssh: Some("a:5".to_string()),
    };
    let plan = config(Some(l), Some(tls())).listener_plan().unwrap();
    let got: Vec<(String, Protocol, ConnType)> = plan.iter().map(|p| (p.address.clone(), p.protocol, p.ctype)).collect();
    assert_eq!(
        got,
        vec![
            ("a:1".to_string(), Protocol::Telnet, ConnType::Plain),
            ("a:2".to_string(), Protocol::Telnet, ConnType::TLS),
            ("a:3".to_string(), Protocol::WebSocket, ConnType::Plain),
            ("a:4".to_string(), Protocol::WebSocket, ConnType::TLS),
            ("a:5".to_string(), Protocol::SSH, ConnType::Plain),
        ]
    );
}

#[test]
fn config_errors_have_their_words() {
    assert_eq!(ConfigError::MissingNet.message(), "Program requires Net configuration to be useful!");
    assert_eq!(ConfigError::MissingListeners.message(), "Program needs listeners to have meaning!");
    assert_eq!(ConfigError::NoListeners.message(), "Program has no listeners!");
    assert_eq!(ConfigError::MissingTls.message(), "A TLS listener needs a key and a certificate!");
}

const ALL: [Feature; 21] = [
    Feature::Ansi, Feature::Xterm256, Feature::Truecolor, Feature::Utf8, Feature::Html,
    Feature::Mxp, Feature::Gmcp, Feature::Msdp, Feature::Mssp, Feature::Mtts, Feature::Naws,
    Feature::Mccp2, Feature::Sga, Feature::Linemode, Feature::ScreenReader, Feature::Vt100,
    Feature::MouseTracking, Feature::OscColorPalette, Feature::Mnes, Feature::Oob, Feature::Proxy,
];

fn on(caps: &ProtocolCapabilities) -> Vec<Feature> {
    ALL.iter().copied().filter(|f| caps.supports(*f)).collect()
}

#[test]
fn unknown_client_has_no_feature() {
    let caps = ProtocolCapabilities::default();
    assert_eq!(caps.protocol, Protocol::Telnet);
    assert_eq!(caps.client_name, "UNKNOWN");
    assert_eq!(caps.client_version, "UNKNOWN");
    assert_eq!((caps.width, caps.height), (78, 24));
    assert!(on(&caps).is_empty());
    assert!(on(&ProtocolCapabilities::telnet()).is_empty());
}

#[test]
fn websocket_client_starts_with_its_features() {
    let caps = ProtocolCapabilities::websocket();
    assert_eq!(caps.protocol, Protocol::WebSocket);
    assert_eq!(on(&caps), vec![Feature::Truecolor, Feature::Utf8, Feature::Html, Feature::Gmcp, Feature::Msdp, Feature::Oob]);
    assert_eq!((caps.width, caps.height), (78, 24));
}

#[test]
fn ssh_client_starts_with_true_colour() {
    let caps = ProtocolCapabilities::ssh();
    assert_eq!(caps.protocol, Protocol::SSH);
    assert_eq!(on(&caps), vec![Feature::Truecolor]);
}

#[test]
fn each_feature_has_a_flag_of_its_own() {
    for (i, f) in ALL.iter().enumerate() {
        assert_eq!(f.slot(), i);
        let mut caps = ProtocolCapabilities::default();
        caps.set_feature(*f, true);
        assert_eq!(on(&caps), vec![*f]);
        caps.set_feature(*f, false);
        assert!(on(&caps).is_empty());
    }
}

#[test]
fn bits_add_to_the_features_that_are_on() {
    let mut caps = ProtocolCapabilities::default();
    caps.set_feature(Feature::Naws, true);
    caps.set_feature(Feature::Vt100, true);
    caps.apply_bits(1 | 4 | 8);
    assert_eq!(on(&caps), vec![Feature::Ansi, Feature::Xterm256, Feature::Utf8, Feature::Naws, Feature::Vt100]);
    caps.apply_bits(0);
    assert_eq!(on(&caps).len(), 5);
}

#[test]
fn window_and_names_can_be_set() {
    let mut caps = ProtocolCapabilities::default();
    caps.set_window(132, 50);
    caps.set_client_name("MUDLET".to_string());
    caps.set_client_version("4.17".to_string());
    caps.enable_colors();
    assert_eq!((caps.width, caps.height), (132, 50));
    assert_eq!(caps.client_name, "MUDLET");
    assert_eq!(caps.client_version, "4.17");
    assert_eq!(on(&caps), vec![Feature::Ansi, Feature::Xterm256]);
}
