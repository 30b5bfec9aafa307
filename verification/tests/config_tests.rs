use kadugu_net::{parse_multiaddr, parse_peer_id, Config, ConfigError, ProxyProtocol};
use libp2p::multiaddr::Protocol;
use libp2p::Multiaddr;

const DEFAULT_RELAY: &str =
    "/ip4/104.131.131.82/udp/4001/quic-v1/p2p/QmaCpDMGvV2BGHeYERUEnRQAwe3N8SzbUtfsmvsqQLuvuJ";
const SERVER: &str = "QmSoLnSGccFuZQJzRadHn95W2CrSFmZuTdDWP8HXaHca9z";

#[test]
fn default_config_fields() {
    let c = Config::default();
    assert_eq!(c.proxy_protocol.name(), "/portforward/0.1.0");
    assert_eq!(c.proxy_agent, "libp2p-port-forward");
    assert_eq!(c.relay_address, DEFAULT_RELAY);
    assert_eq!(c.proxy_listen_addr, "127.0.0.1:0");
    assert_eq!(c.log_level, "info");
}

#[test]
fn from_env_without_override_is_default() {
    let c = Config::from_env(None);
    let d = Config::default();
    assert_eq!(c.proxy_protocol.name(), d.proxy_protocol.name());
    assert_eq!(c.proxy_agent, d.proxy_agent);
    assert_eq!(c.relay_address, d.relay_address);
    assert_eq!(c.proxy_listen_addr, d.proxy_listen_addr);
    assert_eq!(c.log_level, d.log_level);
}

#[test]
fn from_env_overrides_relay_only() {
    let c = Config::from_env(Some("/ip4/10.0.0.1/tcp/4001".to_string()));
    assert_eq!(c.relay_address, "/ip4/10.0.0.1/tcp/4001");
    assert_eq!(c.proxy_protocol.name(), "/portforward/0.1.0");
    assert_eq!(c.proxy_agent, "libp2p-port-forward");
    assert_eq!(c.proxy_listen_addr, "127.0.0.1:0");
    assert_eq!(c.log_level, "info");
}

#[test]
fn default_protocol_is_a_stream_protocol() {
    let c = Config::default();
    assert_eq!(c.proxy_protocol.stream_protocol().as_ref(), "/portforward/0.1.0");
}

#[test]
fn protocol_keeps_its_name() {
    let p = ProxyProtocol::new("/proxy".to_string()).expect("valid");
    assert_eq!(p.name(), "/proxy");
    assert_eq!(p.stream_protocol().as_ref(), "/proxy");
    let q = p.clone();
    assert_eq!(q.name(), "/proxy");
    assert_eq!(q.stream_protocol().as_ref(), "/proxy");
}

#[test]
fn protocol_without_slash_is_refused() {
    assert_eq!(ProxyProtocol::new("portforward/0.1.0".to_string()).err(), Some(ConfigError::InvalidProtocol));
    assert_eq!(ProxyProtocol::new(String::new()).err(), Some(ConfigError::InvalidProtocol));
    assert!(ProxyProtocol::new("/".to_string()).is_ok());
}

#[test]
fn both_ends_share_the_protocol() {
    let c = Config::default();
    assert_eq!(c.server_accept_protocol().name(), c.client_open_protocol().name());
    assert_eq!(c.server_accept_protocol().stream_protocol(), c.client_open_protocol().stream_protocol());
    assert_eq!(c.client_open_protocol().name(), "/portforward/0.1.0");
}

#[test]
fn default_relay_address_parses() {
    let c = Config::default();
    let a = c.relay_multiaddr().expect("default relay address is a multiaddr");
    assert_eq!(a.multiaddr().to_string(), DEFAULT_RELAY);
    let expected: Multiaddr = DEFAULT_RELAY.parse().unwrap();
    assert_eq!(a.to_bytes(), expected.to_vec());
}

#[test]
fn bad_relay_address_is_refused() {
    let c = Config::from_env(Some("104.131.131.82:4001".to_string()));
    assert_eq!(c.relay_multiaddr().err().map(|_| ()), Some(()));
    assert!(matches!(c.relay_multiaddr(), Err(ConfigError::InvalidRelayAddress)));
    let c = Config::from_env(Some("/ip4/not-an-ip/tcp/1".to_string()));
    assert!(matches!(c.relay_multiaddr(), Err(ConfigError::InvalidRelayAddress)));
}

#[test]
fn circuit_address_appends_circuit_code() {
    let c = Config::default();
    let relay = c.relay_multiaddr().unwrap().to_bytes();
    let circuit = c.relay_circuit_multiaddr().expect("valid relay");
    let mut expected = relay.clone();
    expected.extend_from_slice(&[0xa2, 0x02]);
    assert_eq!(circuit.to_bytes(), expected);
    assert_eq!(circuit.multiaddr().to_string(), format!("{}/p2p-circuit", DEFAULT_RELAY));
}

#[test]
fn server_dial_address_appends_peer() {
    let c = Config::default();
    let server = parse_peer_id(SERVER).unwrap();
    let relay = c.relay_multiaddr().unwrap().to_bytes();
    let dial = c.server_circuit_multiaddr(&server).expect("valid relay");
    let id_bytes = server.peer_id().to_bytes();
    let mut expected = relay.clone();
    expected.extend_from_slice(&[0xa2, 0x02, 0xa5, 0x03, id_bytes.len() as u8]);
    expected.extend_from_slice(&id_bytes);
    assert_eq!(dial.to_bytes(), expected);
    assert_eq!(dial.multiaddr().to_string(), format!("{}/p2p-circuit/p2p/{}", DEFAULT_RELAY, SERVER));
    let by_libp2p: Multiaddr = DEFAULT_RELAY.parse::<Multiaddr>().unwrap()
        .with(Protocol::P2pCircuit)
        .with(Protocol::P2p(*server.peer_id()));
    assert_eq!(dial.multiaddr(), &by_libp2p);
}

#[test]
fn circuit_addresses_need_a_valid_relay() {
    let c = Config::from_env(Some("relay.example.com:4001".to_string()));
    assert!(matches!(c.relay_circuit_multiaddr(), Err(ConfigError::InvalidRelayAddress)));
    let server = parse_peer_id(SERVER).unwrap();
    assert!(matches!(c.server_circuit_multiaddr(&server), Err(ConfigError::InvalidRelayAddress)));
}

#[test]
fn listen_addresses_parse() {
    let a = parse_multiaddr("/ip4/0.0.0.0/udp/12007/quic-v1").expect("valid");
    assert_eq!(a.multiaddr().to_string(), "/ip4/0.0.0.0/udp/12007/quic-v1");
    assert!(parse_multiaddr("/ip6/::/udp/12008/quic-v1").is_ok());
    assert!(matches!(parse_multiaddr("0.0.0.0:12007"), Err(ConfigError::InvalidAddress)));
}
