use kadugu_net::{accepted_peers_from, is_peer_accepted, parse_peer_id, text_contains, PeerIdError, ServerIdentity};
use libp2p::identity::Keypair;

const RELAY_PEER: &str = "QmaCpDMGvV2BGHeYERUEnRQAwe3N8SzbUtfsmvsqQLuvuJ";

#[test]
fn contains_basic_cases() {
    assert!(text_contains("abcdef", "cde"));
    assert!(text_contains("abcdef", "abcdef"));
    assert!(text_contains("abcdef", ""));
    assert!(text_contains("", ""));
    assert!(!text_contains("abcdef", "ce"));
    assert!(!text_contains("abc", "abcd"));
    assert!(!text_contains("", "a"));
    assert!(text_contains("aab", "ab"));
    assert!(text_contains("héllo wörld", "ö"));
    assert!(!text_contains("héllo", "e"));
}

#[test]
fn empty_accept_list_admits_everyone() {
    let accepted: Vec<String> = Vec::new();
    assert!(is_peer_accepted(&accepted, RELAY_PEER));
    assert!(is_peer_accepted(&accepted, "anything"));
}

#[test]
fn listed_peer_is_admitted() {
    let accepted = vec!["12D3KooWother".to_string(), RELAY_PEER.to_string()];
    assert!(is_peer_accepted(&accepted, RELAY_PEER));
}

#[test]
fn entry_containing_peer_admits_it() {
    let accepted = vec![format!("/p2p/{}", RELAY_PEER)];
    assert!(is_peer_accepted(&accepted, RELAY_PEER));
}

#[test]
fn unlisted_peer_is_rejected() {
    let accepted = vec!["12D3KooWother".to_string(), "QmSomeoneElse".to_string()];
    assert!(!is_peer_accepted(&accepted, RELAY_PEER));
}

#[test]
fn accepted_list_from_argument() {
    assert!(accepted_peers_from(None).is_empty());
    assert!(accepted_peers_from(Some(String::new())).is_empty());
    assert_eq!(accepted_peers_from(Some(RELAY_PEER.to_string())), vec![RELAY_PEER.to_string()]);
}

#[test]
fn argument_filter_law_on_values() {
    let open = accepted_peers_from(Some(String::new()));
    assert!(is_peer_accepted(&open, "whoever"));
    let one = accepted_peers_from(Some(RELAY_PEER.to_string()));
    assert!(is_peer_accepted(&one, RELAY_PEER));
    assert!(!is_peer_accepted(&one, "12D3KooWnotlisted"));
}

#[test]
fn valid_peer_id_parses_to_itself() {
    let p = parse_peer_id(RELAY_PEER).expect("valid");
    assert_eq!(p.text(), RELAY_PEER);
    assert_eq!(p.peer_id().to_base58(), RELAY_PEER);
    let q = p.clone();
    assert_eq!(q.text(), RELAY_PEER);
}

#[test]
fn invalid_peer_ids_are_refused() {
    assert_eq!(parse_peer_id("not a peer id").err(), Some(PeerIdError::Invalid));
    assert_eq!(parse_peer_id("").err(), Some(PeerIdError::Invalid));
    assert_eq!(parse_peer_id("QmaCpDMGvV2BGHeYERUEnRQAwe3N8Szb").err(), Some(PeerIdError::Invalid));
}

#[test]
fn server_peer_id_is_the_keys_id() {
    let key_pair = Keypair::generate_ed25519();
    let expected = key_pair.public().to_peer_id().to_string();
    let identity = ServerIdentity::new(key_pair);
    let id = identity.peer_id();
    assert_eq!(id, expected);
    assert_eq!(identity.peer_id(), id);
    assert_eq!(identity.peer().text(), &id);
    assert_eq!(parse_peer_id(&id).expect("reads back").text(), &id);
}

#[test]
fn server_peer_id_is_identity_multihash_of_key() {
    let key_pair = Keypair::generate_ed25519();
    let encoding = key_pair.public().encode_protobuf();
    let identity = ServerIdentity::new(key_pair);
    let bytes = identity.peer().peer_id().to_bytes();
    assert!(encoding.len() <= 42);
    let mut expected = vec![0u8, encoding.len() as u8];
    expected.extend_from_slice(&encoding);
    assert_eq!(bytes, expected);
}
