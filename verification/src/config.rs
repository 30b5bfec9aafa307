//! Configuration shared by the forwarding client and server, and the relay
//! addresses derived from it.
use vstd::prelude::*;
use vstd::string::StringExecFns;
use crate::address::{circuit_component, multiaddr_encoding, p2p_component, Address};
use crate::peer::Peer;
use crate::protocol::{is_protocol_name, ProxyProtocol};

verus! {

/// The stream protocol the forwarding streams are negotiated with by default.
pub open spec fn default_proxy_protocol() -> Seq<char> {
    "/portforward/0.1.0"@
}

/// The agent version announced through identify by default.
pub open spec fn default_proxy_agent() -> Seq<char> {
    "libp2p-port-forward"@
}

/// The relay node both ends reserve and dial through by default.
pub open spec fn default_relay_address() -> Seq<char> {
    "/ip4/104.131.131.82/udp/4001/quic-v1/p2p/QmaCpDMGvV2BGHeYERUEnRQAwe3N8SzbUtfsmvsqQLuvuJ"@
}

/// The local address a forwarding listener binds by default.
pub open spec fn default_proxy_listen_addr() -> Seq<char> {
    "127.0.0.1:0"@
}

/// The default log level.
pub open spec fn default_log_level() -> Seq<char> {
    "info"@
}

/// Why a configuration value cannot be used.
#[derive(Debug, Clone, Copy, PartialEq, Eq, Structural)]
pub enum ConfigError {
    /// The proxy protocol does not start with `/`.
    InvalidProtocol,
    /// The relay address is not a multiaddress.
    InvalidRelayAddress,
    /// A listen or dial address is not a multiaddress.
    InvalidAddress,
}

/// Parses a multiaddress given as text.
pub fn parse_multiaddr(text: &str) -> (res: Result<Address, ConfigError>)
    ensures
        match res {
            Ok(a) => multiaddr_encoding(text@) == Some(a@),
            Err(e) => multiaddr_encoding(text@) is None && e == ConfigError::InvalidAddress,
        },
{
    match Address::parse(text) {
        Some(a) => Ok(a),
        None => Err(ConfigError::InvalidAddress),
    }
}

/// Settings of a forwarding endpoint.
#[derive(Debug, Clone)]
pub struct Config {
    pub proxy_protocol: ProxyProtocol,
    pub proxy_agent: String,
    pub relay_address: String,
    pub proxy_listen_addr: String,
    pub log_level: String,
}

impl Config {
    /// The default configuration with the relay address replaced.
    pub open spec fn default_with_relay(relay: Seq<char>) -> (Seq<char>, Seq<char>, Seq<char>, Seq<char>, Seq<char>) {
        (default_proxy_protocol(), default_proxy_agent(), relay, default_proxy_listen_addr(), default_log_level())
    }

    /// The configuration as a tuple of its field texts.
    pub open spec fn fields(&self) -> (Seq<char>, Seq<char>, Seq<char>, Seq<char>, Seq<char>) {
        (self.proxy_protocol@, self.proxy_agent@, self.relay_address@, self.proxy_listen_addr@, self.log_level@)
    }
}

impl Default for Config {
    fn default() -> (res: Self)
        ensures
            res.fields() == Config::default_with_relay(default_relay_address()),
    {
        proof {
            reveal_strlit("/portforward/0.1.0");
        }
        let protocol = ProxyProtocol::new(String::from_str("/portforward/0.1.0"));
        Config {
            proxy_protocol: protocol.unwrap(),
            proxy_agent: String::from_str("libp2p-port-forward"),
            relay_address: String::from_str(
                "/ip4/104.131.131.82/udp/4001/quic-v1/p2p/QmaCpDMGvV2BGHeYERUEnRQAwe3N8SzbUtfsmvsqQLuvuJ",
            ),
            proxy_listen_addr: String::from_str("127.0.0.1:0"),
            log_level: String::from_str("info"),
        }
    }
}

impl Config {
    /// The default configuration, with the relay address taken from the
    /// `RELAY_ADDRESS` environment variable when the caller found it set.
    pub fn from_env(relay_address: Option<String>) -> (res: Self)
        ensures
            res.fields() == Config::default_with_relay(
                match relay_address {
                    Some(r) => r@,
                    None => default_relay_address(),
                },
            ),
    {
        let mut config = Config::default();
        if let Some(relay) = relay_address {
            config.relay_address = relay;
        }
        config
    }

    /// The protocol the server accepts forwarding streams on: the configured
    /// one, the same the client opens streams with.
    pub fn server_accept_protocol(&self) -> (res: &ProxyProtocol)
        ensures
            *res == self.proxy_protocol,
    {
        &self.proxy_protocol
    }

    /// The protocol the client opens forwarding streams with: the configured
    /// one, the same the server accepts streams on.
    pub fn client_open_protocol(&self) -> (res: &ProxyProtocol)
        ensures
            *res == self.proxy_protocol,
    {
        &self.proxy_protocol
    }

    /// The relay address parsed as a multiaddress.
    pub fn relay_multiaddr(&self) -> (res: Result<Address, ConfigError>)
        ensures
            match res {
                Ok(a) => multiaddr_encoding(self.relay_address@) == Some(a@),
                Err(e) => multiaddr_encoding(self.relay_address@) is None && e == ConfigError::InvalidRelayAddress,
            },
    {
        match Address::parse(self.relay_address.as_str()) {
            Some(a) => Ok(a),
            None => Err(ConfigError::InvalidRelayAddress),
        }
    }

    /// The address a server listens on to be reachable through the relay:
    /// the relay address followed by `/p2p-circuit`.
    pub fn relay_circuit_multiaddr(&self) -> (res: Result<Address, ConfigError>)
        ensures
            match (res, multiaddr_encoding(self.relay_address@)) {
                (Ok(a), Some(relay)) => a@ == relay + circuit_component(),
                (Err(e), None) => e == ConfigError::InvalidRelayAddress,
                _ => false,
            },
    {
        match self.relay_multiaddr() {
            Ok(a) => Ok(a.with_circuit()),
            Err(e) => Err(e),
        }
    }

    /// The address a client dials to reach `server` through the relay: the
    /// relay address followed by `/p2p-circuit/p2p/<server>`.
    pub fn server_circuit_multiaddr(&self, server: &Peer) -> (res: Result<Address, ConfigError>)
        ensures
            match (res, multiaddr_encoding(self.relay_address@)) {
                (Ok(a), Some(relay)) => a@ == relay + circuit_component() + p2p_component(server@),
                (Err(e), None) => e == ConfigError::InvalidRelayAddress,
                _ => false,
            },
    {
        match self.relay_circuit_multiaddr() {
            Ok(a) => Ok(a.with_peer(server)),
            Err(e) => Err(e),
        }
    }
}

/// The default proxy protocol is a valid stream protocol name.
pub proof fn lemma_default_protocol_is_valid()
    ensures
        is_protocol_name(default_proxy_protocol()),
{
    reveal_strlit("/portforward/0.1.0");
}

} // verus!
