//! Port forwarding over libp2p: the decisions that a forwarding client and
//! server make, stated and proved.
//!
//! The networking itself (swarm construction, dialling, byte copying) is
//! driven by the caller; this crate decides what is done with each event,
//! which peers are let through, how configuration is formed and validated,
//! and when an endpoint may be started.
use vstd::prelude::*;

pub mod address;
pub mod client;
pub mod config;
mod held;
pub mod peer;
pub mod protocol;
pub mod server;

pub use client::{
    connect_wait_step, ClientAction, ClientError, ClientEvent, ClientLoop, ConnectWait, WorkerSlot,
    CONNECT_POLL_MS, CONNECT_TIMEOUT_MS,
};
pub use address::Address;
pub use config::{parse_multiaddr, Config, ConfigError};
pub use peer::{accepted_peers_from, is_peer_accepted, parse_peer_id, text_contains, Peer, PeerIdError, ServerIdentity};
pub use protocol::ProxyProtocol;
pub use server::{incoming_stream_action, IncomingAction, IncomingStream, ServerAction, ServerEvent, ServerLoop};

verus! {

} // verus!
