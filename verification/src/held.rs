//! Values of libp2p types, each kept beside the plain value that models it.
//!
//! The types here are made only by the trusted calls of this module, each of
//! which stores a libp2p value together with the model it computed from that
//! very value; no other module can reach their fields.
use vstd::prelude::*;
use libp2p::identity::Keypair;
use libp2p::multiaddr::Error as MultiaddrError;
use libp2p::multiaddr::Protocol;
use libp2p::swarm::InvalidProtocol;
use libp2p::{Multiaddr, PeerId, StreamProtocol};
use crate::address::{circuit_component, multiaddr_encoding, p2p_component};
use crate::protocol::is_protocol_name;

verus! {

/// The byte encoding (`PeerId::to_bytes`) of the peer id that libp2p's
/// `PeerId::from_str` reads from `text`, or `None` when it refuses the text.
pub uninterp spec fn peer_id_encoding(text: Seq<char>) -> Option<Seq<u8>>;

/// The base-58 text of a byte string, as `PeerId::to_base58` renders a
/// peer id from its `to_bytes()` (through `bs58::encode`).
pub uninterp spec fn base58_text(bytes: Seq<u8>) -> Seq<char>;

/// The SHA-256 digest of `data`, as the sha2 crate computes it.
pub uninterp spec fn sha256_digest(data: Seq<u8>) -> Seq<u8>;

#[verifier::external_type_specification]
#[verifier::external_body]
pub struct ExMultiaddr(Multiaddr);

#[verifier::external_type_specification]
#[verifier::external_body]
pub struct ExMultiaddrError(MultiaddrError);

/// A multiaddress kept beside its byte encoding. Every `Address` is made by
/// a function of this module, each of which stores the multiaddress it
/// obtained together with that multiaddress's own `to_vec()`.
#[derive(Debug)]
pub struct Address {
    addr: Multiaddr,
    bytes: Vec<u8>,
}

impl View for Address {
    type V = Seq<u8>;

    /// The address's byte encoding.
    closed spec fn view(&self) -> Seq<u8> {
        self.bytes@
    }
}

/// Calls the multiaddr crate's `Multiaddr::from_str` and keeps the parsed
/// address beside its `to_vec()`. The encoding is named by `multiaddr_encoding`.
#[verifier::external_body]
pub(crate) fn address_from_str(text: &str) -> (res: Result<Address, MultiaddrError>)
    ensures
        match res {
            Ok(a) => multiaddr_encoding(text@) == Some(a@),
            Err(_) => multiaddr_encoding(text@) is None,
        },
{
    match <Multiaddr as std::str::FromStr>::from_str(text) {
        Ok(addr) => Ok(Address { bytes: addr.to_vec(), addr }),
        Err(e) => Err(e),
    }
}

/// Calls the multiaddr crate's `Multiaddr::with(Protocol::P2pCircuit)`,
/// which appends the varint of the `/p2p-circuit` code (290) to the bytes.
#[verifier::external_body]
pub(crate) fn address_with_circuit(a: Address) -> (res: Address)
    ensures
        res@ == a@ + circuit_component(),
{
    let addr = a.addr.with(Protocol::P2pCircuit);
    Address { bytes: addr.to_vec(), addr }
}

/// Calls the multiaddr crate's `Multiaddr::with(Protocol::P2p(id))`, which
/// appends the varint of the `/p2p` code (421), the varint of the length of
/// the peer id's `to_bytes()`, and those bytes.
#[verifier::external_body]
pub(crate) fn address_with_peer(a: Address, peer: &Peer) -> (res: Address)
    ensures
        res@ == a@ + p2p_component(peer@),
{
    let addr = a.addr.with(Protocol::P2p(*peer.peer_id()));
    Address { bytes: addr.to_vec(), addr }
}

impl Address {
    /// The byte encoding.
    pub fn to_bytes(&self) -> (res: Vec<u8>)
        ensures
            res@ == self@,
    {
        self.bytes.clone()
    }

    /// The libp2p multiaddress this value holds.
    pub closed spec fn held_multiaddr(&self) -> Multiaddr {
        self.addr
    }

    /// The libp2p multiaddress, to listen on or dial.
    pub fn multiaddr(&self) -> (res: &Multiaddr)
        ensures
            *res == self.held_multiaddr(),
    {
        &self.addr
    }
}

#[verifier::external_type_specification]
#[verifier::external_body]
pub struct ExStreamProtocol(StreamProtocol);

#[verifier::external_type_specification]
#[verifier::external_body]
pub struct ExInvalidProtocol(InvalidProtocol);

/// libp2p's `StreamProtocol::clone` (derived): the copy is the same
/// protocol (a copied `&'static str` or a shared `Arc<str>`).
pub assume_specification[ <StreamProtocol as Clone>::clone ](p: &StreamProtocol) -> (res: StreamProtocol)
    ensures
        res == *p,
;

/// A validated stream protocol, kept beside the name it was built from.
/// Only `proxy_protocol_try_from_owned` makes one (`clone` copies one), so
/// an invalid name cannot be held.
#[derive(Debug)]
pub struct ProxyProtocol {
    protocol: StreamProtocol,
    name: String,
}

impl View for ProxyProtocol {
    type V = Seq<char>;

    /// The protocol's name.
    closed spec fn view(&self) -> Seq<char> {
        self.name@
    }
}

/// Calls libp2p's `StreamProtocol::try_from_owned` on `name`. Its source
/// accepts the name exactly when it starts with `/`, and then stores that
/// very text in the protocol; the protocol is kept beside that name.
#[verifier::external_body]
pub(crate) fn proxy_protocol_try_from_owned(name: String) -> (res: Result<ProxyProtocol, InvalidProtocol>)
    ensures
        res is Ok <==> is_protocol_name(name@),
        res matches Ok(p) ==> p@ == name@,
{
    let kept = name.clone();
    match StreamProtocol::try_from_owned(name) {
        Ok(protocol) => Ok(ProxyProtocol { protocol, name: kept }),
        Err(e) => Err(e),
    }
}

impl Clone for ProxyProtocol {
    fn clone(&self) -> (res: Self)
        ensures
            res@ == self@,
            res.held_stream_protocol() == self.held_stream_protocol(),
    {
        proof {
            use_type_invariant(self);
        }
        ProxyProtocol { protocol: self.protocol.clone(), name: self.name.clone() }
    }
}

impl ProxyProtocol {
    #[verifier::type_invariant]
    spec fn name_is_valid(self) -> bool {
        is_protocol_name(self.name@)
    }

    /// The protocol's name, which always starts with `/`.
    pub fn name(&self) -> (res: &String)
        ensures
            res@ == self@,
            is_protocol_name(self@),
    {
        proof {
            use_type_invariant(self);
        }
        &self.name
    }

    /// The libp2p stream protocol this value holds.
    pub closed spec fn held_stream_protocol(&self) -> StreamProtocol {
        self.protocol
    }

    /// The libp2p stream protocol carrying this name.
    pub fn stream_protocol(&self) -> (res: &StreamProtocol)
        ensures
            *res == self.held_stream_protocol(),
    {
        &self.protocol
    }
}

#[verifier::external_type_specification]
#[verifier::external_body]
pub struct ExPeerId(PeerId);

#[verifier::external_type_specification]
#[verifier::external_body]
pub struct ExKeypair(Keypair);

/// Calls libp2p's `PeerId::from_str` and, on success, keeps the parsed id
/// with its `to_bytes()` and its `to_base58()` in a `Peer`. The encoding is named by
/// `peer_id_encoding`; the text is the base-58 rendering of the encoding,
/// and it reads back as the same id (libp2p-identity's tests check
/// `to_base58` then `parse` gives the id back).
#[verifier::external_body]
pub(crate) fn peer_id_from_str(text: &str) -> (res: Option<Peer>)
    ensures
        match res {
            Some(p) => {
                &&& peer_id_encoding(text@) == Some(p@)
                &&& p.held_text() == base58_text(p@)
                &&& peer_id_encoding(p.held_text()) == Some(p@)
            },
            None => peer_id_encoding(text@) is None,
        },
{
    match <PeerId as std::str::FromStr>::from_str(text) {
        Ok(id) => Some(Peer { id, bytes: id.to_bytes(), text: id.to_base58() }),
        Err(_) => None,
    }
}

/// Calls libp2p's `Keypair::public` and `PublicKey::encode_protobuf` for the
/// key's encoding, and `PublicKey::to_peer_id` with `to_bytes` and
/// `to_base58` for its peer id. `to_peer_id` derives the id from that same
/// protobuf encoding (`PeerId::from_public_key`), as `key_peer_id_encoding`
/// states; which key a key pair holds is not stated.
#[verifier::external_body]
pub(crate) fn key_pair_identity(key_pair: &Keypair) -> (res: (Vec<u8>, Peer))
    ensures
        res.1@ == if res.0@.len() <= 42 {
            seq![0u8, res.0@.len() as u8] + res.0@
        } else {
            seq![0x12u8, 0x20u8] + sha256_digest(res.0@)
        },
        res.1.held_text() == base58_text(res.1@),
        peer_id_encoding(res.1.held_text()) == Some(res.1@),
{
    let public = key_pair.public();
    let id = public.to_peer_id();
    (public.encode_protobuf(), Peer { id, bytes: id.to_bytes(), text: id.to_base58() })
}

/// A libp2p peer id, kept beside its byte encoding (`to_bytes`) and its
/// text form (`to_base58`). Only `peer_id_from_str` and `key_pair_identity`
/// make one (`clone` copies one), each from a single id.
pub struct Peer {
    id: PeerId,
    bytes: Vec<u8>,
    text: String,
}

impl View for Peer {
    type V = Seq<u8>;

    /// The peer id's byte encoding.
    closed spec fn view(&self) -> Seq<u8> {
        self.bytes@
    }
}

impl Clone for Peer {
    fn clone(&self) -> (res: Self)
        ensures
            res@ == self@,
            res.held_peer_id() == self.held_peer_id(),
    {
        proof {
            use_type_invariant(self);
        }
        Peer { id: self.id, bytes: self.bytes.clone(), text: self.text.clone() }
    }
}

impl Peer {
    #[verifier::type_invariant]
    spec fn text_matches(self) -> bool {
        &&& self.text@ == base58_text(self.bytes@)
        &&& peer_id_encoding(self.text@) == Some(self.bytes@)
    }

    /// The peer id in text form (base 58), which reads back as this id.
    pub fn text(&self) -> (res: &String)
        ensures
            res@ == base58_text(self@),
            peer_id_encoding(res@) == Some(self@),
    {
        proof {
            use_type_invariant(self);
        }
        &self.text
    }

    /// The text form this value holds.
    pub closed spec fn held_text(&self) -> Seq<char> {
        self.text@
    }

    /// The libp2p peer id this value holds.
    pub closed spec fn held_peer_id(&self) -> PeerId {
        self.id
    }

    /// The libp2p peer id.
    pub fn peer_id(&self) -> (res: &PeerId)
        ensures
            *res == self.held_peer_id(),
    {
        &self.id
    }
}

} // verus!
