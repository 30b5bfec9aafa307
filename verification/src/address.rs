//! Multiaddresses, modelled by their byte encoding.
use vstd::prelude::*;
use crate::held::{address_from_str, address_with_circuit, address_with_peer};
use crate::peer::Peer;

pub use crate::held::Address;

verus! {

/// The byte encoding of the multiaddress the multiaddr crate parses from
/// `text` (`Multiaddr::from_str`, then `to_vec`), or `None` when it refuses
/// the text.
pub uninterp spec fn multiaddr_encoding(text: Seq<char>) -> Option<Seq<u8>>;

/// The unsigned LEB128 encoding of `n`, as the unsigned-varint crate writes it.
pub open spec fn varint(n: nat) -> Seq<u8>
    decreases n,
{
    if n < 128 {
        seq![n as u8]
    } else {
        seq![(n % 128 + 128) as u8] + varint(n / 128)
    }
}

/// The multiaddr protocol code of `/p2p-circuit`.
pub open spec fn circuit_code() -> nat {
    290
}

/// The multiaddr protocol code of `/p2p`.
pub open spec fn p2p_code() -> nat {
    421
}

/// The encoding of a `/p2p-circuit` component.
pub open spec fn circuit_component() -> Seq<u8> {
    varint(circuit_code())
}

/// The encoding of a `/p2p/<peer>` component, for a peer id encoded as `peer`.
pub open spec fn p2p_component(peer: Seq<u8>) -> Seq<u8> {
    varint(p2p_code()) + varint(peer.len()) + peer
}

impl Address {
    /// Parses a multiaddress given as text.
    pub fn parse(text: &str) -> (res: Option<Address>)
        ensures
            match res {
                Some(a) => multiaddr_encoding(text@) == Some(a@),
                None => multiaddr_encoding(text@) is None,
            },
    {
        match address_from_str(text) {
            Ok(a) => Some(a),
            Err(_) => None,
        }
    }

    /// This address followed by `/p2p-circuit`.
    pub fn with_circuit(self) -> (res: Address)
        ensures
            res@ == self@ + circuit_component(),
    {
        address_with_circuit(self)
    }

    /// This address followed by `/p2p/<peer>`.
    pub fn with_peer(self, peer: &Peer) -> (res: Address)
        ensures
            res@ == self@ + p2p_component(peer@),
    {
        address_with_peer(self, peer)
    }
}

/// The `/p2p-circuit` component is the two bytes `0xa2 0x02`.
pub proof fn lemma_circuit_component_bytes()
    ensures
        circuit_component() == seq![0xa2u8, 0x02u8],
{
    reveal_with_fuel(varint, 2);
    assert(varint(2) == seq![2u8]);
    assert(circuit_component() =~= seq![0xa2u8, 0x02u8]);
}

} // verus!
