//! Peer identities as text, and the server's rule for which peers may open
//! forwarding streams.
use vstd::prelude::*;
use libp2p::identity::Keypair;
use crate::held::{key_pair_identity, peer_id_from_str};

pub use crate::held::{base58_text, peer_id_encoding, sha256_digest, Peer};

verus! {

/// `needle` occurs in `hay` starting at character position `i`.
pub open spec fn occurs_at(hay: Seq<char>, needle: Seq<char>, i: int) -> bool {
    &&& 0 <= i
    &&& i + needle.len() <= hay.len()
    &&& hay.subrange(i, i + needle.len()) == needle
}

/// `needle` is a substring of `hay` (the empty text is a substring of every text).
pub open spec fn contains_text(hay: Seq<char>, needle: Seq<char>) -> bool {
    exists|i: int| occurs_at(hay, needle, i)
}

/// The texts of a list of strings.
pub open spec fn texts(list: Seq<String>) -> Seq<Seq<char>> {
    list.map_values(|s: String| s@)
}

/// The server's admission rule: with no accepted peer ids configured every
/// peer is admitted; otherwise a peer is admitted when its id occurs in one
/// of the configured entries.
pub open spec fn peer_is_accepted(accepted: Seq<Seq<char>>, peer: Seq<char>) -> bool {
    accepted.len() == 0 || exists|k: int| 0 <= k < accepted.len() && #[trigger] contains_text(accepted[k], peer)
}

/// The accepted-peer list formed from an optional peer argument: one entry
/// when the argument is present and not empty, none otherwise.
pub open spec fn accepted_list_from(arg: Option<Seq<char>>) -> Seq<Seq<char>> {
    match arg {
        Some(p) => if p.len() > 0 { seq![p] } else { Seq::empty() },
        None => Seq::empty(),
    }
}

/// The encoding of the peer id of a public key whose protobuf encoding is
/// `public_key`: an identity multihash of the encoding when it is at most
/// 42 bytes long, otherwise a SHA-256 multihash of it.
pub open spec fn key_peer_id_encoding(public_key: Seq<u8>) -> Seq<u8> {
    if public_key.len() <= 42 {
        seq![0u8, public_key.len() as u8] + public_key
    } else {
        seq![0x12u8, 0x20u8] + sha256_digest(public_key)
    }
}

/// Why a peer id argument was refused.
#[derive(Debug, Clone, Copy, PartialEq, Eq, Structural)]
pub enum PeerIdError {
    /// The text is not a libp2p peer id.
    Invalid,
}

/// Reads a peer id given as text.
pub fn parse_peer_id(text: &str) -> (res: Result<Peer, PeerIdError>)
    ensures
        match res {
            Ok(p) => peer_id_encoding(text@) == Some(p@),
            Err(e) => peer_id_encoding(text@) is None && e == PeerIdError::Invalid,
        },
{
    match peer_id_from_str(text) {
        Some(p) => Ok(p),
        None => Err(PeerIdError::Invalid),
    }
}

/// A server's key pair, with the protobuf encoding of its public key fixed
/// when the identity is made, and the peer id derived from it.
pub struct ServerIdentity {
    key_pair: Keypair,
    public_key: Vec<u8>,
    peer: Peer,
}

impl View for ServerIdentity {
    type V = Seq<u8>;

    /// The protobuf encoding of the public key.
    closed spec fn view(&self) -> Seq<u8> {
        self.public_key@
    }
}

impl ServerIdentity {
    #[verifier::type_invariant]
    spec fn peer_is_derived(self) -> bool {
        self.peer@ == key_peer_id_encoding(self.public_key@)
    }

    /// The key pair this identity holds.
    pub closed spec fn held_key_pair(&self) -> Keypair {
        self.key_pair
    }

    /// Takes a key pair as the server's identity.
    pub fn new(key_pair: Keypair) -> (res: ServerIdentity)
        ensures
            res.held_key_pair() == key_pair,
    {
        let (public_key, peer) = key_pair_identity(&key_pair);
        ServerIdentity { key_pair, public_key, peer }
    }

    /// The server's peer id in text form: the base-58 text of the id
    /// derived from the public key. The same on every call.
    pub fn peer_id(&self) -> (res: String)
        ensures
            res@ == base58_text(key_peer_id_encoding(self@)),
            peer_id_encoding(res@) == Some(key_peer_id_encoding(self@)),
    {
        proof {
            use_type_invariant(self);
        }
        self.peer.text().clone()
    }

    /// The server's peer id.
    pub fn peer(&self) -> (res: &Peer)
        ensures
            res@ == key_peer_id_encoding(self@),
    {
        proof {
            use_type_invariant(self);
        }
        &self.peer
    }

    /// The server's key pair, to build its swarm with.
    pub fn key_pair(&self) -> (res: &Keypair)
        ensures
            *res == self.held_key_pair(),
    {
        &self.key_pair
    }
}

/// The characters of `s`, in order.
fn chars_of(s: &str) -> (res: Vec<char>)
    ensures
        res@ == s@,
{
    let n = s.unicode_len();
    let mut res: Vec<char> = Vec::new();
    let mut i: usize = 0;
    while i < n
        invariant
            n == s@.len(),
            i <= n,
            res@ == s@.subrange(0, i as int),
        decreases n - i,
    {
        res.push(s.get_char(i));
        i = i + 1;
    }
    res
}

/// Whether `needle` occurs in `hay` at position `i`.
fn occurs_at_exec(hay: &Vec<char>, needle: &Vec<char>, i: usize) -> (res: bool)
    requires
        i + needle@.len() <= hay@.len(),
    ensures
        res == occurs_at(hay@, needle@, i as int),
{
    let n = needle.len();
    let hl = hay.len();
    let mut j: usize = 0;
    while j < n
        invariant
            n == needle@.len(),
            hl == hay@.len(),
            i + n <= hay@.len(),
            j <= n,
            forall|k: int| 0 <= k < j ==> hay@[i + k] == needle@[k],
        decreases n - j,
    {
        if hay[i + j] != needle[j] {
            assert(hay@.subrange(i as int, i + n)[j as int] != needle@[j as int]);
            return false;
        }
        j = j + 1;
    }
    assert(hay@.subrange(i as int, i + n) =~= needle@);
    true
}

/// Whether `needle` is a substring of `hay`.
pub fn text_contains(hay: &str, needle: &str) -> (res: bool)
    ensures
        res == contains_text(hay@, needle@),
{
    let h = chars_of(hay);
    let n = chars_of(needle);
    if n.len() > h.len() {
        assert forall|i: int| !occurs_at(hay@, needle@, i) by {}
        return false;
    }
    let last = h.len() - n.len();
    let mut i: usize = 0;
    loop
        invariant
            h@ == hay@,
            n@ == needle@,
            last + n@.len() == h@.len(),
            i <= last,
            forall|k: int| 0 <= k < i ==> !occurs_at(hay@, needle@, k),
        ensures
            forall|k: int| 0 <= k <= last ==> !occurs_at(hay@, needle@, k),
        decreases last - i,
    {
        if occurs_at_exec(&h, &n, i) {
            return true;
        }
        if i == last {
            break;
        }
        i = i + 1;
    }
    assert forall|k: int| !occurs_at(hay@, needle@, k) by {
        if 0 <= k <= last {
        }
    }
    false
}

/// Decides whether a peer may open a forwarding stream to the server.
pub fn is_peer_accepted(accepted_peer_ids: &Vec<String>, peer_id: &str) -> (res: bool)
    ensures
        res == peer_is_accepted(texts(accepted_peer_ids@), peer_id@),
{
    let ghost acc = texts(accepted_peer_ids@);
    let mut is_accepted = true;
    let mut i: usize = 0;
    while i < accepted_peer_ids.len()
        invariant
            acc == texts(accepted_peer_ids@),
            i <= accepted_peer_ids@.len(),
            forall|k: int| 0 <= k < i ==> !contains_text(acc[k], peer_id@),
            i > 0 ==> !is_accepted,
        decreases accepted_peer_ids@.len() - i,
    {
        if text_contains(accepted_peer_ids[i].as_str(), peer_id) {
            assert(contains_text(acc[i as int], peer_id@));
            is_accepted = true;
            return is_accepted;
        }
        is_accepted = false;
        i = i + 1;
    }
    if accepted_peer_ids.len() == 0 {
        is_accepted = true;
    }
    is_accepted
}

/// Forms the server's accepted-peer list from an optional peer argument.
pub fn accepted_peers_from(accepted_peer: Option<String>) -> (res: Vec<String>)
    ensures
        texts(res@) == accepted_list_from(
            match accepted_peer {
                Some(p) => Some(p@),
                None => None,
            },
        ),
{
    let mut res: Vec<String> = Vec::new();
    if let Some(peer) = accepted_peer {
        if !peer.as_str().is_empty() {
            res.push(peer);
        }
    }
    res
}

/// A peer whose id is itself one of the accepted entries is admitted.
pub proof fn lemma_listed_peer_is_accepted(accepted: Seq<Seq<char>>, peer: Seq<char>, k: int)
    requires
        0 <= k < accepted.len(),
        accepted[k] == peer,
    ensures
        peer_is_accepted(accepted, peer),
{
    assert(accepted[k].subrange(0, peer.len() as int) =~= peer);
    assert(occurs_at(accepted[k], peer, 0));
    assert(contains_text(accepted[k], peer));
}

/// With the list formed from one optional argument, a peer is admitted
/// exactly when the argument is absent or empty, or the peer's id occurs in it.
pub proof fn lemma_argument_filter(arg: Option<Seq<char>>, peer: Seq<char>)
    ensures
        peer_is_accepted(accepted_list_from(arg), peer) <==> match arg {
            Some(p) => p.len() == 0 || contains_text(p, peer),
            None => true,
        },
{
    match arg {
        Some(p) => {
            if p.len() > 0 {
                let l = accepted_list_from(arg);
                assert(l[0] == p);
                if contains_text(p, peer) {
                    assert(contains_text(l[0], peer));
                }
            }
        },
        None => {},
    }
}

} // verus!
