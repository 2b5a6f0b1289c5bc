//! Per-peer connection decisions: who dials whom, the handshake state
//! machine that authenticates a new socket, and keep-alive accounting.
//! The socket I/O itself lives outside; everything here is a function
//! from received values to the next state.

use vstd::prelude::*;
use crate::key_server_cluster::Error;
use crate::crypto::{
    check_scalar_bytes, is_scalar_bytes, public_of, recover, recovered_public, sign_message,
    signature_of,
};
use crate::util::{bytes_eq, contains_bytes, contains_vec};

verus! {

/// Byte-lexicographic order on node ids, the order the dial tie-break
/// uses.
pub open spec fn lex_less_spec(a: Seq<u8>, b: Seq<u8>) -> bool
    decreases a.len(),
{
    if b.len() == 0 {
        false
    } else if a.len() == 0 {
        true
    } else if a[0] != b[0] {
        a[0] < b[0]
    } else {
        lex_less_spec(a.skip(1), b.skip(1))
    }
}

/// Compare two ids byte-lexicographically.
pub fn lex_less(a: &[u8], b: &[u8]) -> (r: bool)
    ensures
        r == lex_less_spec(a@, b@),
{
    let mut i: usize = 0;
    let min_len: usize = if a.len() < b.len() {
        a.len()
    } else {
        b.len()
    };
    proof {
        assert(a@.skip(0) =~= a@);
        assert(b@.skip(0) =~= b@);
    }
    while i < min_len
        invariant
            0 <= i <= min_len,
            min_len == if a@.len() < b@.len() {
                a@.len()
            } else {
                b@.len()
            },
            forall|j: int| 0 <= j < i ==> a@[j] == b@[j],
            lex_less_spec(a@, b@) == lex_less_spec(a@.skip(i as int), b@.skip(i as int)),
        decreases min_len - i,
    {
        if a[i] != b[i] {
            proof {
                lemma_lex_first_byte(a@.skip(i as int), b@.skip(i as int));
            }
            return a[i] < b[i];
        }
        proof {
            lemma_lex_step(a@.skip(i as int), b@.skip(i as int));
            assert(a@.skip(i as int).skip(1) =~= a@.skip(i + 1));
            assert(b@.skip(i as int).skip(1) =~= b@.skip(i + 1));
        }
        i = i + 1;
    }
    proof {
        lemma_lex_prefix(a@.skip(i as int), b@.skip(i as int));
    }
    a.len() < b.len()
}

/// A nonempty suffix pair with distinct first bytes orders by that byte.
proof fn lemma_lex_first_byte(a: Seq<u8>, b: Seq<u8>)
    requires
        a.len() > 0,
        b.len() > 0,
        a[0] != b[0],
    ensures
        lex_less_spec(a, b) == (a[0] < b[0]),
{
}

/// A suffix pair with equal first bytes orders by the rest.
proof fn lemma_lex_step(a: Seq<u8>, b: Seq<u8>)
    requires
        a.len() > 0,
        b.len() > 0,
        a[0] == b[0],
    ensures
        lex_less_spec(a, b) == lex_less_spec(a.skip(1), b.skip(1)),
{
}

/// When one side is a prefix of the other, the shorter one comes first.
proof fn lemma_lex_prefix(a: Seq<u8>, b: Seq<u8>)
    requires
        a.len() == 0 || b.len() == 0,
    ensures
        lex_less_spec(a, b) == (a.len() < b.len()),
{
}

/// The dial tie-break: with `allow_connecting_to_higher_nodes` off, only
/// the node with the byte-lexicographically smaller id initiates, so the
/// pair never holds two sockets in steady state. With it on, both sides
/// may dial.
pub fn should_initiate_connection(
    self_node: &[u8],
    peer_node: &[u8],
    allow_connecting_to_higher_nodes: bool,
) -> (r: bool)
    ensures
        allow_connecting_to_higher_nodes ==> r,
        !allow_connecting_to_higher_nodes ==> r == lex_less_spec(self_node@, peer_node@),
{
    allow_connecting_to_higher_nodes || lex_less(self_node, peer_node)
}

/// Whether a claimed node id is in the cluster membership list.
pub fn is_cluster_member(nodes: &Vec<Vec<u8>>, id: &[u8]) -> (r: bool)
    ensures
        r == contains_bytes(nodes.deep_view(), id@),
{
    contains_vec(nodes, id)
}

/// The handshake steps of one socket.
#[derive(Debug, Clone, Copy, PartialEq, Eq, Structural)]
pub enum HandshakeState {
    /// The peer's id and nonce have not arrived yet.
    WaitingForNodePublicKey,
    /// The peer's signature over this side's nonce is awaited.
    WaitingForSignature,
    /// Both sides are authenticated; traffic switches to the link key.
    Established,
    /// The handshake failed; the socket is to be closed.
    Closed,
}

/// One socket's handshake progress.
#[derive(Debug, Clone)]
pub struct Handshake {
    /// Where the handshake stands.
    pub state: HandshakeState,
    /// The peer id claimed in the first message, once it arrived.
    pub peer_node: Option<Vec<u8>>,
}

impl Handshake {
    /// A fresh handshake on a dialed or accepted socket.
    pub fn new() -> (r: Handshake)
        ensures
            r.state == HandshakeState::WaitingForNodePublicKey,
            r.peer_node is None,
    {
        Handshake { state: HandshakeState::WaitingForNodePublicKey, peer_node: None }
    }

    /// The peer announced its id. An id outside the membership list, or
    /// any message out of order, closes the socket; the peer id is
    /// recorded otherwise.
    pub fn on_node_public_key(&mut self, nodes: &Vec<Vec<u8>>, claimed_id: Vec<u8>) -> (r: Result<
        (),
        Error,
    >)
        ensures
            r is Ok <==> (old(self).state == HandshakeState::WaitingForNodePublicKey
                && contains_bytes(nodes.deep_view(), claimed_id@)),
            r is Ok ==> (final(self).state == HandshakeState::WaitingForSignature && final(self).peer_node == Some(claimed_id)),
            r matches Err(e) ==> (if old(self).state != HandshakeState::WaitingForNodePublicKey {
                e == Error::InvalidStateForRequest && *final(self) == *old(self)
            } else {
                e == Error::InvalidNodeId && final(self).state == HandshakeState::Closed
            }),
    {
        if !matches!(self.state, HandshakeState::WaitingForNodePublicKey) {
            return Err(Error::InvalidStateForRequest);
        }
        if !is_cluster_member(nodes, claimed_id.as_slice()) {
            self.state = HandshakeState::Closed;
            return Err(Error::InvalidNodeId);
        }
        self.state = HandshakeState::WaitingForSignature;
        self.peer_node = Some(claimed_id);
        Ok(())
    }

    /// The peer's signature over this side's nonce arrived: the
    /// connection is established exactly when the key recovered from the
    /// signature is the claimed peer id; any failure closes the socket.
    pub fn on_signature(&mut self, signature: &Vec<u8>, self_nonce: &Vec<u8>) -> (r: Result<
        (),
        Error,
    >)
        ensures
            r is Ok <==> (old(self).state == HandshakeState::WaitingForSignature && (old(
                self,
            ).peer_node matches Some(peer) && recovered_public(signature@, self_nonce@) == Some(
                peer@,
            ))),
            r is Ok ==> ({
                &&& final(self).state == HandshakeState::Established
                &&& final(self).peer_node == old(self).peer_node
            }),
            r matches Err(e) ==> (if old(self).state != HandshakeState::WaitingForSignature {
                e == Error::InvalidStateForRequest && *final(self) == *old(self)
            } else {
                e == Error::InvalidMessage && final(self).state == HandshakeState::Closed
            }),
    {
        if !matches!(self.state, HandshakeState::WaitingForSignature) {
            return Err(Error::InvalidStateForRequest);
        }
        let peer = match &self.peer_node {
            Some(p) => p,
            None => {
                self.state = HandshakeState::Closed;
                return Err(Error::InvalidMessage);
            },
        };
        let recovered = match recover(signature, self_nonce) {
            Some(p) => p,
            None => {
                self.state = HandshakeState::Closed;
                return Err(Error::InvalidMessage);
            },
        };
        if !bytes_eq(recovered.as_slice(), peer.as_slice()) {
            self.state = HandshakeState::Closed;
            return Err(Error::InvalidMessage);
        }
        self.state = HandshakeState::Established;
        Ok(())
    }
}

/// Sign the peer's handshake nonce with this node's long-term secret.
/// The peer's recovery of the signature yields this node's public key,
/// so the answer passes the peer's handshake check. A secret out of
/// range or a nonce that is not 32 bytes is a cryptographic error, as is
/// the rare draw the signer refuses.
pub fn sign_handshake_nonce(self_secret: &Vec<u8>, peer_nonce: &Vec<u8>) -> (r: Result<
    Vec<u8>,
    Error,
>)
    ensures
        r matches Ok(sig) ==> ({
            &&& sig@ == signature_of(self_secret@, peer_nonce@)
            &&& sig@.len() == 65
            &&& recovered_public(sig@, peer_nonce@) == Some(public_of(self_secret@))
        }),
        !(is_scalar_bytes(self_secret@) && peer_nonce@.len() == 32) ==> r is Err,
        r matches Err(e) ==> e matches Error::EthKey(_),
{
    if !check_scalar_bytes(self_secret.as_slice()) {
        return Err(Error::EthKey(signing_error_string()));
    }
    if peer_nonce.len() != 32 {
        return Err(Error::EthKey(signing_error_string()));
    }
    match sign_message(self_secret, peer_nonce) {
        Some(sig) => Ok(sig),
        None => Err(Error::EthKey(signing_error_string())),
    }
}

/// Error text for a handshake nonce that cannot be signed.
fn signing_error_string() -> (r: String)
    ensures
        r@ == "cannot sign handshake nonce"@,
{
    "cannot sign handshake nonce".to_owned()
}

/// Keep-alive accounting: one probe per idle interval, and three probes
/// in a row without an echo close the connection.
#[derive(Debug, Clone, Copy, PartialEq, Eq, Structural)]
pub struct KeepAlive {
    /// Probes sent since the last echo.
    pub unanswered: u8,
}

/// How many unanswered probes in a row close the connection.
pub const MAX_UNANSWERED_KEEP_ALIVES: u8 = 3;

impl KeepAlive {
    /// Fresh accounting for an established connection.
    pub fn new() -> (r: KeepAlive)
        ensures
            r.unanswered == 0,
    {
        KeepAlive { unanswered: 0 }
    }

    /// An idle interval passed and a probe goes out; the result says
    /// whether the peer has now missed enough echoes that the connection
    /// must close.
    pub fn on_probe_sent(&mut self) -> (r: bool)
        requires
            old(self).unanswered <= MAX_UNANSWERED_KEEP_ALIVES,
        ensures
            final(self).unanswered == (if old(self).unanswered < MAX_UNANSWERED_KEEP_ALIVES {
                old(self).unanswered + 1
            } else {
                old(self).unanswered as int
            }),
            r == (final(self).unanswered == MAX_UNANSWERED_KEEP_ALIVES),
    {
        if self.unanswered < MAX_UNANSWERED_KEEP_ALIVES {
            self.unanswered = self.unanswered + 1;
        }
        self.unanswered == MAX_UNANSWERED_KEEP_ALIVES
    }

    /// An echo arrived: the peer is alive.
    pub fn on_response(&mut self)
        ensures
            final(self).unanswered == 0,
    {
        self.unanswered = 0;
    }
}

} // verus!
