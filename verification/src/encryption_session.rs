//! The distributed key-generation (encryption) session: admission checks
//! and the state machine each node drives as protocol messages arrive.
//! Network delivery and timers live outside; this is every decision the
//! session takes.

use vstd::prelude::*;
use crate::key_server_cluster::Error;
use crate::key_storage::DocumentKeyShare;
use crate::crypto::is_scalar_bytes;
use crate::util::{bytes_eq, contains_bytes, contains_vec};

verus! {

/// The states a key-generation session passes through.
#[derive(Debug, Clone, Copy, PartialEq, Eq, Structural)]
pub enum SessionState {
    /// Initiator waits for every participant to confirm initialization.
    WaitingForInitializationConfirm,
    /// Participants wait for the initiator's completion broadcast.
    WaitingForInitializationComplete,
    /// Everyone waits for the other participants' key shares.
    WaitingForKeysDissemination,
    /// Shares are in; complaints may still arrive.
    WaitingForComplaints,
    /// Complaint window over; public key shares are collected.
    WaitingForKeysShare,
    /// The session completed and the share is persisted.
    Finished,
    /// The session aborted.
    Failed,
}

/// What a node does with one received key share.
#[derive(Debug, Clone, Copy, PartialEq, Eq, Structural)]
pub enum DisseminationOutcome {
    /// The share failed verification: complain against the sender.
    Complaint,
    /// The share verified; more are still missing.
    Waiting,
    /// The share verified and it was the last one.
    AllReceived,
}

/// Check the threshold against the participating set: the threshold must
/// lie in `[0, count - 1]`, so that `threshold + 1` of the participants
/// can reconstruct. A threshold of `count - 1` requires every node and is
/// legal; only `count` or more is rejected.
pub fn check_threshold(threshold: usize, nodes_count: usize) -> (r: Result<(), Error>)
    ensures
        r is Ok <==> threshold + 1 <= nodes_count,
        r matches Err(e) ==> e == Error::InvalidThreshold,
{
    if nodes_count == 0 || threshold > nodes_count - 1 {
        Err(Error::InvalidThreshold)
    } else {
        Ok(())
    }
}

/// One node's view of a key-generation session.
#[derive(Debug, Clone)]
pub struct Session {
    /// The session id: the document address.
    pub document: Vec<u8>,
    /// This node's id.
    pub self_node: Vec<u8>,
    /// Decryption threshold chosen at initialization.
    pub threshold: usize,
    /// Participating nodes with their id numbers.
    pub nodes: Vec<(Vec<u8>, Vec<u8>)>,
    /// Where the protocol stands.
    pub state: SessionState,
    /// The other participants whose confirmations arrived.
    pub confirmed: Vec<Vec<u8>>,
    /// The other participants whose key shares arrived and verified.
    pub shares_received: Vec<Vec<u8>>,
    /// The other participants whose public key shares arrived.
    pub publics_received: Vec<Vec<u8>>,
}

impl Session {
    /// Every participant's id number is a nonzero scalar.
    pub open spec fn nodes_wf(nodes: Seq<(Vec<u8>, Vec<u8>)>) -> bool {
        forall|i: int| 0 <= i < nodes.len() ==> is_scalar_bytes((#[trigger] nodes[i]).1@)
    }

    /// Whether a node id is among the participants.
    pub open spec fn is_member(nodes: Seq<(Vec<u8>, Vec<u8>)>, node: Seq<u8>) -> bool {
        exists|i: int| 0 <= i < nodes.len() && (#[trigger] nodes[i]).0@ == node
    }

    /// No two participants were assigned the same id number.
    pub open spec fn ids_distinct(nodes: Seq<(Vec<u8>, Vec<u8>)>) -> bool {
        forall|i: int, j: int|
            0 <= i < j < nodes.len() ==> (#[trigger] nodes[i]).0@ != (#[trigger] nodes[j]).0@
    }

    /// Open a session at the initiator or at a participant. At least two
    /// nodes must participate in key generation; the threshold must lie
    /// in `[0, participants - 1]`; this node must be a participant; every
    /// id number must be a nonzero scalar; and no two participants may
    /// collide on a node id.
    pub fn new(
        document: Vec<u8>,
        self_node: Vec<u8>,
        threshold: usize,
        nodes: Vec<(Vec<u8>, Vec<u8>)>,
    ) -> (r: Result<Session, Error>)
        ensures
            r is Ok <==> (nodes@.len() >= 2 && threshold + 1 <= nodes@.len() && Self::is_member(
                nodes@,
                self_node@,
            ) && Self::nodes_wf(nodes@) && Self::ids_distinct(nodes@)),
            r matches Ok(s) ==> ({
                &&& s.state == SessionState::WaitingForInitializationConfirm
                &&& s.threshold == threshold
                &&& s.nodes == nodes
                &&& s.document == document
                &&& s.confirmed@.len() == 0
                &&& s.shares_received@.len() == 0
                &&& s.publics_received@.len() == 0
            }),
            r matches Err(e) ==> (e == Error::InvalidNodesCount || e == Error::InvalidThreshold
                || e == Error::InvalidNodesConfiguration),
            (r matches Err(e) && e == Error::InvalidNodesCount) ==> nodes@.len() < 2,
            (r matches Err(e) && e == Error::InvalidThreshold) ==> (nodes@.len() >= 2 && !(
            threshold + 1 <= nodes@.len())),
            (r matches Err(e) && e == Error::InvalidNodesConfiguration) ==> (nodes@.len() >= 2
                && threshold + 1 <= nodes@.len() && !(Self::is_member(nodes@, self_node@)
                && Self::nodes_wf(nodes@) && Self::ids_distinct(nodes@))),
    {
        if nodes.len() < 2 {
            return Err(Error::InvalidNodesCount);
        }
        match check_threshold(threshold, nodes.len()) {
            Err(e) => {
                return Err(e);
            },
            Ok(()) => {},
        }
        let mut member = false;
        let mut i: usize = 0;
        while i < nodes.len()
            invariant
                nodes@.len() >= 2,
                threshold + 1 <= nodes@.len(),
                0 <= i <= nodes@.len(),
                member == exists|j: int| 0 <= j < i && (#[trigger] nodes@[j]).0@ == self_node@,
                forall|j: int| 0 <= j < i ==> is_scalar_bytes((#[trigger] nodes@[j]).1@),
            decreases nodes@.len() - i,
        {
            if bytes_eq(nodes[i].0.as_slice(), self_node.as_slice()) {
                member = true;
            }
            if !crate::crypto::check_scalar_bytes(nodes[i].1.as_slice()) {
                proof {
                    assert(!is_scalar_bytes((nodes@[i as int]).1@));
                    assert(!Self::nodes_wf(nodes@));
                }
                return Err(Error::InvalidNodesConfiguration);
            }
            i = i + 1;
        }
        if !member {
            return Err(Error::InvalidNodesConfiguration);
        }
        let mut i: usize = 0;
        while i < nodes.len()
            invariant
                nodes@.len() >= 2,
                threshold + 1 <= nodes@.len(),
                0 <= i <= nodes@.len(),
                forall|a: int, b: int|
                    0 <= a < b < nodes@.len() && a < i ==> (#[trigger] nodes@[a]).0@ != (
                    #[trigger] nodes@[b]).0@,
            decreases nodes@.len() - i,
        {
            let mut j: usize = i + 1;
            while j < nodes.len()
                invariant
                    nodes@.len() >= 2,
                    threshold + 1 <= nodes@.len(),
                    0 <= i < j <= nodes@.len(),
                    forall|b: int|
                        i < b < j ==> (#[trigger] nodes@[b]).0@ != nodes@[i as int].0@,
                decreases nodes@.len() - j,
            {
                if bytes_eq(nodes[i].0.as_slice(), nodes[j].0.as_slice()) {
                    proof {
                        assert((nodes@[i as int]).0@ == (nodes@[j as int]).0@);
                        assert(!Self::ids_distinct(nodes@));
                    }
                    return Err(Error::InvalidNodesConfiguration);
                }
                j = j + 1;
            }
            i = i + 1;
        }
        Ok(
            Session {
                document,
                self_node,
                threshold,
                nodes,
                state: SessionState::WaitingForInitializationConfirm,
                confirmed: Vec::new(),
                shares_received: Vec::new(),
                publics_received: Vec::new(),
            },
        )
    }

    /// Whether a node id belongs to the participant list.
    fn is_participant(&self, node: &[u8]) -> (r: bool)
        ensures
            r == Self::is_member(self.nodes@, node@),
    {
        let mut i: usize = 0;
        while i < self.nodes.len()
            invariant
                0 <= i <= self.nodes@.len(),
                forall|j: int| 0 <= j < i ==> (#[trigger] self.nodes@[j]).0@ != node@,
            decreases self.nodes@.len() - i,
        {
            if bytes_eq(self.nodes[i].0.as_slice(), node) {
                return true;
            }
            i = i + 1;
        }
        false
    }

    /// A confirmation arrived from `node`. Legal only in the confirmation
    /// phase, from a participant other than this node that has not yet
    /// confirmed: anything else is an invalid message (or, out of phase,
    /// an illegal request) and changes nothing. The result says whether
    /// every other participant has now confirmed (the initiator then
    /// broadcasts the completion message).
    pub fn on_confirm_initialization(&mut self, node: Vec<u8>) -> (r: Result<bool, Error>)
        ensures
            r is Ok <==> (old(self).state == SessionState::WaitingForInitializationConfirm
                && Self::is_member(old(self).nodes@, node@) && node@ != old(self).self_node@
                && !contains_bytes(old(self).confirmed.deep_view(), node@)),
            r matches Ok(all) ==> ({
                &&& final(self).confirmed.deep_view() == old(self).confirmed.deep_view().push(
                    node@,
                )
                &&& all == (final(self).confirmed@.len() == old(self).nodes@.len() - 1)
                &&& final(self).state == (if all {
                    SessionState::WaitingForInitializationComplete
                } else {
                    SessionState::WaitingForInitializationConfirm
                })
                &&& final(self).shares_received == old(self).shares_received
                &&& final(self).publics_received == old(self).publics_received
                &&& unchanged_but_state(*old(self), *final(self))
            }),
            r matches Err(e) ==> (*final(self) == *old(self) && (if old(self).state
                != SessionState::WaitingForInitializationConfirm {
                e == Error::InvalidStateForRequest
            } else {
                e == Error::InvalidMessage
            })),
    {
        if !matches!(self.state, SessionState::WaitingForInitializationConfirm) {
            return Err(Error::InvalidStateForRequest);
        }
        if bytes_eq(node.as_slice(), self.self_node.as_slice()) {
            return Err(Error::InvalidMessage);
        }
        if !self.is_participant(node.as_slice()) {
            return Err(Error::InvalidMessage);
        }
        if contains_vec(&self.confirmed, node.as_slice()) {
            return Err(Error::InvalidMessage);
        }
        let ghost prev = self.confirmed.deep_view();
        let ghost nodev = node@;
        self.confirmed.push(node);
        proof {
            assert(self.confirmed.deep_view() =~~= prev.push(nodev));
        }
        if self.confirmed.len() == self.nodes.len() - 1 {
            self.state = SessionState::WaitingForInitializationComplete;
            Ok(true)
        } else {
            Ok(false)
        }
    }

    /// A participant denied the initialization: its access-control list
    /// refused the author for this document. The session aborts with an
    /// access-denied error; outside the confirmation phase the message is
    /// an illegal request and changes nothing.
    pub fn on_initialization_denied(&mut self) -> (r: Error)
        ensures
            old(self).state == SessionState::WaitingForInitializationConfirm ==> (r
                == Error::AccessDenied && final(self).state == SessionState::Failed
                && unchanged_but_state(*old(self), *final(self)) && same_progress(
                *old(self),
                *final(self),
            )),
            old(self).state != SessionState::WaitingForInitializationConfirm ==> (r
                == Error::InvalidStateForRequest && *final(self) == *old(self)),
    {
        if !matches!(self.state, SessionState::WaitingForInitializationConfirm) {
            return Error::InvalidStateForRequest;
        }
        self.state = SessionState::Failed;
        Error::AccessDenied
    }

    /// The initiator's completion broadcast arrived (or was sent): key
    /// dissemination begins.
    pub fn on_complete_initialization(&mut self) -> (r: Result<(), Error>)
        ensures
            r is Ok <==> old(self).state == SessionState::WaitingForInitializationComplete,
            r is Ok ==> (final(self).state == SessionState::WaitingForKeysDissemination
                && unchanged_but_state(*old(self), *final(self)) && same_progress(
                *old(self),
                *final(self),
            )),
            r matches Err(e) ==> (e == Error::InvalidStateForRequest && *final(self) == *old(self)),
    {
        if !matches!(self.state, SessionState::WaitingForInitializationComplete) {
            return Err(Error::InvalidStateForRequest);
        }
        self.state = SessionState::WaitingForKeysDissemination;
        Ok(())
    }

    /// A key share arrived from `node` and was checked against the
    /// sender's public coefficients. Legal only in the dissemination
    /// phase, from a participant other than this node whose share is not
    /// yet recorded. A failed check asks for a complaint and records
    /// nothing; the last verified share moves the session into the
    /// complaint window.
    pub fn on_keys_dissemination(&mut self, node: Vec<u8>, share_verified: bool) -> (r: Result<
        DisseminationOutcome,
        Error,
    >)
        ensures
            r is Ok <==> (old(self).state == SessionState::WaitingForKeysDissemination
                && Self::is_member(old(self).nodes@, node@) && node@ != old(self).self_node@
                && !contains_bytes(old(self).shares_received.deep_view(), node@)),
            r matches Ok(outcome) ==> ({
                &&& !share_verified ==> (outcome == DisseminationOutcome::Complaint && *final(self)
                    == *old(self))
                &&& share_verified ==> ({
                    &&& final(self).shares_received.deep_view() == old(
                        self,
                    ).shares_received.deep_view().push(node@)
                    &&& outcome == (if final(self).shares_received@.len() == old(
                        self,
                    ).nodes@.len() - 1 {
                        DisseminationOutcome::AllReceived
                    } else {
                        DisseminationOutcome::Waiting
                    })
                    &&& final(self).state == (if final(self).shares_received@.len() == old(
                        self,
                    ).nodes@.len() - 1 {
                        SessionState::WaitingForComplaints
                    } else {
                        SessionState::WaitingForKeysDissemination
                    })
                    &&& final(self).confirmed == old(self).confirmed
                    &&& final(self).publics_received == old(self).publics_received
                    &&& unchanged_but_state(*old(self), *final(self))
                })
            }),
            r matches Err(e) ==> (*final(self) == *old(self) && (if old(self).state
                != SessionState::WaitingForKeysDissemination {
                e == Error::InvalidStateForRequest
            } else {
                e == Error::InvalidMessage
            })),
    {
        if !matches!(self.state, SessionState::WaitingForKeysDissemination) {
            return Err(Error::InvalidStateForRequest);
        }
        if bytes_eq(node.as_slice(), self.self_node.as_slice()) {
            return Err(Error::InvalidMessage);
        }
        if !self.is_participant(node.as_slice()) {
            return Err(Error::InvalidMessage);
        }
        if contains_vec(&self.shares_received, node.as_slice()) {
            return Err(Error::InvalidMessage);
        }
        if !share_verified {
            return Ok(DisseminationOutcome::Complaint);
        }
        let ghost prev = self.shares_received.deep_view();
        let ghost nodev = node@;
        self.shares_received.push(node);
        proof {
            assert(self.shares_received.deep_view() =~~= prev.push(nodev));
        }
        if self.shares_received.len() == self.nodes.len() - 1 {
            self.state = SessionState::WaitingForComplaints;
            Ok(DisseminationOutcome::AllReceived)
        } else {
            Ok(DisseminationOutcome::Waiting)
        }
    }

    /// The complaint window closed. An unresolved complaint marks the
    /// sender as cheating and aborts with an invalid-message error;
    /// otherwise public key shares are awaited next.
    pub fn on_complaints_resolved(&mut self, unresolved_complaint: bool) -> (r: Result<(), Error>)
        ensures
            (old(self).state == SessionState::WaitingForComplaints && !unresolved_complaint) <==> r
                is Ok,
            r is Ok ==> (final(self).state == SessionState::WaitingForKeysShare
                && unchanged_but_state(*old(self), *final(self)) && same_progress(
                *old(self),
                *final(self),
            )),
            r matches Err(e) ==> (if old(self).state != SessionState::WaitingForComplaints {
                e == Error::InvalidStateForRequest && *final(self) == *old(self)
            } else {
                e == Error::InvalidMessage && final(self).state == SessionState::Failed
                    && unchanged_but_state(*old(self), *final(self)) && same_progress(
                    *old(self),
                    *final(self),
                )
            }),
    {
        if !matches!(self.state, SessionState::WaitingForComplaints) {
            return Err(Error::InvalidStateForRequest);
        }
        if unresolved_complaint {
            self.state = SessionState::Failed;
            return Err(Error::InvalidMessage);
        }
        self.state = SessionState::WaitingForKeysShare;
        Ok(())
    }

    /// A public key share arrived from `node`. Legal only while public
    /// shares are awaited, from a participant other than this node whose
    /// public share is not yet recorded; the last one finishes the
    /// session.
    pub fn on_public_key_share(&mut self, node: Vec<u8>) -> (r: Result<bool, Error>)
        ensures
            r is Ok <==> (old(self).state == SessionState::WaitingForKeysShare && Self::is_member(
                old(self).nodes@,
                node@,
            ) && node@ != old(self).self_node@ && !contains_bytes(
                old(self).publics_received.deep_view(),
                node@,
            )),
            r matches Ok(done) ==> ({
                &&& final(self).publics_received.deep_view() == old(
                    self,
                ).publics_received.deep_view().push(node@)
                &&& done == (final(self).publics_received@.len() == old(self).nodes@.len() - 1)
                &&& final(self).state == (if done {
                    SessionState::Finished
                } else {
                    SessionState::WaitingForKeysShare
                })
                &&& final(self).confirmed == old(self).confirmed
                &&& final(self).shares_received == old(self).shares_received
                &&& unchanged_but_state(*old(self), *final(self))
            }),
            r matches Err(e) ==> (*final(self) == *old(self) && (if old(self).state
                != SessionState::WaitingForKeysShare {
                e == Error::InvalidStateForRequest
            } else {
                e == Error::InvalidMessage
            })),
    {
        if !matches!(self.state, SessionState::WaitingForKeysShare) {
            return Err(Error::InvalidStateForRequest);
        }
        if bytes_eq(node.as_slice(), self.self_node.as_slice()) {
            return Err(Error::InvalidMessage);
        }
        if !self.is_participant(node.as_slice()) {
            return Err(Error::InvalidMessage);
        }
        if contains_vec(&self.publics_received, node.as_slice()) {
            return Err(Error::InvalidMessage);
        }
        let ghost prev = self.publics_received.deep_view();
        let ghost nodev = node@;
        self.publics_received.push(node);
        proof {
            assert(self.publics_received.deep_view() =~~= prev.push(nodev));
        }
        if self.publics_received.len() == self.nodes.len() - 1 {
            self.state = SessionState::Finished;
            Ok(true)
        } else {
            Ok(false)
        }
    }

    /// A participating peer disconnected. Any unfinished session aborts
    /// with a node-disconnected error.
    pub fn on_node_lost(&mut self) -> (r: Option<Error>)
        ensures
            (old(self).state == SessionState::Finished || old(self).state == SessionState::Failed)
                ==> (r is None && *final(self) == *old(self)),
            !(old(self).state == SessionState::Finished || old(self).state
                == SessionState::Failed) ==> (r == Some(Error::NodeDisconnected) && final(self).state == SessionState::Failed && unchanged_but_state(*old(self), *final(self))
                && same_progress(*old(self), *final(self))),
    {
        if matches!(self.state, SessionState::Finished) || matches!(
            self.state,
            SessionState::Failed,
        ) {
            return None;
        }
        self.state = SessionState::Failed;
        Some(Error::NodeDisconnected)
    }

    /// The session deadline passed without progress: abort.
    pub fn on_timeout(&mut self) -> (r: Option<Error>)
        ensures
            (old(self).state == SessionState::Finished || old(self).state == SessionState::Failed)
                ==> (r is None && *final(self) == *old(self)),
            !(old(self).state == SessionState::Finished || old(self).state
                == SessionState::Failed) ==> (r == Some(Error::TooEarlyForRequest) && final(self).state == SessionState::Failed && unchanged_but_state(*old(self), *final(self))
                && same_progress(*old(self), *final(self))),
    {
        if matches!(self.state, SessionState::Finished) || matches!(
            self.state,
            SessionState::Failed,
        ) {
            return None;
        }
        self.state = SessionState::Failed;
        Some(Error::TooEarlyForRequest)
    }

    /// Build the share this node persists once the session finished. Its
    /// threshold is the threshold the session was initialized with, its
    /// participant list is the session's, and the share is well-formed.
    pub fn build_key_share(
        self,
        author: Vec<u8>,
        common_point: Vec<u8>,
        encrypted_point: Vec<u8>,
        polynom1_public: Vec<Vec<u8>>,
        secret_share: Vec<u8>,
    ) -> (r: DocumentKeyShare)
        requires
            self.state == SessionState::Finished,
            Self::ids_distinct(self.nodes@),
            Self::nodes_wf(self.nodes@),
            self.threshold + 1 <= self.nodes@.len(),
            is_scalar_bytes(secret_share@),
        ensures
            r.threshold == self.threshold,
            r.id_numbers == self.nodes,
            r.secret_share == secret_share,
            r.common_point == common_point,
            r.encrypted_point == encrypted_point,
            r.author == author,
            r.polynom1_public == polynom1_public,
            r.wf(),
    {
        DocumentKeyShare {
            threshold: self.threshold,
            author,
            common_point,
            encrypted_point,
            polynom1_public,
            secret_share,
            id_numbers: self.nodes,
        }
    }
}

/// The collected progress of a session — who confirmed, whose shares
/// verified, whose public shares arrived — for transitions that touch
/// none of it.
pub open spec fn same_progress(a: Session, b: Session) -> bool {
    &&& a.confirmed == b.confirmed
    &&& a.shares_received == b.shares_received
    &&& a.publics_received == b.publics_received
}

/// The parts of a session that transitions leave alone.
pub open spec fn unchanged_but_state(a: Session, b: Session) -> bool {
    &&& a.document == b.document
    &&& a.self_node == b.self_node
    &&& a.threshold == b.threshold
    &&& a.nodes == b.nodes
}

} // verus!
