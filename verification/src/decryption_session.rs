//! The threshold-decryption session: admission checks (access control,
//! enough participants for the stored threshold) and the state machine
//! that collects partial decryptions and combines them into the document
//! key point.

use vstd::prelude::*;
use crate::key_server_cluster::Error;
use crate::key_storage::{DocumentKeyShare, KeyStorage};
use crate::math::{all_points, combine_points, sum_points_spec, sums_defined};
use crate::types::DocumentEncryptedKeyShadow;
use crate::util::{bytes_eq, contains_bytes, contains_vec};

verus! {

/// The states a decryption session passes through.
#[derive(Debug, Clone, Copy, PartialEq, Eq, Structural)]
pub enum SessionState {
    /// Initiator waits for the chosen participants to confirm.
    WaitingForInitializationConfirm,
    /// Participants wait for the initiator's partial-decryption request.
    WaitingForPartialDecryptionRequest,
    /// Initiator collects partial decryptions.
    WaitingForPartialDecryption,
    /// The document key point was reconstructed.
    Finished,
    /// The session aborted.
    Failed,
}

/// Check that the stored threshold leaves enough participants: `t + 1`
/// nodes must cooperate, all of them when `t` is one less than the
/// participant count.
pub fn check_nodes_count(threshold: usize, available_nodes: usize) -> (r: Result<(), Error>)
    ensures
        r is Ok <==> threshold + 1 <= available_nodes,
        r matches Err(e) ==> e == Error::InvalidNodesCount,
{
    if available_nodes == 0 || threshold > available_nodes - 1 {
        Err(Error::InvalidNodesCount)
    } else {
        Ok(())
    }
}

/// Load the stored share a decryption session starts from: a document
/// with no stored share fails with an invalid-session error, which the
/// facade surfaces to retrieval callers as a missing document.
pub fn load_key_share<'a>(storage: &'a KeyStorage, document: &Vec<u8>) -> (r: Result<
    &'a DocumentKeyShare,
    Error,
>)
    requires
        storage.wf(),
    ensures
        r matches Ok(s) ==> storage.share_at(document@) == Some(*s),
        r is Err <==> storage.share_at(document@) is None,
        r matches Err(e) ==> e == Error::InvalidSessionId,
{
    match storage.get(document) {
        Some(s) => Ok(s),
        None => Err(Error::InvalidSessionId),
    }
}

/// One node's view of a decryption session.
#[derive(Debug, Clone)]
pub struct Session {
    /// The session id: the document address.
    pub document: Vec<u8>,
    /// The requestor's recovered public key.
    pub requestor: Vec<u8>,
    /// Decryption threshold of the stored share.
    pub threshold: usize,
    /// Whether the requestor asked for shadow decryption.
    pub is_shadow: bool,
    /// Where the protocol stands.
    pub state: SessionState,
    /// The chosen participants whose confirmations arrived.
    pub confirmed: Vec<Vec<u8>>,
    /// The participants whose partial decryptions arrived.
    pub responders: Vec<Vec<u8>>,
    /// Collected partial decryptions (curve points), one per responder.
    pub partials: Vec<Vec<u8>>,
    /// In shadow mode: the encrypted shadow coefficients collected with
    /// the partials.
    pub shadows: Vec<Vec<u8>>,
}

impl Session {
    /// Open a decryption session at the initiator. The access-control
    /// answer for the recovered requestor decides admission; the stored
    /// share must have enough participants for its threshold. With a
    /// threshold of zero the chosen set is this node alone, so no
    /// confirmation is awaited and partials are collected at once.
    pub fn new(
        document: Vec<u8>,
        requestor: Vec<u8>,
        key_share: &DocumentKeyShare,
        is_shadow: bool,
        acl_allows: bool,
    ) -> (r: Result<Session, Error>)
        ensures
            r is Ok <==> (acl_allows && key_share.threshold + 1 <= key_share.id_numbers@.len()),
            r matches Ok(s) ==> ({
                &&& s.state == (if key_share.threshold == 0 {
                    SessionState::WaitingForPartialDecryption
                } else {
                    SessionState::WaitingForInitializationConfirm
                })
                &&& s.threshold == key_share.threshold
                &&& s.is_shadow == is_shadow
                &&& s.document == document
                &&& s.requestor == requestor
                &&& s.confirmed@.len() == 0
                &&& s.responders@.len() == 0
                &&& s.partials@.len() == 0
                &&& s.shadows@.len() == 0
            }),
            r matches Err(e) ==> (if !acl_allows {
                e == Error::AccessDenied
            } else {
                e == Error::InvalidNodesCount
            }),
    {
        if !acl_allows {
            return Err(Error::AccessDenied);
        }
        match check_nodes_count(key_share.threshold, key_share.id_numbers.len()) {
            Err(e) => {
                return Err(e);
            },
            Ok(()) => {},
        }
        let state = if key_share.threshold == 0 {
            SessionState::WaitingForPartialDecryption
        } else {
            SessionState::WaitingForInitializationConfirm
        };
        Ok(
            Session {
                document,
                requestor,
                threshold: key_share.threshold,
                is_shadow,
                state,
                confirmed: Vec::new(),
                responders: Vec::new(),
                partials: Vec::new(),
                shadows: Vec::new(),
            },
        )
    }

    /// Open a decryption session at a chosen participant, after it
    /// confirmed the initialization: the participant waits for the
    /// initiator's partial-decryption request. Admission checks are the
    /// initiator's, made here independently.
    pub fn new_participant(
        document: Vec<u8>,
        requestor: Vec<u8>,
        key_share: &DocumentKeyShare,
        is_shadow: bool,
        acl_allows: bool,
    ) -> (r: Result<Session, Error>)
        ensures
            r is Ok <==> (acl_allows && key_share.threshold + 1 <= key_share.id_numbers@.len()),
            r matches Ok(s) ==> ({
                &&& s.state == SessionState::WaitingForPartialDecryptionRequest
                &&& s.threshold == key_share.threshold
                &&& s.is_shadow == is_shadow
                &&& s.document == document
                &&& s.requestor == requestor
                &&& s.confirmed@.len() == 0
                &&& s.responders@.len() == 0
                &&& s.partials@.len() == 0
                &&& s.shadows@.len() == 0
            }),
            r matches Err(e) ==> (if !acl_allows {
                e == Error::AccessDenied
            } else {
                e == Error::InvalidNodesCount
            }),
    {
        if !acl_allows {
            return Err(Error::AccessDenied);
        }
        match check_nodes_count(key_share.threshold, key_share.id_numbers.len()) {
            Err(e) => {
                return Err(e);
            },
            Ok(()) => {},
        }
        Ok(
            Session {
                document,
                requestor,
                threshold: key_share.threshold,
                is_shadow,
                state: SessionState::WaitingForPartialDecryptionRequest,
                confirmed: Vec::new(),
                responders: Vec::new(),
                partials: Vec::new(),
                shadows: Vec::new(),
            },
        )
    }

    /// The initiator's partial-decryption request arrived at a
    /// participant: it computes and sends its partial and is done.
    pub fn on_partial_decryption_requested(&mut self) -> (r: Result<(), Error>)
        ensures
            r is Ok <==> old(self).state == SessionState::WaitingForPartialDecryptionRequest,
            r is Ok ==> (final(self).state == SessionState::Finished && unchanged_but_progress(
                *old(self),
                *final(self),
            ) && same_collections(*old(self), *final(self))),
            r matches Err(e) ==> (e == Error::InvalidStateForRequest && *final(self) == *old(self)),
    {
        if !matches!(self.state, SessionState::WaitingForPartialDecryptionRequest) {
            return Err(Error::InvalidStateForRequest);
        }
        self.state = SessionState::Finished;
        Ok(())
    }

    /// A confirmation arrived from the chosen participant `node`. Legal
    /// only in the confirmation phase and only once per node; the chosen
    /// set itself lives with the initiator's driver. The result says
    /// whether all `threshold` other participants have confirmed (the
    /// initiator then sends the partial-decryption requests).
    pub fn on_confirm_initialization(&mut self, node: Vec<u8>) -> (r: Result<bool, Error>)
        ensures
            r is Ok <==> (old(self).state == SessionState::WaitingForInitializationConfirm
                && !contains_bytes(old(self).confirmed.deep_view(), node@)),
            r matches Ok(all) ==> ({
                &&& final(self).confirmed.deep_view() == old(self).confirmed.deep_view().push(
                    node@,
                )
                &&& all == (final(self).confirmed@.len() == old(self).threshold)
                &&& final(self).state == (if all {
                    SessionState::WaitingForPartialDecryption
                } else {
                    SessionState::WaitingForInitializationConfirm
                })
                &&& unchanged_but_progress(*old(self), *final(self))
                &&& final(self).responders == old(self).responders
                &&& final(self).partials == old(self).partials
                &&& final(self).shadows == old(self).shadows
            }),
            r matches Err(e) ==> (*final(self) == *old(self) && (if old(self).state
                != SessionState::WaitingForInitializationConfirm {
                e == Error::InvalidStateForRequest
            } else {
                e == Error::InvalidMessage
            })),
    {
        if !matches!(self.state, SessionState::WaitingForInitializationConfirm) {
            return Err(Error::InvalidStateForRequest);
        }
        if contains_vec(&self.confirmed, node.as_slice()) {
            return Err(Error::InvalidMessage);
        }
        let ghost prev = self.confirmed.deep_view();
        let ghost nodev = node@;
        self.confirmed.push(node);
        proof {
            assert(self.confirmed.deep_view() =~~= prev.push(nodev));
        }
        if self.confirmed.len() == self.threshold {
            self.state = SessionState::WaitingForPartialDecryption;
            Ok(true)
        } else {
            Ok(false)
        }
    }

    /// A partial decryption arrived from `node`: a curve point, and in
    /// shadow mode the shadow coefficient encrypted to the requestor.
    /// Legal only while partials are collected and only once per node.
    /// The result says whether all `threshold + 1` partials are in (the
    /// session is then ready to combine).
    pub fn on_partial_decryption(
        &mut self,
        node: Vec<u8>,
        point: Vec<u8>,
        shadow: Option<Vec<u8>>,
    ) -> (r: Result<bool, Error>)
        requires
            point@.len() == 64,
            crate::crypto::is_point(point@),
        ensures
            r is Ok <==> (old(self).state == SessionState::WaitingForPartialDecryption && old(
                self,
            ).partials@.len() <= old(self).threshold && (old(self).is_shadow <==> shadow is Some)
                && !contains_bytes(old(self).responders.deep_view(), node@)),
            r matches Ok(all) ==> ({
                &&& final(self).partials@ == old(self).partials@.push(point)
                &&& final(self).responders.deep_view() == old(self).responders.deep_view().push(
                    node@,
                )
                &&& all == (final(self).partials@.len() == old(self).threshold + 1)
                &&& final(self).state == (if all {
                    SessionState::Finished
                } else {
                    SessionState::WaitingForPartialDecryption
                })
                &&& unchanged_but_progress(*old(self), *final(self))
                &&& final(self).confirmed == old(self).confirmed
                &&& (shadow matches Some(c) ==> final(self).shadows@ == old(self).shadows@.push(c))
                &&& (shadow is None ==> final(self).shadows == old(self).shadows)
            }),
            r matches Err(e) ==> ((e == Error::InvalidStateForRequest || e
                == Error::InvalidMessage) && *final(self) == *old(self)),
    {
        if !matches!(self.state, SessionState::WaitingForPartialDecryption) {
            return Err(Error::InvalidStateForRequest);
        }
        if self.partials.len() > self.threshold {
            return Err(Error::InvalidStateForRequest);
        }
        if contains_vec(&self.responders, node.as_slice()) {
            return Err(Error::InvalidMessage);
        }
        match shadow {
            Some(c) => {
                if !self.is_shadow {
                    return Err(Error::InvalidMessage);
                }
                self.shadows.push(c);
            },
            None => {
                if self.is_shadow {
                    return Err(Error::InvalidMessage);
                }
            },
        }
        let ghost prevr = self.responders.deep_view();
        let ghost nodev = node@;
        self.responders.push(node);
        proof {
            assert(self.responders.deep_view() =~~= prevr.push(nodev));
        }
        self.partials.push(point);
        if self.partials.len() > self.threshold {
            self.state = SessionState::Finished;
            Ok(true)
        } else {
            Ok(false)
        }
    }

    /// A partial decryption arrived from the wire: bytes that are not a
    /// curve point are recognized as an invalid message and change
    /// nothing; valid points go through `on_partial_decryption`.
    pub fn accept_partial_decryption(
        &mut self,
        node: Vec<u8>,
        point: Vec<u8>,
        shadow: Option<Vec<u8>>,
    ) -> (r: Result<bool, Error>)
        ensures
            !(point@.len() == 64 && crate::crypto::is_point(point@)) ==> (r == Err::<bool, Error>(
                Error::InvalidMessage,
            ) && *final(self) == *old(self)),
            (point@.len() == 64 && crate::crypto::is_point(point@)) ==> ({
                &&& (r is Ok <==> (old(self).state == SessionState::WaitingForPartialDecryption
                    && old(self).partials@.len() <= old(self).threshold && (old(self).is_shadow
                    <==> shadow is Some) && !contains_bytes(
                    old(self).responders.deep_view(),
                    node@,
                )))
                &&& (r matches Ok(all) ==> ({
                    &&& final(self).partials@ == old(self).partials@.push(point)
                    &&& final(self).responders.deep_view() == old(
                        self,
                    ).responders.deep_view().push(node@)
                    &&& all == (final(self).partials@.len() == old(self).threshold + 1)
                    &&& final(self).state == (if all {
                        SessionState::Finished
                    } else {
                        SessionState::WaitingForPartialDecryption
                    })
                    &&& unchanged_but_progress(*old(self), *final(self))
                    &&& final(self).confirmed == old(self).confirmed
                    &&& (shadow matches Some(c) ==> final(self).shadows@ == old(
                        self,
                    ).shadows@.push(c))
                    &&& (shadow is None ==> final(self).shadows == old(self).shadows)
                }))
                &&& (r matches Err(e) ==> ((e == Error::InvalidStateForRequest || e
                    == Error::InvalidMessage) && *final(self) == *old(self)))
            }),
    {
        if point.len() != 64 {
            return Err(Error::InvalidMessage);
        }
        if !crate::crypto::is_valid_public(&point) {
            return Err(Error::InvalidMessage);
        }
        self.on_partial_decryption(node, point, shadow)
    }

    /// The session deadline passed without progress: abort.
    pub fn on_timeout(&mut self) -> (r: Option<Error>)
        ensures
            (old(self).state == SessionState::Finished || old(self).state == SessionState::Failed)
                ==> (r is None && *final(self) == *old(self)),
            !(old(self).state == SessionState::Finished || old(self).state
                == SessionState::Failed) ==> (r == Some(Error::TooEarlyForRequest) && final(self).state == SessionState::Failed && unchanged_but_progress(*old(self), *final(self))
                && same_collections(*old(self), *final(self))),
    {
        if matches!(self.state, SessionState::Finished) || matches!(
            self.state,
            SessionState::Failed,
        ) {
            return None;
        }
        self.state = SessionState::Failed;
        Some(Error::TooEarlyForRequest)
    }

    /// A participating peer disconnected: any unfinished session aborts.
    pub fn on_node_lost(&mut self) -> (r: Option<Error>)
        ensures
            (old(self).state == SessionState::Finished || old(self).state == SessionState::Failed)
                ==> (r is None && *final(self) == *old(self)),
            !(old(self).state == SessionState::Finished || old(self).state
                == SessionState::Failed) ==> (r == Some(Error::NodeDisconnected) && final(self).state == SessionState::Failed && unchanged_but_progress(*old(self), *final(self))
                && same_collections(*old(self), *final(self))),
    {
        if matches!(self.state, SessionState::Finished) || matches!(
            self.state,
            SessionState::Failed,
        ) {
            return None;
        }
        self.state = SessionState::Failed;
        Some(Error::NodeDisconnected)
    }

    /// Combine the collected partial decryptions by curve-point addition:
    /// in plain mode the sum is the document key point; in shadow mode it
    /// is the partially decrypted point, returned with the common point
    /// and the encrypted shadow coefficients for the client to finish.
    /// The combination succeeds exactly when no partial sum hits the
    /// point at infinity; with a single partial it always succeeds.
    pub fn decrypted_secret(self, common_point: Vec<u8>) -> (r: Result<
        DocumentEncryptedKeyShadow,
        Error,
    >)
        requires
            self.state == SessionState::Finished,
            self.partials@.len() == self.threshold + 1,
            all_points(self.partials.deep_view()),
        ensures
            r is Ok <==> sums_defined(
                self.partials.deep_view(),
                self.partials.deep_view().len() as int,
            ),
            r matches Ok(v) ==> ({
                &&& v.decrypted_secret@ == sum_points_spec(self.partials.deep_view())
                &&& (self.is_shadow ==> (v.common_point == Some(common_point) && v.decrypt_shadows
                    == Some(self.shadows)))
                &&& (!self.is_shadow ==> (v.common_point is None && v.decrypt_shadows is None))
            }),
            r matches Err(e) ==> e == Error::InvalidMessage,
    {
        let decrypted = match combine_points(&self.partials) {
            Ok(v) => v,
            Err(e) => {
                return Err(e);
            },
        };
        if self.is_shadow {
            Ok(
                DocumentEncryptedKeyShadow {
                    decrypted_secret: decrypted,
                    common_point: Some(common_point),
                    decrypt_shadows: Some(self.shadows),
                },
            )
        } else {
            Ok(
                DocumentEncryptedKeyShadow {
                    decrypted_secret: decrypted,
                    common_point: None,
                    decrypt_shadows: None,
                },
            )
        }
    }
}

/// The collected progress of a session — the confirmation counter and
/// the gathered partials and shadows — for transitions that touch none
/// of it.
pub open spec fn same_collections(a: Session, b: Session) -> bool {
    &&& a.confirmed == b.confirmed
    &&& a.responders == b.responders
    &&& a.partials == b.partials
    &&& a.shadows == b.shadows
}

/// The parts of a session that transitions leave alone.
pub open spec fn unchanged_but_progress(a: Session, b: Session) -> bool {
    &&& a.document == b.document
    &&& a.requestor == b.requestor
    &&& a.threshold == b.threshold
    &&& a.is_shadow == b.is_shadow
}

} // verus!
