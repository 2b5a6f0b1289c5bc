//! The session manager's registry: at most one live session per id and
//! kind; a second initiation under a live id is rejected as a duplicate.

use vstd::prelude::*;
use crate::key_server_cluster::Error;
use crate::encryption_session;
use crate::decryption_session;
use crate::util::{bytes_eq, contains_bytes};

verus! {

/// The live sessions of one node, keyed by session id (the document
/// address), one table per session kind.
pub struct ClusterSessions {
    encryption: Vec<(Vec<u8>, encryption_session::Session)>,
    decryption: Vec<(Vec<u8>, decryption_session::Session)>,
}

impl ClusterSessions {
    /// The ids of the live key-generation sessions.
    pub closed spec fn encryption_ids(&self) -> Seq<Seq<u8>> {
        self.encryption@.map_values(|e: (Vec<u8>, encryption_session::Session)| e.0@)
    }

    /// The ids of the live decryption sessions.
    pub closed spec fn decryption_ids(&self) -> Seq<Seq<u8>> {
        self.decryption@.map_values(|e: (Vec<u8>, decryption_session::Session)| e.0@)
    }

    /// A live key-generation session exists under the id.
    pub open spec fn has_encryption_session(&self, id: Seq<u8>) -> bool {
        contains_bytes(self.encryption_ids(), id)
    }

    /// A live decryption session exists under the id.
    pub open spec fn has_decryption_session(&self, id: Seq<u8>) -> bool {
        contains_bytes(self.decryption_ids(), id)
    }

    /// At most one live session per id and kind.
    pub closed spec fn wf(&self) -> bool {
        &&& forall|i: int, j: int|
            0 <= i < j < self.encryption_ids().len() ==> self.encryption_ids()[i]
                != self.encryption_ids()[j]
        &&& forall|i: int, j: int|
            0 <= i < j < self.decryption_ids().len() ==> self.decryption_ids()[i]
                != self.decryption_ids()[j]
    }

    /// An empty registry.
    pub fn new() -> (r: ClusterSessions)
        ensures
            r.wf(),
            forall|id: Seq<u8>| !r.has_encryption_session(id),
            forall|id: Seq<u8>| !r.has_decryption_session(id),
    {
        let r = ClusterSessions { encryption: Vec::new(), decryption: Vec::new() };
        proof {
            assert(r.encryption_ids().len() == 0);
            assert(r.decryption_ids().len() == 0);
        }
        r
    }

    /// Where an id sits in the key-generation table.
    fn find_encryption(&self, id: &Vec<u8>) -> (r: Option<usize>)
        ensures
            r matches Some(i) ==> (i < self.encryption@.len() && self.encryption_ids()[i as int]
                == id@),
            r is None ==> forall|i: int|
                0 <= i < self.encryption_ids().len() ==> self.encryption_ids()[i] != id@,
    {
        let mut i: usize = 0;
        while i < self.encryption.len()
            invariant
                0 <= i <= self.encryption@.len(),
                self.encryption_ids().len() == self.encryption@.len(),
                forall|j: int| 0 <= j < i ==> self.encryption_ids()[j] != id@,
            decreases self.encryption@.len() - i,
        {
            proof {
                assert(self.encryption_ids()[i as int] == self.encryption@[i as int].0@);
            }
            if bytes_eq(self.encryption[i].0.as_slice(), id.as_slice()) {
                return Some(i);
            }
            i = i + 1;
        }
        None
    }

    /// Where an id sits in the decryption table.
    fn find_decryption(&self, id: &Vec<u8>) -> (r: Option<usize>)
        ensures
            r matches Some(i) ==> (i < self.decryption@.len() && self.decryption_ids()[i as int]
                == id@),
            r is None ==> forall|i: int|
                0 <= i < self.decryption_ids().len() ==> self.decryption_ids()[i] != id@,
    {
        let mut i: usize = 0;
        while i < self.decryption.len()
            invariant
                0 <= i <= self.decryption@.len(),
                self.decryption_ids().len() == self.decryption@.len(),
                forall|j: int| 0 <= j < i ==> self.decryption_ids()[j] != id@,
            decreases self.decryption@.len() - i,
        {
            proof {
                assert(self.decryption_ids()[i as int] == self.decryption@[i as int].0@);
            }
            if bytes_eq(self.decryption[i].0.as_slice(), id.as_slice()) {
                return Some(i);
            }
            i = i + 1;
        }
        None
    }

    /// Admit a new key-generation session. A live session under the same
    /// id is rejected as a duplicate, and the registry is unchanged.
    pub fn insert_encryption_session(
        &mut self,
        id: Vec<u8>,
        session: encryption_session::Session,
    ) -> (r: Result<(), Error>)
        requires
            old(self).wf(),
        ensures
            final(self).wf(),
            r is Ok <==> !old(self).has_encryption_session(id@),
            r matches Err(e) ==> (e == Error::DuplicateSessionId && *final(self) == *old(self)),
            r is Ok ==> final(self).has_encryption_session(id@),
            forall|d: Seq<u8>|
                d != id@ ==> final(self).has_encryption_session(d) == old(
                    self,
                ).has_encryption_session(d),
            forall|d: Seq<u8>|
                final(self).has_decryption_session(d) == old(self).has_decryption_session(d),
    {
        let ghost prev = *self;
        match self.find_encryption(&id) {
            Some(_) => Err(Error::DuplicateSessionId),
            None => {
                let ghost idv = id@;
                self.encryption.push((id, session));
                proof {
                    assert(self.encryption_ids() =~= prev.encryption_ids().push(idv));
                    assert(self.decryption_ids() =~= prev.decryption_ids());
                    lemma_push_unique(prev.encryption_ids(), idv);
                }
                Ok(())
            },
        }
    }

    /// Admit a new decryption session. A live session under the same id
    /// is rejected as a duplicate, and the registry is unchanged.
    pub fn insert_decryption_session(
        &mut self,
        id: Vec<u8>,
        session: decryption_session::Session,
    ) -> (r: Result<(), Error>)
        requires
            old(self).wf(),
        ensures
            final(self).wf(),
            r is Ok <==> !old(self).has_decryption_session(id@),
            r matches Err(e) ==> (e == Error::DuplicateSessionId && *final(self) == *old(self)),
            r is Ok ==> final(self).has_decryption_session(id@),
            forall|d: Seq<u8>|
                d != id@ ==> final(self).has_decryption_session(d) == old(
                    self,
                ).has_decryption_session(d),
            forall|d: Seq<u8>|
                final(self).has_encryption_session(d) == old(self).has_encryption_session(d),
    {
        let ghost prev = *self;
        match self.find_decryption(&id) {
            Some(_) => Err(Error::DuplicateSessionId),
            None => {
                let ghost idv = id@;
                self.decryption.push((id, session));
                proof {
                    assert(self.decryption_ids() =~= prev.decryption_ids().push(idv));
                    assert(self.encryption_ids() =~= prev.encryption_ids());
                    lemma_push_unique(prev.decryption_ids(), idv);
                }
                Ok(())
            },
        }
    }

    /// Take the key-generation session under an id out of the registry;
    /// a message for an unknown session is answered with an
    /// invalid-session error.
    pub fn take_encryption_session(&mut self, id: &Vec<u8>) -> (r: Result<
        encryption_session::Session,
        Error,
    >)
        requires
            old(self).wf(),
        ensures
            final(self).wf(),
            r is Ok <==> old(self).has_encryption_session(id@),
            r matches Err(e) ==> (e == Error::InvalidSessionId && *final(self) == *old(self)),
            r is Ok ==> !final(self).has_encryption_session(id@),
            forall|d: Seq<u8>|
                d != id@ ==> final(self).has_encryption_session(d) == old(
                    self,
                ).has_encryption_session(d),
            forall|d: Seq<u8>|
                final(self).has_decryption_session(d) == old(self).has_decryption_session(d),
    {
        let ghost prev = *self;
        match self.find_encryption(id) {
            None => Err(Error::InvalidSessionId),
            Some(i) => {
                let entry = self.encryption.remove(i);
                proof {
                    assert(self.encryption_ids() =~= prev.encryption_ids().remove(i as int));
                    assert(self.decryption_ids() =~= prev.decryption_ids());
                    lemma_remove_unique(prev.encryption_ids(), i as int);
                }
                Ok(entry.1)
            },
        }
    }

    /// Take the decryption session under an id out of the registry.
    pub fn take_decryption_session(&mut self, id: &Vec<u8>) -> (r: Result<
        decryption_session::Session,
        Error,
    >)
        requires
            old(self).wf(),
        ensures
            final(self).wf(),
            r is Ok <==> old(self).has_decryption_session(id@),
            r matches Err(e) ==> (e == Error::InvalidSessionId && *final(self) == *old(self)),
            r is Ok ==> !final(self).has_decryption_session(id@),
            forall|d: Seq<u8>|
                d != id@ ==> final(self).has_decryption_session(d) == old(
                    self,
                ).has_decryption_session(d),
            forall|d: Seq<u8>|
                final(self).has_encryption_session(d) == old(self).has_encryption_session(d),
    {
        let ghost prev = *self;
        match self.find_decryption(id) {
            None => Err(Error::InvalidSessionId),
            Some(i) => {
                let entry = self.decryption.remove(i);
                proof {
                    assert(self.decryption_ids() =~= prev.decryption_ids().remove(i as int));
                    assert(self.encryption_ids() =~= prev.encryption_ids());
                    lemma_remove_unique(prev.decryption_ids(), i as int);
                }
                Ok(entry.1)
            },
        }
    }
}

/// What the manager does with one inbound session message.
#[derive(Debug, Clone, Copy, PartialEq, Eq, Structural)]
pub enum DispatchAction {
    /// A live session of the right kind exists: hand the payload to it.
    Forward,
    /// No session exists and the message legally opens one: construct it.
    CreateNew,
    /// No session exists and the message cannot open one: drop it and
    /// answer the sender with an invalid-session error.
    RejectInvalidSession,
    /// The kind is not a session message at all.
    NotSessionMessage,
}

/// The kinds that legally open a new session on a node: the two
/// initialization messages.
pub open spec fn is_initiate_kind(k: u8) -> bool {
    k == 50 || k == 100
}

impl ClusterSessions {
    /// Decide what to do with an inbound message of the given wire kind
    /// for the given session id: forward to the live session, construct
    /// one for a legal initiate, or reject.
    pub fn dispatch_session_message(&self, id: &Vec<u8>, kind: u8) -> (r: DispatchAction)
        ensures
            (50 <= kind <= 58) ==> r == (if self.has_encryption_session(id@) {
                DispatchAction::Forward
            } else if is_initiate_kind(kind) {
                DispatchAction::CreateNew
            } else {
                DispatchAction::RejectInvalidSession
            }),
            (100 <= kind <= 104) ==> r == (if self.has_decryption_session(id@) {
                DispatchAction::Forward
            } else if is_initiate_kind(kind) {
                DispatchAction::CreateNew
            } else {
                DispatchAction::RejectInvalidSession
            }),
            !(50 <= kind <= 58 || 100 <= kind <= 104) ==> r == DispatchAction::NotSessionMessage,
    {
        if 50 <= kind && kind <= 58 {
            if self.find_encryption(id).is_some() {
                DispatchAction::Forward
            } else if kind == 50 {
                DispatchAction::CreateNew
            } else {
                DispatchAction::RejectInvalidSession
            }
        } else if 100 <= kind && kind <= 104 {
            if self.find_decryption(id).is_some() {
                DispatchAction::Forward
            } else if kind == 100 {
                DispatchAction::CreateNew
            } else {
                DispatchAction::RejectInvalidSession
            }
        } else {
            DispatchAction::NotSessionMessage
        }
    }
}

/// Appending a fresh id to a duplicate-free sequence keeps it
/// duplicate-free, makes the id present, and keeps every other id as it
/// was.
proof fn lemma_push_unique(ids: Seq<Seq<u8>>, x: Seq<u8>)
    requires
        forall|a: int, b: int| 0 <= a < b < ids.len() ==> ids[a] != ids[b],
        !contains_bytes(ids, x),
    ensures
        forall|a: int, b: int|
            0 <= a < b < ids.push(x).len() ==> ids.push(x)[a] != ids.push(x)[b],
        contains_bytes(ids.push(x), x),
        forall|d: Seq<u8>| d != x ==> (#[trigger] contains_bytes(ids.push(x), d) <==> contains_bytes(ids, d)),
{
    let p = ids.push(x);
    assert(p[ids.len() as int] == x);
    assert forall|a: int, b: int| 0 <= a < b < p.len() implies p[a] != p[b] by {
        if b == ids.len() {
            if p[a] == x {
                assert(ids[a] == x);
                assert(contains_bytes(ids, x));
            }
        }
    }
    assert forall|d: Seq<u8>|
        d != x implies (#[trigger] contains_bytes(p, d) <==> contains_bytes(ids, d)) by {
        if contains_bytes(p, d) {
            let a = choose|a: int| 0 <= a < p.len() && p[a] == d;
            assert(a < ids.len());
            assert(ids[a] == d);
        }
        if contains_bytes(ids, d) {
            let a = choose|a: int| 0 <= a < ids.len() && ids[a] == d;
            assert(p[a] == d);
        }
    }
}

/// Removing a position from a duplicate-free sequence keeps it
/// duplicate-free, removes the id at that position, and keeps every
/// other id.
proof fn lemma_remove_unique(ids: Seq<Seq<u8>>, i: int)
    requires
        0 <= i < ids.len(),
        forall|a: int, b: int| 0 <= a < b < ids.len() ==> ids[a] != ids[b],
    ensures
        forall|a: int, b: int|
            0 <= a < b < ids.remove(i).len() ==> ids.remove(i)[a] != ids.remove(i)[b],
        forall|d: Seq<u8>|
            d != ids[i] ==> (#[trigger] contains_bytes(ids.remove(i), d) <==> contains_bytes(ids, d)),
        !contains_bytes(ids.remove(i), ids[i]),
{
    let rem = ids.remove(i);
    assert forall|d: Seq<u8>|
        d != ids[i] implies (#[trigger] contains_bytes(rem, d) <==> contains_bytes(ids, d)) by {
        if contains_bytes(rem, d) {
            let a = choose|a: int| 0 <= a < rem.len() && rem[a] == d;
            if a < i {
                assert(ids[a] == d);
            } else {
                assert(ids[a + 1] == d);
            }
        }
        if contains_bytes(ids, d) {
            let a = choose|a: int| 0 <= a < ids.len() && ids[a] == d;
            if a < i {
                assert(rem[a] == d);
            } else if a > i {
                assert(rem[a - 1] == d);
            }
        }
    }
    assert forall|a: int| 0 <= a < rem.len() implies rem[a] != ids[i] by {
        if a < i {
            assert(rem[a] == ids[a]);
        } else {
            assert(rem[a] == ids[a + 1]);
        }
    }
}

} // verus!
