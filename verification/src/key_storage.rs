//! Persisted per-document key shares, and the storage that the sessions
//! write them to. A node stores at most one share per document: the store
//! is a map keyed by the document address.

use vstd::prelude::*;
use crate::key_server_cluster::Error;
use crate::crypto::is_scalar_bytes;
use crate::util::bytes_eq;

verus! {

/// The share of a document key that one node persists after generation.
#[derive(Debug, Clone)]
pub struct DocumentKeyShare {
    /// Decryption threshold: `threshold + 1` shares reconstruct.
    pub threshold: usize,
    /// Author's public key.
    pub author: Vec<u8>,
    /// Shared common point of the encrypted document key.
    pub common_point: Vec<u8>,
    /// The encrypted document key point.
    pub encrypted_point: Vec<u8>,
    /// The public coefficients of the joint polynomial.
    pub polynom1_public: Vec<Vec<u8>>,
    /// The share this node holds. No other node's share is ever stored.
    pub secret_share: Vec<u8>,
    /// The id number of every participating node, this node included.
    pub id_numbers: Vec<(Vec<u8>, Vec<u8>)>,
}

impl DocumentKeyShare {
    /// The node-id column of the participant list.
    pub open spec fn node_ids(&self) -> Seq<Seq<u8>> {
        self.id_numbers@.map_values(|e: (Vec<u8>, Vec<u8>)| e.0@)
    }

    /// Participants are unique, the share is a scalar in range, and every
    /// participant's id number is a nonzero scalar.
    pub open spec fn wf(&self) -> bool {
        &&& forall|i: int, j: int|
            0 <= i < j < self.node_ids().len() ==> self.node_ids()[i] != self.node_ids()[j]
        &&& is_scalar_bytes(self.secret_share@)
        &&& forall|i: int|
            0 <= i < self.id_numbers@.len() ==> is_scalar_bytes(
                (#[trigger] self.id_numbers@[i]).1@,
            )
        &&& self.threshold + 1 <= self.id_numbers@.len()
    }
}

/// In-memory key storage: a map from document address to the single
/// share this node holds for it.
pub struct KeyStorage {
    entries: Vec<(Vec<u8>, DocumentKeyShare)>,
}

impl KeyStorage {
    /// The document-address column.
    pub closed spec fn docs(&self) -> Seq<Seq<u8>> {
        self.entries@.map_values(|e: (Vec<u8>, DocumentKeyShare)| e.0@)
    }

    /// The share stored under a document address, if any.
    pub closed spec fn share_at(&self, doc: Seq<u8>) -> Option<DocumentKeyShare> {
        if exists|i: int| 0 <= i < self.docs().len() && self.docs()[i] == doc {
            let i = choose|i: int| 0 <= i < self.docs().len() && self.docs()[i] == doc;
            Some(self.entries@[i].1)
        } else {
            None::<DocumentKeyShare>
        }
    }

    /// Whether a share is stored for the document.
    pub open spec fn contains_spec(&self, doc: Seq<u8>) -> bool {
        self.share_at(doc) is Some
    }

    /// Each document address appears at most once: a node stores at most
    /// one share per document.
    pub closed spec fn wf(&self) -> bool {
        forall|i: int, j: int|
            0 <= i < j < self.docs().len() ==> self.docs()[i] != self.docs()[j]
    }

    /// An empty storage.
    pub fn new() -> (r: KeyStorage)
        ensures
            r.wf(),
            forall|d: Seq<u8>| !r.contains_spec(d),
    {
        let r = KeyStorage { entries: Vec::new() };
        proof {
            assert forall|d: Seq<u8>| !r.contains_spec(d) by {
                assert(r.docs().len() == 0);
            }
        }
        r
    }

    /// The position of a document in the entry list, if present.
    fn find(&self, document: &Vec<u8>) -> (r: Option<usize>)
        ensures
            r matches Some(i) ==> (i < self.entries@.len() && self.docs()[i as int] == document@),
            r is None ==> forall|i: int| 0 <= i < self.docs().len() ==> self.docs()[i] != document@,
    {
        let mut i: usize = 0;
        while i < self.entries.len()
            invariant
                0 <= i <= self.entries@.len(),
                self.docs().len() == self.entries@.len(),
                forall|j: int| 0 <= j < i ==> self.docs()[j] != document@,
            decreases self.entries@.len() - i,
        {
            if bytes_eq(self.entries[i].0.as_slice(), document.as_slice()) {
                proof {
                    assert(self.docs()[i as int] == self.entries@[i as int].0@);
                }
                return Some(i);
            }
            proof {
                assert(self.docs()[i as int] == self.entries@[i as int].0@);
            }
            i = i + 1;
        }
        None
    }

    /// Insert the share generated for a document, replacing any earlier
    /// one: afterwards the document holds exactly this share, and every
    /// other document is unchanged.
    pub fn insert(&mut self, document: Vec<u8>, share: DocumentKeyShare)
        requires
            old(self).wf(),
        ensures
            final(self).wf(),
            final(self).share_at(document@) == Some(share),
            forall|d: Seq<u8>|
                d != document@ ==> final(self).share_at(d) == old(self).share_at(d),
    {
        let ghost prev = *self;
        let found = self.find(&document);
        match found {
            Some(i) => {
                self.entries[i] = (document, share);
                proof {
                    assert(self.docs() =~= prev.docs().update(i as int, prev.docs()[i as int]));
                    lemma_share_at_update(prev, *self, i as int, share);
                }
            },
            None => {
                self.entries.push((document, share));
                proof {
                    assert(self.docs() =~= prev.docs().push(self.entries@.last().0@));
                    lemma_share_at_push(prev, *self, share);
                }
            },
        }
    }

    /// The share stored for a document.
    pub fn get(&self, document: &Vec<u8>) -> (r: Option<&DocumentKeyShare>)
        requires
            self.wf(),
        ensures
            r matches Some(s) ==> self.share_at(document@) == Some(*s),
            r is None ==> self.share_at(document@) is None,
    {
        match self.find(document) {
            Some(i) => {
                proof {
                    lemma_share_at_found(*self, document@, i as int);
                }
                Some(&self.entries[i].1)
            },
            None => None,
        }
    }

    /// Whether a share is stored for a document.
    pub fn contains(&self, document: &Vec<u8>) -> (r: bool)
        requires
            self.wf(),
        ensures
            r == self.contains_spec(document@),
    {
        match self.find(document) {
            Some(i) => {
                proof {
                    lemma_share_at_found(*self, document@, i as int);
                }
                true
            },
            None => false,
        }
    }
}

/// In a storage whose documents are unique, the entry found at a
/// position is the one `share_at` yields.
proof fn lemma_share_at_found(s: KeyStorage, doc: Seq<u8>, i: int)
    requires
        s.wf(),
        0 <= i < s.docs().len(),
        s.docs()[i] == doc,
    ensures
        s.share_at(doc) == Some(s.entries@[i].1),
{
    let w = choose|w: int| 0 <= w < s.docs().len() && s.docs()[w] == doc;
    assert(w == i);
}

/// Updating the entry at the document's position keeps uniqueness and
/// rewrites only that document's share.
proof fn lemma_share_at_update(prev: KeyStorage, cur: KeyStorage, i: int, share: DocumentKeyShare)
    requires
        prev.wf(),
        0 <= i < prev.docs().len(),
        cur.entries@ == prev.entries@.update(i, (cur.entries@[i].0, share)),
        cur.entries@[i].0@ == prev.docs()[i],
        cur.entries@[i].1 == share,
    ensures
        cur.wf(),
        cur.share_at(prev.docs()[i]) == Some(share),
        forall|d: Seq<u8>| d != prev.docs()[i] ==> cur.share_at(d) == prev.share_at(d),
{
    assert(cur.docs() =~= prev.docs());
    lemma_share_at_found(cur, prev.docs()[i], i);
    assert forall|d: Seq<u8>| d != prev.docs()[i] implies cur.share_at(d) == prev.share_at(d) by {
        if exists|w: int| 0 <= w < prev.docs().len() && prev.docs()[w] == d {
            let w = choose|w: int| 0 <= w < prev.docs().len() && prev.docs()[w] == d;
            lemma_share_at_found(prev, d, w);
            lemma_share_at_found(cur, d, w);
        }
    }
}

/// Appending a fresh document keeps uniqueness, stores its share, and
/// leaves every other document unchanged.
proof fn lemma_share_at_push(prev: KeyStorage, cur: KeyStorage, share: DocumentKeyShare)
    requires
        prev.wf(),
        cur.entries@ == prev.entries@.push(cur.entries@.last()),
        cur.entries@.len() == prev.entries@.len() + 1,
        cur.entries@.last().1 == share,
        forall|i: int| 0 <= i < prev.docs().len() ==> prev.docs()[i] != cur.entries@.last().0@,
    ensures
        cur.wf(),
        cur.share_at(cur.entries@.last().0@) == Some(share),
        forall|d: Seq<u8>|
            d != cur.entries@.last().0@ ==> cur.share_at(d) == prev.share_at(d),
{
    let doc = cur.entries@.last().0@;
    let n = prev.docs().len() as int;
    assert(cur.docs() =~= prev.docs().push(doc));
    assert(forall|i: int| 0 <= i < n ==> cur.docs()[i] == prev.docs()[i]);
    assert(cur.docs()[n] == doc);
    lemma_share_at_found(cur, doc, n);
    assert forall|d: Seq<u8>| d != doc implies cur.share_at(d) == prev.share_at(d) by {
        if exists|w: int| 0 <= w < prev.docs().len() && prev.docs()[w] == d {
            let w = choose|w: int| 0 <= w < prev.docs().len() && prev.docs()[w] == d;
            lemma_share_at_found(prev, d, w);
            lemma_share_at_found(cur, d, w);
        } else {
            assert(forall|w: int| 0 <= w < cur.docs().len() ==> cur.docs()[w] != d);
        }
    }
}

} // verus!
