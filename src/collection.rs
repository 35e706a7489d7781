//! An in-memory document collection keyed by identifier: the store that the
//! repository runs on, with insert-one, find-one, remove-one and find-all.

use vstd::prelude::*;
use crate::models::Document;
use crate::object_id::ObjectId;

verus! {

/// Why the store refused an operation.
#[derive(Debug)]
pub enum StoreFailure {
    /// A document with that identifier is already stored.
    DuplicateKey,
}

/// The key under which a stored document lies: the bytes of its identifier.
pub open spec fn key_of<T: Document>(d: T) -> Seq<u8> {
    d.doc_id()->0@
}

/// Every document of `m` carries an identifier, and lies under that identifier's bytes.
pub open spec fn keyed<T: Document>(m: Map<Seq<u8>, T>) -> bool {
    forall|k: Seq<u8>| #[trigger] m.contains_key(k) ==> m[k].doc_id() is Some && key_of(m[k]) == k
}

/// A collection of documents with pairwise distinct identifiers.
pub struct Collection<T: Document> {
    docs: Vec<T>,
    contents: Ghost<Map<Seq<u8>, T>>,
}

impl<T: Document> View for Collection<T> {
    type V = Map<Seq<u8>, T>;

    closed spec fn view(&self) -> Map<Seq<u8>, T> {
        self.contents@
    }
}

impl<T: Document> Collection<T> {
    pub closed spec fn wf(&self) -> bool {
        &&& forall|i: int| 0 <= i < self.docs@.len() ==> (#[trigger] self.docs@[i]).doc_id() is Some
        &&& forall|i: int|
            0 <= i < self.docs@.len() ==> self.contents@.contains_key(key_of(#[trigger] self.docs@[i]))
                && self.contents@[key_of(self.docs@[i])] == self.docs@[i]
        &&& forall|k: Seq<u8>|
            #[trigger] self.contents@.contains_key(k) ==> exists|i: int|
                0 <= i < self.docs@.len() && key_of(#[trigger] self.docs@[i]) == k
        &&& forall|i: int, j: int|
            0 <= i < j < self.docs@.len() ==> key_of(#[trigger] self.docs@[i]) != key_of(
                #[trigger] self.docs@[j],
            )
    }

    pub proof fn lemma_keyed(&self)
        requires
            self.wf(),
        ensures
            keyed(self@),
    {
        assert forall|k: Seq<u8>| #[trigger] self@.contains_key(k) implies self@[k].doc_id() is Some
            && key_of(self@[k]) == k by {
            let i = choose|i: int| 0 <= i < self.docs@.len() && key_of(#[trigger] self.docs@[i]) == k;
            assert(self.docs@[i].doc_id() is Some);
        }
    }

    /// The stored documents in the order the collection keeps them.
    pub closed spec fn in_order(&self) -> Seq<T> {
        self.docs@
    }

    /// An empty collection.
    pub fn new() -> (r: Collection<T>)
        ensures
            r.wf(),
            r@ == Map::<Seq<u8>, T>::empty(),
    {
        Collection { docs: Vec::new(), contents: Ghost(Map::empty()) }
    }

    fn position(&self, id: &ObjectId) -> (r: Option<usize>)
        requires
            self.wf(),
        ensures
            r is None <==> !self@.contains_key(id@),
            r matches Some(i) ==> i < self.docs@.len() && key_of(self.docs@[i as int]) == id@,
    {
        let mut i: usize = 0;
        while i < self.docs.len()
            invariant
                self.wf(),
                0 <= i <= self.docs@.len(),
                forall|j: int| 0 <= j < i ==> key_of(#[trigger] self.docs@[j]) != id@,
            decreases self.docs@.len() - i,
        {
            let d = &self.docs[i];
            match d.id() {
                Some(k) => {
                    if k.same_as(id) {
                        return Some(i);
                    }
                },
                None => {},
            }
            i = i + 1;
        }
        proof {
            if self@.contains_key(id@) {
                let j = choose|j: int| 0 <= j < self.docs@.len() && key_of(#[trigger] self.docs@[j]) == id@;
                assert(key_of(self.docs@[j]) != id@);
            }
        }
        None
    }

    /// The document stored under `id`, if any.
    pub fn find_one(&self, id: &ObjectId) -> (r: Option<&T>)
        requires
            self.wf(),
        ensures
            r is Some <==> self@.contains_key(id@),
            r matches Some(d) ==> *d == self@[id@],
    {
        match self.position(id) {
            Some(i) => Some(&self.docs[i]),
            None => None,
        }
    }

    /// Stores a document under its own identifier, unless one is stored there already.
    pub fn insert_one(&mut self, doc: T) -> (r: Result<(), StoreFailure>)
        requires
            old(self).wf(),
            doc.doc_id() is Some,
        ensures
            final(self).wf(),
            r is Err <==> old(self)@.contains_key(key_of(doc)),
            r is Err ==> final(self)@ == old(self)@,
            r is Ok ==> final(self)@ == old(self)@.insert(key_of(doc), doc),
    {
        let id = match doc.id() {
            Some(k) => k,
            None => { return Err(StoreFailure::DuplicateKey); },
        };
        match self.position(&id) {
            Some(_) => Err(StoreFailure::DuplicateKey),
            None => {
                let ghost before = self.docs@;
                self.docs.push(doc);
                self.contents = Ghost(self.contents@.insert(id@, doc));
                proof {
                    let n = before.len() as int;
                    assert(self.docs@[n] == doc);
                    assert forall|k: Seq<u8>| #[trigger] self.contents@.contains_key(k) implies exists|i: int|
                        0 <= i < self.docs@.len() && key_of(#[trigger] self.docs@[i]) == k by {
                        if k == id@ {
                            assert(key_of(self.docs@[n]) == k);
                        } else {
                            assert(old(self).contents@.contains_key(k));
                            let i = choose|i: int| 0 <= i < before.len() && key_of(#[trigger] before[i]) == k;
                            assert(self.docs@[i] == before[i]);
                        }
                    }
                    assert forall|i: int| 0 <= i < before.len() implies key_of(#[trigger] self.docs@[i]) != id@ by {
                        assert(self.docs@[i] == before[i]);
                        assert(old(self).contents@.contains_key(key_of(before[i])));
                    }
                }
                Ok(())
            },
        }
    }

    /// Removes the document stored under `id` and hands it back; `None`, and
    /// nothing changed, where there is none.
    pub fn remove_one(&mut self, id: &ObjectId) -> (r: Option<T>)
        requires
            old(self).wf(),
        ensures
            final(self).wf(),
            r is Some <==> old(self)@.contains_key(id@),
            r is None ==> final(self)@ == old(self)@,
            r matches Some(d) ==> d == old(self)@[id@] && final(self)@ == old(self)@.remove(id@),
    {
        match self.position(id) {
            None => None,
            Some(p) => {
                let ghost before = self.docs@;
                let d = self.docs.remove(p);
                self.contents = Ghost(self.contents@.remove(id@));
                proof {
                    let pi = p as int;
                    assert(self.docs@ == before.remove(pi));
                    assert forall|i: int| 0 <= i < self.docs@.len() implies key_of(#[trigger] self.docs@[i]) != id@ by {
                        if i < pi {
                            assert(self.docs@[i] == before[i]);
                        } else {
                            assert(self.docs@[i] == before[i + 1]);
                        }
                    }
                    assert forall|k: Seq<u8>| #[trigger] self.contents@.contains_key(k) implies exists|i: int|
                        0 <= i < self.docs@.len() && key_of(#[trigger] self.docs@[i]) == k by {
                        assert(old(self).contents@.contains_key(k));
                        let j = choose|j: int| 0 <= j < before.len() && key_of(#[trigger] before[j]) == k;
                        assert(j != pi);
                        if j < pi {
                            assert(self.docs@[j] == before[j]);
                        } else {
                            assert(self.docs@[j - 1] == before[j]);
                        }
                    }
                    assert forall|i: int, j: int| 0 <= i < j < self.docs@.len() implies key_of(
                        #[trigger] self.docs@[i],
                    ) != key_of(#[trigger] self.docs@[j]) by {
                        let oi = if i < pi { i } else { i + 1 };
                        let oj = if j < pi { j } else { j + 1 };
                        assert(self.docs@[i] == before[oi]);
                        assert(self.docs@[j] == before[oj]);
                    }
                    assert forall|i: int| 0 <= i < self.docs@.len() implies self.contents@.contains_key(
                        key_of(#[trigger] self.docs@[i]),
                    ) && self.contents@[key_of(self.docs@[i])] == self.docs@[i] by {
                        let oi = if i < pi { i } else { i + 1 };
                        assert(self.docs@[i] == before[oi]);
                    }
                    assert(d == before[pi]);
                }
                Some(d)
            },
        }
    }

    /// Every stored document, each once, in the order the collection keeps them.
    pub fn find_all(&self) -> (r: &Vec<T>)
        requires
            self.wf(),
        ensures
            r@ == self.in_order(),
            forall|i: int| 0 <= i < r@.len() ==> self@.contains_key(key_of(#[trigger] r@[i]))
                && self@[key_of(r@[i])] == r@[i],
            forall|k: Seq<u8>| #[trigger] self@.contains_key(k) ==> exists|i: int|
                0 <= i < r@.len() && key_of(#[trigger] r@[i]) == k,
            forall|i: int, j: int| 0 <= i < j < r@.len() ==> key_of(#[trigger] r@[i]) != key_of(
                #[trigger] r@[j],
            ),
            self@ == Map::<Seq<u8>, T>::empty() ==> r@.len() == 0,
    {
        if self.docs.len() > 0 {
            assert(self@.contains_key(key_of(self.docs@[0])));
        }
        &self.docs
    }
}

} // verus!
