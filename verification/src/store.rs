//! The record store: named collections, each an ordered list of stored
//! records, every record a string of bytes.

use vstd::prelude::*;

verus! {

/// The byte strings of a list of stored records.
pub open spec fn docs_view(docs: Seq<Vec<u8>>) -> Seq<Seq<u8>> {
    Seq::new(docs.len(), |i: int| docs[i]@)
}

/// The texts of a list of names.
pub open spec fn names_view(names: Seq<&str>) -> Seq<Seq<char>> {
    Seq::new(names.len(), |i: int| names[i]@)
}

/// One named collection.
#[derive(Debug)]
struct Entry {
    name: String,
    docs: Vec<Vec<u8>>,
}

/// The set of named collections. Seen as a map from a name to the records
/// stored under it, in the order in which they were stored.
#[derive(Debug)]
pub struct Collection {
    entries: Vec<Entry>,
}

/// The store as the rest of the service holds it.
pub type Db = Collection;

impl View for Collection {
    type V = Map<Seq<char>, Seq<Seq<u8>>>;

    closed spec fn view(&self) -> Map<Seq<char>, Seq<Seq<u8>>> {
        Map::new(
            |name: Seq<char>| exists|i: int| self.is_first(i, name),
            |name: Seq<char>| docs_view(self.entries@[self.spec_position(name)].docs@),
        )
    }
}

impl Collection {
    /// Whether the entry at `i` is the first one called `name`.
    spec fn is_first(&self, i: int, name: Seq<char>) -> bool {
        &&& 0 <= i < self.entries@.len()
        &&& self.entries@[i].name@ == name
        &&& forall|j: int| 0 <= j < i ==> self.entries@[j].name@ != name
    }

    /// Where the collection called `name` stands.
    spec fn spec_position(&self, name: Seq<char>) -> int {
        choose|i: int| self.is_first(i, name)
    }

    /// The first entry with a name is the one that the store shows under it.
    proof fn lemma_first(&self, i: int, name: Seq<char>)
        requires
            self.is_first(i, name),
        ensures
            self@.dom().contains(name),
            self.spec_position(name) == i,
            self@[name] == docs_view(self.entries@[i].docs@),
    {
        assert(self.is_first(self.spec_position(name), name));
    }

    /// A name that no entry bears is not in the store.
    proof fn lemma_absent(&self, name: Seq<char>)
        requires
            forall|j: int| 0 <= j < self.entries@.len() ==> self.entries@[j].name@ != name,
        ensures
            !self@.dom().contains(name),
    {
    }

    /// A name in the store has a first entry.
    proof fn lemma_present(&self, name: Seq<char>)
        requires
            self@.dom().contains(name),
        ensures
            self.is_first(self.spec_position(name), name),
    {
    }

    fn position(&self, name: &str) -> (at: Option<usize>)
        ensures
            match at {
                Some(i) => self.is_first(i as int, name@),
                None => {
                    &&& !self@.dom().contains(name@)
                    &&& forall|j: int|
                        0 <= j < self.entries@.len() ==> self.entries@[j].name@ != name@
                },
            },
    {
        let key = String::from_str(name);
        let mut i: usize = 0;
        while i < self.entries.len()
            invariant
                i <= self.entries@.len(),
                key@ == name@,
                forall|j: int| 0 <= j < i ==> self.entries@[j].name@ != name@,
            decreases self.entries@.len() - i,
        {
            if self.entries[i].name == key {
                return Some(i);
            }
            i += 1;
        }
        proof {
            self.lemma_absent(name@);
        }
        None
    }

    /// A store with no collection.
    pub fn new() -> (db: Collection)
        ensures
            db@ == Map::<Seq<char>, Seq<Seq<u8>>>::empty(),
    {
        let db = Collection { entries: Vec::new() };
        assert(db@ =~= Map::<Seq<char>, Seq<Seq<u8>>>::empty());
        db
    }

    /// Whether a collection called `name` exists.
    pub fn contains(&self, name: &str) -> (found: bool)
        ensures
            found == self@.dom().contains(name@),
    {
        let at = self.position(name);
        proof {
            if let Some(i) = at {
                self.lemma_first(i as int, name@);
            }
        }
        at.is_some()
    }

    /// The records of the collection called `name`, if it exists.
    pub fn get(&self, name: &str) -> (found: Option<&Vec<Vec<u8>>>)
        ensures
            match found {
                Some(docs) => self@.dom().contains(name@) && docs_view(docs@) == self@[name@],
                None => !self@.dom().contains(name@),
            },
    {
        match self.position(name) {
            Some(i) => {
                proof {
                    self.lemma_first(i as int, name@);
                }
                Some(&self.entries[i].docs)
            },
            None => None,
        }
    }

    /// Puts the records under `name`, in place of what was there.
    pub fn insert(&mut self, name: &str, docs: Vec<Vec<u8>>)
        ensures
            final(self)@ == old(self)@.insert(name@, docs_view(docs@)),
    {
        let at = self.position(name);
        match at {
            Some(i) => {
                self.entries[i].docs = docs;
                proof {
                    let before = old(self).entries@;
                    let after = self.entries@;
                    assert(after.len() == before.len());
                    assert(forall|j: int| 0 <= j < after.len() ==> after[j].name == before[j].name);
                    assert forall|j: int, n: Seq<char>| self.is_first(j, n) == old(self).is_first(
                        j,
                        n,
                    ) by {}
                    self.lemma_first(i as int, name@);
                    assert forall|n: Seq<char>| n != name@ && old(self)@.dom().contains(n)
                        implies #[trigger] self@[n] == old(self)@[n] by {
                        old(self).lemma_present(n);
                        let k = old(self).spec_position(n);
                        assert(self.is_first(k, n));
                        self.lemma_first(k, n);
                    }
                    assert(self@ =~= old(self)@.insert(name@, docs_view(docs@)));
                }
            },
            None => {
                let entry = Entry { name: String::from_str(name), docs };
                self.entries.push(entry);
                proof {
                    let before = old(self).entries@;
                    let after = self.entries@;
                    let last = before.len() as int;
                    assert(forall|j: int| 0 <= j < last ==> after[j] == before[j]);
                    assert(forall|j: int| 0 <= j < last ==> before[j].name@ != name@);
                    assert(self.is_first(last, name@));
                    self.lemma_first(last, name@);
                    assert forall|n: Seq<char>| n != name@ implies (self@.dom().contains(n)
                        == old(self)@.dom().contains(n)) by {
                        if old(self)@.dom().contains(n) {
                            old(self).lemma_present(n);
                            let k = old(self).spec_position(n);
                            assert(self.is_first(k, n));
                        }
                        if self@.dom().contains(n) {
                            self.lemma_present(n);
                            let k = self.spec_position(n);
                            assert(old(self).is_first(k, n));
                        }
                    }
                    assert forall|n: Seq<char>| n != name@ && old(self)@.dom().contains(n)
                        implies #[trigger] self@[n] == old(self)@[n] by {
                        old(self).lemma_present(n);
                        let k = old(self).spec_position(n);
                        assert(self.is_first(k, n));
                        self.lemma_first(k, n);
                    }
                    assert(self@ =~= old(self)@.insert(name@, docs_view(docs@)));
                }
            },
        }
    }

    /// Appends a record to the collection called `name`.
    pub fn push(&mut self, name: &str, doc: Vec<u8>)
        requires
            old(self)@.dom().contains(name@),
        ensures
            final(self)@ == old(self)@.insert(name@, old(self)@[name@].push(doc@)),
    {
        let at = self.position(name);
        match at {
            Some(i) => {
                self.entries[i].docs.push(doc);
                proof {
                    let before = old(self).entries@;
                    let after = self.entries@;
                    assert(after.len() == before.len());
                    assert(forall|j: int| 0 <= j < after.len() ==> after[j].name == before[j].name);
                    assert(after[i as int].docs@ == before[i as int].docs@.push(doc));
                    assert(forall|j: int|
                        0 <= j < after.len() && j != i ==> after[j].docs == before[j].docs);
                    assert forall|j: int, n: Seq<char>| self.is_first(j, n) == old(self).is_first(
                        j,
                        n,
                    ) by {}
                    self.lemma_first(i as int, name@);
                    old(self).lemma_first(i as int, name@);
                    assert(self@[name@] =~= old(self)@[name@].push(doc@));
                    assert forall|n: Seq<char>| n != name@ && old(self)@.dom().contains(n)
                        implies #[trigger] self@[n] == old(self)@[n] by {
                        old(self).lemma_present(n);
                        let k = old(self).spec_position(n);
                        assert(self.is_first(k, n));
                        self.lemma_first(k, n);
                    }
                    assert(self@ =~= old(self)@.insert(name@, old(self)@[name@].push(doc@)));
                }
            },
            None => {},
        }
    }

    /// Puts a record in the place of the one at `index` in the collection
    /// called `name`.
    pub fn replace(&mut self, name: &str, index: usize, doc: Vec<u8>)
        requires
            old(self)@.dom().contains(name@),
            index < old(self)@[name@].len(),
        ensures
            final(self)@ == old(self)@.insert(name@, old(self)@[name@].update(index as int, doc@)),
    {
        let at = self.position(name);
        match at {
            Some(i) => {
                proof {
                    old(self).lemma_first(i as int, name@);
                }
                self.entries[i].docs[index] = doc;
                proof {
                    let before = old(self).entries@;
                    let after = self.entries@;
                    assert(after.len() == before.len());
                    assert(forall|j: int| 0 <= j < after.len() ==> after[j].name == before[j].name);
                    assert(after[i as int].docs@ == before[i as int].docs@.update(
                        index as int,
                        doc,
                    ));
                    assert(forall|j: int|
                        0 <= j < after.len() && j != i ==> after[j].docs == before[j].docs);
                    assert forall|j: int, n: Seq<char>| self.is_first(j, n) == old(self).is_first(
                        j,
                        n,
                    ) by {}
                    self.lemma_first(i as int, name@);
                    assert(self@[name@] =~= old(self)@[name@].update(index as int, doc@));
                    assert forall|n: Seq<char>| n != name@ && old(self)@.dom().contains(n)
                        implies #[trigger] self@[n] == old(self)@[n] by {
                        old(self).lemma_present(n);
                        let k = old(self).spec_position(n);
                        assert(self.is_first(k, n));
                        self.lemma_first(k, n);
                    }
                    assert(self@ =~= old(self)@.insert(
                        name@,
                        old(self)@[name@].update(index as int, doc@),
                    ));
                }
            },
            None => {},
        }
    }
}

/// A store that holds each of the named collections, empty.
pub fn new_db(collections: Vec<&str>) -> (db: Db)
    ensures
        forall|name: Seq<char>|
            db@.dom().contains(name) <==> names_view(collections@).contains(name),
        forall|name: Seq<char>| db@.dom().contains(name) ==> db@[name] == Seq::<Seq<u8>>::empty(),
        forall|i: int|
            0 <= i < collections@.len() ==> db@.dom().contains(#[trigger] collections@[i]@),
{
    let mut db = Collection::new();
    let mut i: usize = 0;
    while i < collections.len()
        invariant
            i <= collections@.len(),
            forall|name: Seq<char>|
                db@.dom().contains(name) <==> names_view(collections@).take(i as int).contains(
                    name,
                ),
            forall|name: Seq<char>|
                db@.dom().contains(name) ==> db@[name] == Seq::<Seq<u8>>::empty(),
        decreases collections@.len() - i,
    {
        let ghost before = db@;
        let name = collections[i];
        let empty: Vec<Vec<u8>> = Vec::new();
        assert(docs_view(empty@) =~= Seq::<Seq<u8>>::empty());
        db.insert(name, empty);
        proof {
            let names = names_view(collections@);
            let sofar = names.take(i as int);
            let upto = names.take(i as int + 1);
            assert(names[i as int] == name@);
            assert(upto =~= sofar.push(name@));
            assert forall|n: Seq<char>| db@.dom().contains(n) <==> upto.contains(n) by {
                if upto.contains(n) {
                    let k = choose|k: int| 0 <= k < upto.len() && upto[k] == n;
                    if k < i {
                        assert(sofar[k] == n);
                    }
                }
                if before.dom().contains(n) {
                    let k = choose|k: int| 0 <= k < sofar.len() && sofar[k] == n;
                    assert(upto[k] == n);
                }
                if n == name@ {
                    assert(upto[i as int] == n);
                }
            }
        }
        i += 1;
    }
    proof {
        assert(names_view(collections@).take(i as int) =~= names_view(collections@));
        assert forall|k: int| 0 <= k < collections@.len() implies db@.dom().contains(
            #[trigger] collections@[k]@,
        ) by {
            assert(names_view(collections@)[k] == collections@[k]@);
        }
    }
    db
}

} // verus!
