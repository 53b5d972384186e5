//! The pending call table: the calls in flight, each under its correlation id
//! with the completion slot that its caller waits on.
//!
//! The table is a finite map from id to slot. It is kept as a vector of
//! entries in which no id occurs twice, which is the type's invariant.

use vstd::prelude::*;

verus! {

/// One call in flight: its correlation id and its completion slot.
#[derive(Debug)]
pub struct Pending<T> {
    pub id: String,
    pub slot: T,
}

/// No id occurs twice among the entries.
pub open spec fn distinct_ids<T>(es: Seq<Pending<T>>) -> bool {
    forall|i: int, j: int|
        0 <= i < es.len() && 0 <= j < es.len() && i != j ==> (#[trigger] es[i]).id@ != (
        #[trigger] es[j]).id@
}

/// Some entry carries the id.
pub open spec fn has_id<T>(es: Seq<Pending<T>>, id: Seq<char>) -> bool {
    exists|i: int| 0 <= i < es.len() && (#[trigger] es[i]).id@ == id
}

/// The position of an entry that carries the id.
pub open spec fn index_of_id<T>(es: Seq<Pending<T>>, id: Seq<char>) -> int {
    choose|i: int| 0 <= i < es.len() && (#[trigger] es[i]).id@ == id
}

/// The map that a sequence of entries stands for.
pub open spec fn table_of<T>(es: Seq<Pending<T>>) -> Map<Seq<char>, T> {
    Map::new(|id: Seq<char>| has_id(es, id), |id: Seq<char>| es[index_of_id(es, id)].slot)
}

/// Appending an entry with a new id adds it to the map.
pub proof fn lemma_table_push<T>(es: Seq<Pending<T>>, e: Pending<T>)
    requires
        distinct_ids(es),
        !has_id(es, e.id@),
    ensures
        distinct_ids(es.push(e)),
        table_of(es.push(e)) == table_of(es).insert(e.id@, e.slot),
{
    let es2 = es.push(e);
    let n = es.len() as int;
    assert(es2[n] == e);
    assert forall|i: int, j: int| 0 <= i < es2.len() && 0 <= j < es2.len() && i != j implies (
    #[trigger] es2[i]).id@ != (#[trigger] es2[j]).id@ by {
        if i < n && j < n {
            assert(es2[i] == es[i] && es2[j] == es[j]);
        } else if i < n {
            assert(es2[i] == es[i]);
        } else {
            assert(es2[j] == es[j]);
        }
    }
    assert forall|id: Seq<char>| has_id(es2, id) <==> (has_id(es, id) || id == e.id@) by {
        if has_id(es2, id) {
            let i = index_of_id(es2, id);
            if i < n {
                assert(es[i] == es2[i]);
            }
        }
        if has_id(es, id) {
            let i = index_of_id(es, id);
            assert(es2[i] == es[i]);
        }
    }
    assert forall|id: Seq<char>| has_id(es2, id) implies #[trigger] table_of(es2)[id] == table_of(
        es,
    ).insert(e.id@, e.slot)[id] by {
        let i = index_of_id(es2, id);
        if id == e.id@ {
            if i < n {
                assert(es2[i] == es[i]);
            }
        } else {
            assert(es2[i] == es[i]);
            let j = index_of_id(es, id);
            assert(es2[j] == es[j]);
        }
    }
    assert(table_of(es2) =~= table_of(es).insert(e.id@, e.slot));
}

/// Taking an entry out takes its id out of the map.
pub proof fn lemma_table_remove<T>(es: Seq<Pending<T>>, at: int)
    requires
        distinct_ids(es),
        0 <= at < es.len(),
    ensures
        distinct_ids(es.remove(at)),
        table_of(es.remove(at)) == table_of(es).remove(es[at].id@),
{
    let es2 = es.remove(at);
    let gone = es[at].id@;
    assert forall|i: int| 0 <= i < es2.len() implies #[trigger] es2[i] == es[if i < at {
        i
    } else {
        i + 1
    }] by {}
    assert forall|i: int, j: int| 0 <= i < es2.len() && 0 <= j < es2.len() && i != j implies (
    #[trigger] es2[i]).id@ != (#[trigger] es2[j]).id@ by {
        let a = if i < at { i } else { i + 1 };
        let b = if j < at { j } else { j + 1 };
        assert(es2[i] == es[a] && es2[j] == es[b]);
    }
    assert forall|id: Seq<char>| has_id(es2, id) <==> (has_id(es, id) && id != gone) by {
        if has_id(es2, id) {
            let i = index_of_id(es2, id);
            let a = if i < at { i } else { i + 1 };
            assert(es2[i] == es[a]);
        }
        if has_id(es, id) && id != gone {
            let a = index_of_id(es, id);
            let i = if a < at { a } else { a - 1 };
            assert(es2[i] == es[a]);
        }
    }
    assert forall|id: Seq<char>| has_id(es2, id) implies #[trigger] table_of(es2)[id] == table_of(
        es,
    ).remove(gone)[id] by {
        let i = index_of_id(es2, id);
        let a = if i < at { i } else { i + 1 };
        assert(es2[i] == es[a]);
        let b = index_of_id(es, id);
        assert(a == b);
    }
    assert(table_of(es2) =~= table_of(es).remove(gone));
}

/// A sequence of entries with distinct ids stands for a finite map with as
/// many keys as there are entries.
pub proof fn lemma_table_len<T>(es: Seq<Pending<T>>)
    requires
        distinct_ids(es),
    ensures
        table_of(es).dom().finite(),
        table_of(es).dom().len() == es.len(),
    decreases es.len(),
{
    if es.len() == 0 {
        assert(table_of(es).dom() =~= Set::<Seq<char>>::empty());
    } else {
        let last = es.last();
        let front = es.drop_last();
        assert forall|i: int, j: int|
            0 <= i < front.len() && 0 <= j < front.len() && i != j implies (#[trigger] front[i]).id@
            != (#[trigger] front[j]).id@ by {
            assert(front[i] == es[i] && front[j] == es[j]);
        }
        if has_id(front, last.id@) {
            let i = index_of_id(front, last.id@);
            assert(front[i] == es[i]);
            assert(es[es.len() - 1] == last);
        }
        lemma_table_len(front);
        lemma_table_push(front, last);
        assert(front.push(last) =~= es);
        assert(table_of(es).dom() =~= table_of(front).dom().insert(last.id@));
    }
}

/// The pending call table, a map from correlation id to completion slot.
pub struct PendingTable<T> {
    entries: Vec<Pending<T>>,
}

impl<T> View for PendingTable<T> {
    type V = Map<Seq<char>, T>;

    closed spec fn view(&self) -> Map<Seq<char>, T> {
        table_of(self.entries@)
    }
}

impl<T> PendingTable<T> {
    #[verifier::type_invariant]
    spec fn well_formed(self) -> bool {
        distinct_ids(self.entries@)
    }

    /// The empty table.
    pub fn new() -> (r: Self)
        ensures
            r@ == Map::<Seq<char>, T>::empty(),
    {
        let r = PendingTable { entries: Vec::new() };
        assert(r@ =~= Map::<Seq<char>, T>::empty());
        r
    }

    /// The number of calls in flight.
    pub fn len(&self) -> (r: usize)
        ensures
            r == self@.dom().len(),
            self@.dom().finite(),
    {
        proof {
            use_type_invariant(self);
            lemma_table_len(self.entries@);
        }
        self.entries.len()
    }

    /// Whether no call is in flight.
    pub fn is_empty(&self) -> (r: bool)
        ensures
            r == (self@ == Map::<Seq<char>, T>::empty()),
    {
        let r = self.entries.len() == 0;
        proof {
            if r {
                assert(self@ =~= Map::<Seq<char>, T>::empty());
            } else {
                assert(has_id(self.entries@, self.entries@[0].id@));
                assert(self@.dom().contains(self.entries@[0].id@));
            }
        }
        r
    }

    /// The position of the entry under an id, if there is one.
    fn position(&self, id: &str) -> (r: Option<usize>)
        ensures
            match r {
                Some(i) => i < self.entries@.len() && self.entries@[i as int].id@ == id@,
                None => !has_id(self.entries@, id@),
            },
    {
        let key = id.to_owned();
        let n = self.entries.len();
        let mut i: usize = 0;
        while i < n
            invariant
                n == self.entries@.len(),
                i <= n,
                key@ == id@,
                forall|j: int| 0 <= j < i ==> (#[trigger] self.entries@[j]).id@ != id@,
            decreases n - i,
        {
            if self.entries[i].id == key {
                return Some(i);
            }
            i = i + 1;
        }
        None
    }

    /// Whether a call is in flight under the id.
    pub fn contains(&self, id: &str) -> (r: bool)
        ensures
            r == self@.contains_key(id@),
    {
        self.position(id).is_some()
    }

    /// Registers a slot under an id. A slot that was registered under the same
    /// id before is replaced and handed back.
    pub fn insert(&mut self, id: String, slot: T) -> (r: Option<T>)
        ensures
            final(self)@ == old(self)@.insert(id@, slot),
            r == (if old(self)@.contains_key(id@) {
                Some(old(self)@[id@])
            } else {
                None
            }),
    {
        proof {
            use_type_invariant(&*self);
        }
        let found = self.position(id.as_str());
        let mut entries = Vec::new();
        std::mem::swap(&mut entries, &mut self.entries);
        let ghost before = entries@;
        let replaced = match found {
            Some(i) => {
                let e = entries.remove(i);
                proof {
                    lemma_table_remove(before, i as int);
                    assert(index_of_id(before, id@) == i as int);
                }
                Some(e.slot)
            },
            None => None,
        };
        let ghost middle = entries@;
        let entry = Pending { id, slot };
        entries.push(entry);
        proof {
            assert(!has_id(middle, entry.id@)) by {
                if found is Some {
                    assert(!table_of(before).remove(entry.id@).dom().contains(entry.id@));
                    assert(!table_of(middle).dom().contains(entry.id@));
                }
            }
            lemma_table_push(middle, entry);
            assert(table_of(entries@) =~= table_of(before).insert(entry.id@, entry.slot));
        }
        self.entries = entries;
        replaced
    }

    /// Takes the entry under an id out of the table and hands its slot back.
    pub fn remove(&mut self, id: &str) -> (r: Option<T>)
        ensures
            final(self)@ == old(self)@.remove(id@),
            r == (if old(self)@.contains_key(id@) {
                Some(old(self)@[id@])
            } else {
                None
            }),
    {
        proof {
            use_type_invariant(&*self);
        }
        match self.position(id) {
            Some(i) => {
                let mut entries = Vec::new();
                std::mem::swap(&mut entries, &mut self.entries);
                let ghost before = entries@;
                let e = entries.remove(i);
                proof {
                    lemma_table_remove(before, i as int);
                    assert(index_of_id(before, id@) == i as int);
                }
                self.entries = entries;
                Some(e.slot)
            },
            None => {
                assert(self@ =~= self@.remove(id@));
                None
            },
        }
    }

    /// Empties the table and hands every entry back, each id once.
    pub fn drain(&mut self) -> (r: Vec<Pending<T>>)
        ensures
            final(self)@ == Map::<Seq<char>, T>::empty(),
            distinct_ids(r@),
            table_of(r@) == old(self)@,
            r@.len() == old(self)@.dom().len(),
    {
        proof {
            use_type_invariant(&*self);
            lemma_table_len(self.entries@);
        }
        let mut entries = Vec::new();
        std::mem::swap(&mut entries, &mut self.entries);
        assert(self@ =~= Map::<Seq<char>, T>::empty());
        entries
    }
}

} // verus!
