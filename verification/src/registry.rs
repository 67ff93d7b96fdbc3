//! The session registry: which identifier stands for which connection
//! handle.
//!
//! The registry owns the handles. It keeps at most one entry per
//! identifier, never overwrites an entry, and forgets an identifier only
//! when it is removed.

use vstd::prelude::*;
use crate::error::{Failure, SessionError};
use crate::text::same_text;

verus! {

/// One registered session.
struct Entry<H> {
    id: String,
    handle: H,
}

/// Whether `entries[i]` exists and carries the identifier `id`.
spec fn has_id<H>(entries: Seq<Entry<H>>, i: int, id: Seq<char>) -> bool {
    0 <= i < entries.len() && entries[i].id@ == id
}

/// No two entries carry the same identifier.
spec fn distinct_ids<H>(entries: Seq<Entry<H>>) -> bool {
    forall|i: int, j: int|
        0 <= i < j < entries.len() ==> (#[trigger] entries[i]).id@ != (#[trigger] entries[j]).id@
}

/// The mapping that a list of entries stands for.
spec fn as_map<H>(entries: Seq<Entry<H>>) -> Map<Seq<char>, H> {
    Map::new(
        |id: Seq<char>| exists|i: int| has_id(entries, i, id),
        |id: Seq<char>| entries[choose|i: int| has_id(entries, i, id)].handle,
    )
}

/// With distinct identifiers, each entry is what the mapping holds for its
/// identifier.
proof fn lemma_entry_is_mapped<H>(entries: Seq<Entry<H>>, i: int)
    requires
        distinct_ids(entries),
        0 <= i < entries.len(),
    ensures
        as_map(entries).contains_key(entries[i].id@),
        as_map(entries)[entries[i].id@] == entries[i].handle,
{
    let id = entries[i].id@;
    assert(has_id(entries, i, id));
    let k = choose|k: int| has_id(entries, k, id);
    assert(has_id(entries, k, id));
    if k < i {
        assert(entries[k].id@ != entries[i].id@);
    } else if i < k {
        assert(entries[i].id@ != entries[k].id@);
    }
}

/// Adding an entry under a new identifier maps that identifier and leaves
/// every other one as it was.
proof fn lemma_push_inserts<H>(entries: Seq<Entry<H>>, entry: Entry<H>)
    requires
        distinct_ids(entries),
        !as_map(entries).contains_key(entry.id@),
    ensures
        distinct_ids(entries.push(entry)),
        as_map(entries.push(entry)) == as_map(entries).insert(entry.id@, entry.handle),
{
    let grown = entries.push(entry);
    assert forall|i: int, j: int| 0 <= i < j < grown.len() implies (#[trigger] grown[i]).id@ != (
    #[trigger] grown[j]).id@ by {
        if j == entries.len() {
            assert(has_id(entries, i, entries[i].id@));
        } else {
            assert(entries[i].id@ != entries[j].id@);
        }
    }
    let before = as_map(entries);
    let after = as_map(grown);
    assert forall|id: Seq<char>| #[trigger]
        after.dom().contains(id) <==> before.insert(entry.id@, entry.handle).dom().contains(
            id,
        ) by {
        if after.dom().contains(id) {
            let k = choose|k: int| has_id(grown, k, id);
            if k < entries.len() {
                assert(has_id(entries, k, id));
            }
        }
        if before.dom().contains(id) {
            let k = choose|k: int| has_id(entries, k, id);
            assert(has_id(grown, k, id));
        }
        if id == entry.id@ {
            assert(has_id(grown, entries.len() as int, id));
        }
    }
    assert forall|id: Seq<char>| #[trigger] after.dom().contains(id) implies after[id]
        == before.insert(entry.id@, entry.handle)[id] by {
        let k = choose|k: int| has_id(grown, k, id);
        lemma_entry_is_mapped(grown, k);
        if k < entries.len() {
            assert(has_id(entries, k, id));
            lemma_entry_is_mapped(entries, k);
        }
    }
    assert(after =~= before.insert(entry.id@, entry.handle));
}

/// Taking an entry out unmaps its identifier and leaves every other one as
/// it was.
proof fn lemma_remove_unmaps<H>(entries: Seq<Entry<H>>, at: int)
    requires
        distinct_ids(entries),
        0 <= at < entries.len(),
    ensures
        distinct_ids(entries.remove(at)),
        as_map(entries.remove(at)) == as_map(entries).remove(entries[at].id@),
{
    let gone = entries[at].id@;
    let rest = entries.remove(at);
    assert forall|i: int, j: int| 0 <= i < j < rest.len() implies (#[trigger] rest[i]).id@ != (
    #[trigger] rest[j]).id@ by {
        let oi = if i < at { i } else { i + 1 };
        let oj = if j < at { j } else { j + 1 };
        assert(rest[i] == entries[oi]);
        assert(rest[j] == entries[oj]);
        assert(entries[oi].id@ != entries[oj].id@);
    }
    let before = as_map(entries);
    let after = as_map(rest);
    assert forall|id: Seq<char>| #[trigger]
        after.dom().contains(id) <==> before.remove(gone).dom().contains(id) by {
        if after.dom().contains(id) {
            let k = choose|k: int| has_id(rest, k, id);
            let ok = if k < at { k } else { k + 1 };
            assert(rest[k] == entries[ok]);
            assert(has_id(entries, ok, id));
            if ok < at {
                assert(entries[ok].id@ != entries[at].id@);
            } else {
                assert(entries[at].id@ != entries[ok].id@);
            }
        }
        if before.dom().contains(id) && id != gone {
            let k = choose|k: int| has_id(entries, k, id);
            let nk = if k < at { k } else { k - 1 };
            assert(rest[nk] == entries[k]);
            assert(has_id(rest, nk, id));
        }
    }
    assert forall|id: Seq<char>| #[trigger] after.dom().contains(id) implies after[id]
        == before.remove(gone)[id] by {
        let k = choose|k: int| has_id(rest, k, id);
        let ok = if k < at { k } else { k + 1 };
        assert(rest[k] == entries[ok]);
        lemma_entry_is_mapped(rest, k);
        lemma_entry_is_mapped(entries, ok);
    }
    assert(after =~= before.remove(gone));
}

/// With distinct identifiers, the mapping has as many keys as there are
/// entries.
proof fn lemma_one_key_per_entry<H>(entries: Seq<Entry<H>>)
    requires
        distinct_ids(entries),
    ensures
        as_map(entries).dom().finite(),
        as_map(entries).dom().len() == entries.len(),
    decreases entries.len(),
{
    if entries.len() == 0 {
        assert(as_map(entries).dom() =~= Set::<Seq<char>>::empty());
    } else {
        let last = entries.len() - 1;
        let front = entries.remove(last);
        lemma_remove_unmaps(entries, last);
        lemma_one_key_per_entry(front);
        lemma_entry_is_mapped(entries, last);
        let gone = entries[last].id@;
        assert(as_map(entries).dom() =~= as_map(front).dom().insert(gone));
    }
}

/// The registry of live sessions.
pub struct Registry<H> {
    entries: Vec<Entry<H>>,
}

impl<H> View for Registry<H> {
    type V = Map<Seq<char>, H>;

    /// The handle of each registered identifier.
    closed spec fn view(&self) -> Map<Seq<char>, H> {
        as_map(self.entries@)
    }
}

impl<H> Registry<H> {
    /// No identifier is registered twice.
    pub closed spec fn wf(&self) -> bool {
        distinct_ids(self.entries@)
    }

    /// A registry without sessions.
    pub fn new() -> (registry: Self)
        ensures
            registry.wf(),
            registry@ == Map::<Seq<char>, H>::empty(),
    {
        let registry = Registry { entries: Vec::new() };
        assert(registry@ =~= Map::<Seq<char>, H>::empty());
        registry
    }

    /// Where the entry of `id` stands, if it has one.
    fn find(&self, id: &str) -> (found: Option<usize>)
        requires
            self.wf(),
        ensures
            match found {
                Some(i) => has_id(self.entries@, i as int, id@),
                None => !self@.contains_key(id@),
            },
    {
        let mut i: usize = 0;
        while i < self.entries.len()
            invariant
                0 <= i <= self.entries@.len(),
                forall|j: int| 0 <= j < i ==> !has_id(self.entries@, j, id@),
            decreases self.entries@.len() - i,
        {
            if same_text(self.entries[i].id.as_str(), id) {
                return Some(i);
            }
            i += 1;
        }
        None
    }

    /// Registers `handle` under `id`, unless `id` is registered already.
    ///
    /// An identifier that is present is never overwritten: the registry
    /// stays as it was and the handle is handed back.
    pub fn register(&mut self, id: String, handle: H) -> (outcome: Result<(), H>)
        requires
            old(self).wf(),
        ensures
            final(self).wf(),
            match outcome {
                Ok(_) => !old(self)@.contains_key(id@) && final(self)@ == old(self)@.insert(
                    id@,
                    handle,
                ),
                Err(back) => old(self)@.contains_key(id@) && back == handle && final(self)@ == old(
                    self,
                )@,
            },
    {
        match self.find(id.as_str()) {
            Some(i) => {
                proof {
                    lemma_entry_is_mapped(self.entries@, i as int);
                }
                Err(handle)
            },
            None => {
                let entry = Entry { id, handle };
                proof {
                    lemma_push_inserts(self.entries@, entry);
                }
                self.entries.push(entry);
                Ok(())
            },
        }
    }

    /// The handle registered under `id`.
    pub fn lookup(&self, id: &str) -> (outcome: Result<&H, SessionError>)
        requires
            self.wf(),
        ensures
            match outcome {
                Ok(handle) => self@.contains_key(id@) && *handle == self@[id@],
                Err(error) => !self@.contains_key(id@) && error@ == Failure::NotFound,
            },
    {
        match self.find(id) {
            Some(i) => {
                proof {
                    lemma_entry_is_mapped(self.entries@, i as int);
                }
                Ok(&self.entries[i].handle)
            },
            None => Err(SessionError::NotFound),
        }
    }

    /// Whether `id` is registered.
    pub fn contains(&self, id: &str) -> (present: bool)
        requires
            self.wf(),
        ensures
            present == self@.contains_key(id@),
    {
        match self.find(id) {
            Some(i) => {
                proof {
                    lemma_entry_is_mapped(self.entries@, i as int);
                }
                true
            },
            None => false,
        }
    }

    /// Takes `id` out of the registry and releases its handle. Says whether
    /// there was such an entry.
    pub fn remove(&mut self, id: &str) -> (removed: bool)
        requires
            old(self).wf(),
        ensures
            final(self).wf(),
            removed == old(self)@.contains_key(id@),
            final(self)@ == old(self)@.remove(id@),
    {
        match self.find(id) {
            Some(i) => {
                proof {
                    lemma_entry_is_mapped(self.entries@, i as int);
                    lemma_remove_unmaps(self.entries@, i as int);
                }
                let _ = self.entries.remove(i);
                true
            },
            None => {
                assert(self@ =~= self@.remove(id@));
                false
            },
        }
    }

    /// How many sessions are registered.
    pub fn len(&self) -> (count: usize)
        requires
            self.wf(),
        ensures
            self@.dom().finite(),
            count == self@.dom().len(),
    {
        proof {
            lemma_one_key_per_entry(self.entries@);
        }
        self.entries.len()
    }
}

} // verus!
