//! The session registry: a map from opaque session ids to owned
//! driver-page handles.
//!
//! Keys are unique; an id is live from a successful `insert` until the
//! first `remove` that observes it.  `lookup` hands out a shared
//! borrow without removing the entry, and `remove` atomically takes
//! the handle out, so the caller of `remove` is the handle's sole
//! owner afterwards.

use vstd::prelude::*;
use crate::trusted::str_eq;

verus! {

/// The map an entry sequence denotes: later entries would win, though
/// the registry's invariant keeps keys unique.
pub open spec fn kv_map<H>(s: Seq<(String, H)>) -> Map<Seq<char>, H>
    decreases s.len(),
{
    if s.len() == 0 {
        Map::empty()
    } else {
        kv_map(s.drop_last()).insert(s.last().0@, s.last().1)
    }
}

/// No two entries share a key.
pub open spec fn keys_unique<H>(s: Seq<(String, H)>) -> bool {
    forall|i: int, j: int| 0 <= i < j < s.len() ==> s[i].0@ != s[j].0@
}

/// A key is in the denoted map exactly when some entry carries it.
pub proof fn lemma_kv_map_domain<H>(s: Seq<(String, H)>, k: Seq<char>)
    ensures
        kv_map(s).contains_key(k) <==> exists|i: int| 0 <= i < s.len() && s[i].0@ == k,
    decreases s.len(),
{
    if s.len() > 0 {
        lemma_kv_map_domain(s.drop_last(), k);
        if s.last().0@ == k {
            assert(s[s.len() - 1].0@ == k);
        } else if exists|i: int| 0 <= i < s.len() && s[i].0@ == k {
            let i = choose|i: int| 0 <= i < s.len() && s[i].0@ == k;
            assert(0 <= i < s.len() - 1 && s.drop_last()[i].0@ == k);
        }
    }
}

/// Under unique keys, the denoted map sends an entry's key to its handle.
pub proof fn lemma_kv_map_index<H>(s: Seq<(String, H)>, i: int)
    requires
        keys_unique(s),
        0 <= i < s.len(),
    ensures
        kv_map(s).contains_key(s[i].0@),
        kv_map(s)[s[i].0@] == s[i].1,
    decreases s.len(),
{
    if i == s.len() - 1 {
        lemma_kv_map_domain(s, s[i].0@);
    } else {
        assert(keys_unique(s.drop_last()));
        lemma_kv_map_index(s.drop_last(), i);
        assert(s.drop_last()[i] == s[i]);
        assert(s.last().0@ != s[i].0@);
    }
}

/// Under unique keys, removing the entry at `i` removes exactly its key
/// from the denoted map.
pub proof fn lemma_kv_map_remove<H>(s: Seq<(String, H)>, i: int)
    requires
        keys_unique(s),
        0 <= i < s.len(),
    ensures
        kv_map(s.remove(i)) =~= kv_map(s).remove(s[i].0@),
    decreases s.len(),
{
    if i == s.len() - 1 {
        assert(s.remove(i) =~= s.drop_last());
        lemma_kv_map_domain(s.drop_last(), s[i].0@);
        assert(forall|j: int| 0 <= j < s.len() - 1 ==> s.drop_last()[j].0@ != s[i].0@);
        assert(!kv_map(s.drop_last()).contains_key(s[i].0@));
        assert(kv_map(s).remove(s[i].0@) =~= kv_map(s.drop_last()));
    } else {
        assert(keys_unique(s.drop_last()));
        lemma_kv_map_remove(s.drop_last(), i);
        assert(s.remove(i).drop_last() =~= s.drop_last().remove(i));
        assert(s.remove(i).last() == s.last());
        assert(s.last().0@ != s[i].0@);
    }
}

/// Concurrency-safe (externally synchronized) map from session id to
/// an owned driver-page handle.
pub struct Registry<H> {
    entries: Vec<(String, H)>,
}

impl<H> View for Registry<H> {
    type V = Map<Seq<char>, H>;

    closed spec fn view(&self) -> Map<Seq<char>, H> {
        kv_map(self.entries@)
    }
}

impl<H> Registry<H> {
    #[verifier::type_invariant]
    spec fn inv(self) -> bool {
        keys_unique(self.entries@)
    }

    /// An empty registry: no id is live.
    pub fn new() -> (r: Self)
        ensures
            r@ == Map::<Seq<char>, H>::empty(),
    {
        Registry { entries: Vec::new() }
    }

    /// Index of the entry holding `id`, if one does.
    fn position(&self, id: &str) -> (r: Option<usize>)
        ensures
            match r {
                Some(i) => i < self.entries@.len() && self.entries@[i as int].0@ == id@,
                None => forall|i: int| 0 <= i < self.entries@.len() ==> self.entries@[i].0@ != id@,
            },
    {
        let mut i: usize = 0;
        while i < self.entries.len()
            invariant
                i <= self.entries@.len(),
                forall|j: int| 0 <= j < i ==> self.entries@[j].0@ != id@,
            decreases self.entries@.len() - i,
        {
            if str_eq(self.entries[i].0.as_str(), id) {
                return Some(i);
            }
            i = i + 1;
        }
        None
    }

    /// Whether `id` is live.
    pub fn contains(&self, id: &str) -> (r: bool)
        ensures
            r == self@.contains_key(id@),
    {
        proof {
            lemma_kv_map_domain(self.entries@, id@);
        }
        self.position(id).is_some()
    }

    /// Borrow of the handle stored under `id`, without removing it.
    pub fn lookup<'a>(&'a self, id: &str) -> (r: Option<&'a H>)
        ensures
            match r {
                Some(h) => self@.contains_key(id@) && *h == self@[id@],
                None => !self@.contains_key(id@),
            },
    {
        proof {
            use_type_invariant(self);
            lemma_kv_map_domain(self.entries@, id@);
        }
        match self.position(id) {
            Some(i) => {
                proof {
                    lemma_kv_map_index(self.entries@, i as int);
                }
                Some(&self.entries[i].1)
            },
            None => None,
        }
    }

    /// Stores `handle` under the fresh id `id`; never overwrites.
    pub fn insert(&mut self, id: String, handle: H)
        requires
            !old(self)@.contains_key(id@),
        ensures
            final(self)@ == old(self)@.insert(id@, handle),
    {
        proof {
            use_type_invariant(&*self);
            lemma_kv_map_domain(self.entries@, id@);
        }
        let ghost before = self.entries@;
        let mut entries: Vec<(String, H)> = Vec::new();
        core::mem::swap(&mut entries, &mut self.entries);
        entries.push((id, handle));
        core::mem::swap(&mut entries, &mut self.entries);
        proof {
            assert(self.entries@.drop_last() =~= before);
            assert(keys_unique(self.entries@));
        }
    }

    /// Atomically takes the handle stored under `id` out of the
    /// registry, deleting the entry; the first removal wins and any
    /// later attempt observes an absent id.
    pub fn remove(&mut self, id: &str) -> (r: Option<H>)
        ensures
            match r {
                Some(h) => {
                    &&& old(self)@.contains_key(id@)
                    &&& h == old(self)@[id@]
                    &&& final(self)@ == old(self)@.remove(id@)
                },
                None => !old(self)@.contains_key(id@) && final(self)@ == old(self)@,
            },
    {
        proof {
            use_type_invariant(&*self);
            lemma_kv_map_domain(self.entries@, id@);
        }
        match self.position(id) {
            Some(i) => {
                proof {
                    lemma_kv_map_index(self.entries@, i as int);
                    lemma_kv_map_remove(self.entries@, i as int);
                    assert(keys_unique(self.entries@.remove(i as int)));
                }
                let mut entries: Vec<(String, H)> = Vec::new();
                core::mem::swap(&mut entries, &mut self.entries);
                let entry = entries.remove(i);
                core::mem::swap(&mut entries, &mut self.entries);
                Some(entry.1)
            },
            None => None,
        }
    }

    /// How many ids are live.
    pub fn len(&self) -> (r: usize)
        ensures
            r == self@.dom().len(),
    {
        proof {
            use_type_invariant(self);
            lemma_kv_map_len(self.entries@);
        }
        self.entries.len()
    }
}

/// Under unique keys, the denoted map has one key per entry.
pub proof fn lemma_kv_map_len<H>(s: Seq<(String, H)>)
    requires
        keys_unique(s),
    ensures
        kv_map(s).dom().len() == s.len(),
        kv_map(s).dom().finite(),
    decreases s.len(),
{
    if s.len() > 0 {
        assert(keys_unique(s.drop_last()));
        lemma_kv_map_len(s.drop_last());
        lemma_kv_map_domain(s.drop_last(), s.last().0@);
        assert(!kv_map(s.drop_last()).contains_key(s.last().0@));
        vstd::set::axiom_set_insert_len(kv_map(s.drop_last()).dom(), s.last().0@);
        assert(kv_map(s).dom() =~= kv_map(s.drop_last()).dom().insert(s.last().0@));
    }
}

} // verus!
