//! The cache of registered topic handles of one session.
use vstd::prelude::*;

verus! {

/// Handles of the topics registered in the current session, keyed by topic name.
///
/// A handle is meaningful only within the session that issued it, so the
/// cache is emptied whenever the session is replaced or its transport reconnects.
pub struct TopicCache<H> {
    entries: Vec<(String, H)>,
    handles: Ghost<Map<Seq<char>, H>>,
}

impl<H> View for TopicCache<H> {
    type V = Map<Seq<char>, H>;

    closed spec fn view(&self) -> Map<Seq<char>, H> {
        self.handles@
    }
}

impl<H> TopicCache<H> {
    spec fn key_at(&self, i: int) -> Seq<char> {
        self.entries@[i].0@
    }

    /// Entries have distinct names and hold exactly the pairs of the map.
    pub closed spec fn wf(&self) -> bool {
        &&& forall|i: int, j: int|
            0 <= i < j < self.entries@.len() ==> #[trigger] self.key_at(i) != #[trigger] self.key_at(
                j,
            )
        &&& forall|i: int|
            0 <= i < self.entries@.len() ==> self.handles@.contains_key(#[trigger] self.key_at(i))
                && self.handles@[self.key_at(i)] == self.entries@[i].1
        &&& forall|k: Seq<char>|
            #[trigger] self.handles@.contains_key(k) ==> exists|i: int|
                0 <= i < self.entries@.len() && #[trigger] self.key_at(i) == k
    }

    /// An empty cache.
    pub fn new() -> (r: Self)
        ensures
            r.wf(),
            r@ == Map::<Seq<char>, H>::empty(),
    {
        TopicCache { entries: Vec::new(), handles: Ghost(Map::empty()) }
    }

    fn find(&self, name: &String) -> (r: Option<usize>)
        requires
            self.wf(),
        ensures
            r matches Some(i) ==> i < self.entries@.len() && self.key_at(i as int) == name@,
            r is None ==> !self@.contains_key(name@),
    {
        let mut i: usize = 0;
        while i < self.entries.len()
            invariant
                self.wf(),
                i <= self.entries@.len(),
                forall|j: int| 0 <= j < i ==> self.key_at(j) != name@,
            decreases self.entries@.len() - i,
        {
            if self.entries[i].0 == *name {
                return Some(i);
            }
            i = i + 1;
        }
        proof {
            if self@.contains_key(name@) {
                let j = choose|j: int| 0 <= j < self.entries@.len() && #[trigger] self.key_at(j) == name@;
                assert(self.key_at(j) != name@);
            }
        }
        None
    }

    /// The handle cached for `name`, if any.
    pub fn get(&self, name: &String) -> (r: Option<&H>)
        requires
            self.wf(),
        ensures
            r is None <==> !self@.contains_key(name@),
            r matches Some(h) ==> *h == self@[name@],
    {
        match self.find(name) {
            Some(i) => Some(&self.entries[i].1),
            None => None,
        }
    }

    /// Whether a handle is cached for `name`.
    pub fn contains(&self, name: &String) -> (r: bool)
        requires
            self.wf(),
        ensures
            r == self@.contains_key(name@),
    {
        self.find(name).is_some()
    }

    /// Caches `handle` for `name`, replacing any handle cached for it before.
    pub fn insert(&mut self, name: String, handle: H)
        requires
            old(self).wf(),
        ensures
            final(self).wf(),
            final(self)@ == old(self)@.insert(name@, handle),
    {
        let ghost k = name@;
        let ghost prev = self.entries@;
        let ghost new_map = self.handles@.insert(k, handle);
        match self.find(&name) {
            Some(i) => {
                self.entries.set(i, (name, handle));
                self.handles = Ghost(new_map);
                assert forall|a: int, b: int| 0 <= a < b < self.entries@.len() implies #[trigger] self.key_at(
                    a,
                ) != #[trigger] self.key_at(b) by {
                    assert(old(self).key_at(a) != old(self).key_at(b));
                }
                assert forall|a: int| 0 <= a < self.entries@.len() implies self.handles@.contains_key(
                    #[trigger] self.key_at(a),
                ) && self.handles@[self.key_at(a)] == self.entries@[a].1 by {
                    if a != i {
                        assert(old(self).key_at(a) != old(self).key_at(i as int));
                    }
                }
                assert forall|key: Seq<char>| #[trigger] self.handles@.contains_key(key) implies exists|a: int|
                    0 <= a < self.entries@.len() && #[trigger] self.key_at(a) == key by {
                    if key == k {
                        assert(self.key_at(i as int) == key);
                    } else {
                        let a = choose|a: int| 0 <= a < prev.len() && #[trigger] old(self).key_at(a) == key;
                        assert(self.key_at(a) == key);
                    }
                }
            },
            None => {
                assert forall|j: int| 0 <= j < prev.len() implies #[trigger] old(self).key_at(j) != k by {
                    assert(old(self).handles@.contains_key(old(self).key_at(j)));
                }
                self.entries.push((name, handle));
                self.handles = Ghost(new_map);
                assert forall|a: int, b: int| 0 <= a < b < self.entries@.len() implies #[trigger] self.key_at(
                    a,
                ) != #[trigger] self.key_at(b) by {
                    assert(self.key_at(a) == old(self).key_at(a));
                    if b < prev.len() {
                        assert(old(self).key_at(a) != old(self).key_at(b));
                    }
                }
                assert forall|a: int| 0 <= a < self.entries@.len() implies self.handles@.contains_key(
                    #[trigger] self.key_at(a),
                ) && self.handles@[self.key_at(a)] == self.entries@[a].1 by {
                    if a < prev.len() {
                        assert(self.key_at(a) == old(self).key_at(a));
                    }
                }
                assert forall|key: Seq<char>| #[trigger] self.handles@.contains_key(key) implies exists|a: int|
                    0 <= a < self.entries@.len() && #[trigger] self.key_at(a) == key by {
                    if key == k {
                        assert(self.key_at(prev.len() as int) == key);
                    } else {
                        let a = choose|a: int| 0 <= a < prev.len() && #[trigger] old(self).key_at(a) == key;
                        assert(self.key_at(a) == key);
                    }
                }
            },
        }
    }

    /// Forgets every cached handle.
    pub fn clear(&mut self)
        ensures
            final(self).wf(),
            final(self)@ == Map::<Seq<char>, H>::empty(),
    {
        self.entries.clear();
        self.handles = Ghost(Map::empty());
    }
}

} // verus!
