use vstd::prelude::*;

verus! {

/// A key of the cache: an icon size and a name (an extension or a path).
pub type Key = (u16, Seq<char>);

struct CacheEntry<T> {
    size: u16,
    name: String,
    value: T,
}

/// Converted icons by size and name. Entries stay until `clear`.
pub struct IconCache<T> {
    entries: Vec<CacheEntry<T>>,
    contents: Ghost<Map<Key, T>>,
}

impl<T> IconCache<T> {
    spec fn key_at(&self, i: int) -> Key {
        (self.entries@[i].size, self.entries@[i].name@)
    }

    /// What the cache holds.
    pub closed spec fn view(&self) -> Map<Key, T> {
        self.contents@
    }

    /// Each entry is in the map under its key, and each key of the map has
    /// an entry.
    pub closed spec fn wf(&self) -> bool {
        &&& forall|i: int|
            0 <= i < self.entries@.len() ==> {
                &&& self.contents@.contains_key(#[trigger] self.key_at(i))
                &&& self.contents@[self.key_at(i)] == self.entries@[i].value
            }
        &&& forall|k: Key| #[trigger]
            self.contents@.contains_key(k) ==> exists|i: int|
                0 <= i < self.entries@.len() && self.key_at(i) == k
    }

    /// An empty cache.
    pub fn new() -> (r: Self)
        ensures
            r.wf(),
            r@ == Map::<Key, T>::empty(),
    {
        IconCache { entries: Vec::new(), contents: Ghost(Map::empty()) }
    }

    fn find(&self, size: u16, name: &String) -> (r: Option<usize>)
        requires
            self.wf(),
        ensures
            match r {
                Some(i) => i < self.entries@.len() && self.key_at(i as int) == (size, name@),
                None => !self@.contains_key((size, name@)),
            },
    {
        let mut i: usize = 0;
        while i < self.entries.len()
            invariant
                self.wf(),
                i <= self.entries@.len(),
                forall|j: int| 0 <= j < i ==> #[trigger] self.key_at(j) != (size, name@),
            decreases self.entries@.len() - i,
        {
            let e = &self.entries[i];
            if e.size == size && e.name == *name {
                return Some(i);
            }
            i = i + 1;
        }
        None
    }

    /// A clone of the value cached under the key, if any.
    pub fn get(&self, size: u16, name: &String) -> (r: Option<T>) where T: Clone
        requires
            self.wf(),
        ensures
            match r {
                Some(v) => self@.contains_key((size, name@)) && cloned(self@[(size, name@)], v),
                None => !self@.contains_key((size, name@)),
            },
    {
        match self.find(size, name) {
            Some(i) => Some(self.entries[i].value.clone()),
            None => None,
        }
    }

    /// Stores a value under a key that holds none yet.
    pub fn insert(&mut self, size: u16, name: String, value: T)
        requires
            old(self).wf(),
            !old(self)@.contains_key((size, name@)),
        ensures
            final(self).wf(),
            final(self)@ == old(self)@.insert((size, name@), value),
    {
        let ghost key = (size, name@);
        let ghost old_len = self.entries@.len();
        self.contents = Ghost(self.contents@.insert(key, value));
        self.entries.push(CacheEntry { size, name, value });
        assert(self.key_at(old_len as int) == key);
        assert forall|i: int| 0 <= i < self.entries@.len() implies {
            &&& self.contents@.contains_key(#[trigger] self.key_at(i))
            &&& self.contents@[self.key_at(i)] == self.entries@[i].value
        } by {
            if i < old_len {
                assert(old(self).key_at(i) == self.key_at(i));
            }
        }
        assert forall|k: Key| #[trigger] self.contents@.contains_key(k) implies exists|i: int|
            0 <= i < self.entries@.len() && self.key_at(i) == k by {
            if k != key {
                let i = choose|i: int| 0 <= i < old(self).entries@.len() && old(self).key_at(i) == k;
                assert(self.key_at(i) == k);
            }
        }
    }

    /// Drops every entry.
    pub fn clear(&mut self)
        ensures
            final(self).wf(),
            final(self)@ == Map::<Key, T>::empty(),
    {
        self.entries.clear();
        self.contents = Ghost(Map::empty());
    }
}

} // verus!
