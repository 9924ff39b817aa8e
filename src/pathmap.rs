//! A map from path strings to values, kept as a list of distinct keys so that
//! its contents can be handed out for persisting.
use vstd::prelude::*;

verus! {

/// `s` lists exactly the entries of `m`, each key once.
pub open spec fn lists_map<V>(s: Seq<(String, V)>, m: Map<Seq<char>, V>) -> bool {
    &&& forall|i: int, j: int| 0 <= i < j < s.len() ==> s[i].0@ != s[j].0@
    &&& forall|i: int|
        0 <= i < s.len() ==> m.contains_key(#[trigger] s[i].0@) && m[s[i].0@] == s[i].1
    &&& forall|k: Seq<char>|
        #[trigger] m.contains_key(k) ==> exists|i: int| 0 <= i < s.len() && s[i].0@ == k
}

pub struct PathMap<V> {
    entries: Vec<(String, V)>,
    model: Ghost<Map<Seq<char>, V>>,
}

impl<V> View for PathMap<V> {
    type V = Map<Seq<char>, V>;

    closed spec fn view(&self) -> Map<Seq<char>, V> {
        self.model@
    }
}

impl<V> PathMap<V> {
    pub closed spec fn wf(&self) -> bool {
        lists_map(self.entries@, self.model@)
    }

    /// The entries, in the order in which their keys were first inserted.
    pub closed spec fn entry_seq(&self) -> Seq<(String, V)> {
        self.entries@
    }

    pub proof fn lemma_entries(&self)
        requires
            self.wf(),
        ensures
            lists_map(self.entry_seq(), self@),
    {
    }

    pub fn new() -> (r: Self)
        ensures
            r.wf(),
            r@ == Map::<Seq<char>, V>::empty(),
            r.entry_seq().len() == 0,
    {
        PathMap { entries: Vec::new(), model: Ghost(Map::empty()) }
    }

    fn find(&self, key: &String) -> (r: Option<usize>)
        requires
            self.wf(),
        ensures
            match r {
                Some(i) => i < self.entries@.len() && self.entries@[i as int].0@ == key@,
                None => !self@.contains_key(key@),
            },
    {
        let mut i: usize = 0;
        while i < self.entries.len()
            invariant
                i <= self.entries@.len(),
                forall|j: int| 0 <= j < i ==> self.entries@[j].0@ != key@,
            decreases self.entries@.len() - i,
        {
            if self.entries[i].0 == *key {
                return Some(i);
            }
            i = i + 1;
        }
        None
    }

    /// The value recorded for `key`.
    pub fn get(&self, key: &String) -> (r: Option<&V>)
        requires
            self.wf(),
        ensures
            match r {
                Some(v) => self@.contains_key(key@) && *v == self@[key@],
                None => !self@.contains_key(key@),
            },
    {
        match self.find(key) {
            Some(i) => Some(&self.entries[i].1),
            None => None,
        }
    }

    /// Records `v` for `key`, replacing what was recorded before.
    pub fn insert(&mut self, key: String, v: V)
        requires
            old(self).wf(),
        ensures
            final(self).wf(),
            final(self)@ == old(self)@.insert(key@, v),
            final(self).entry_seq().len() <= old(self).entry_seq().len() + 1,
    {
        let ghost k = key@;
        let ghost val = v;
        let ghost old_entries = self.entries@;
        match self.find(&key) {
            Some(i) => {
                self.entries.set(i, (key, v));
                self.model = Ghost(self.model@.insert(k, val));
                assert forall|j: int| 0 <= j < self.entries@.len() implies #[trigger]
                    self.model@.contains_key(self.entries@[j].0@) && self.model@[self.entries@[j].0@]
                        == self.entries@[j].1 by {
                    if j != i {
                        assert(old_entries[j].0@ != old_entries[i as int].0@);
                    }
                }
                assert forall|kk: Seq<char>| #[trigger] self.model@.contains_key(kk) implies exists|
                    j: int,
                | 0 <= j < self.entries@.len() && self.entries@[j].0@ == kk by {
                    if kk == k {
                        assert(self.entries@[i as int].0@ == kk);
                    } else {
                        let j = choose|j: int| 0 <= j < old_entries.len() && old_entries[j].0@ == kk;
                        assert(self.entries@[j].0@ == kk);
                    }
                }
            },
            None => {
                self.entries.push((key, v));
                self.model = Ghost(self.model@.insert(k, val));
                let ghost n = old_entries.len() as int;
                assert forall|a: int, b: int| 0 <= a < b < self.entries@.len() implies self.entries@[a].0@
                    != self.entries@[b].0@ by {
                    if b == n {
                        assert(old_entries[a].0@ != k);
                    } else {
                        assert(old_entries[a] == self.entries@[a]);
                    }
                }
                assert forall|j: int| 0 <= j < self.entries@.len() implies #[trigger]
                    self.model@.contains_key(self.entries@[j].0@) && self.model@[self.entries@[j].0@]
                        == self.entries@[j].1 by {
                    if j < n {
                        assert(old_entries[j] == self.entries@[j]);
                        assert(old_entries[j].0@ != k);
                    }
                }
                assert forall|kk: Seq<char>| #[trigger] self.model@.contains_key(kk) implies exists|
                    j: int,
                | 0 <= j < self.entries@.len() && self.entries@[j].0@ == kk by {
                    if kk == k {
                        assert(self.entries@[n].0@ == kk);
                    } else {
                        let j = choose|j: int| 0 <= j < old_entries.len() && old_entries[j].0@ == kk;
                        assert(self.entries@[j] == old_entries[j]);
                    }
                }
            },
        }
    }

    /// The entries, each key once.
    pub fn entries(&self) -> (r: &Vec<(String, V)>)
        requires
            self.wf(),
        ensures
            r@ == self.entry_seq(),
            lists_map(r@, self@),
    {
        &self.entries
    }
}

} // verus!
