//! Change detection: the last modification time seen for each path.
use vstd::prelude::*;
use crate::pathmap::{lists_map, PathMap};

verus! {

/// A modification time: seconds and nanoseconds since the Unix epoch.
#[derive(Clone, Copy, Debug, PartialEq, Eq, Structural)]
pub struct ModTime {
    pub secs: u64,
    pub nanos: u32,
}

/// `a` is strictly later than `b`.
pub open spec fn later(a: ModTime, b: ModTime) -> bool {
    a.secs > b.secs || (a.secs == b.secs && a.nanos > b.nanos)
}

/// One staleness check of `path`, found modified at `t`, against the records `m`:
/// whether the file counts as updated, and the records afterwards.
pub open spec fn update_step(m: Map<Seq<char>, ModTime>, path: Seq<char>, t: ModTime) -> (bool, Map<Seq<char>, ModTime>) {
    let fresh = !m.contains_key(path) || later(t, m[path]);
    (fresh, if fresh { m.insert(path, t) } else { m })
}

/// `a` is strictly later than `b`.
pub fn is_later(a: ModTime, b: ModTime) -> (r: bool)
    ensures
        r == later(a, b),
{
    a.secs > b.secs || (a.secs == b.secs && a.nanos > b.nanos)
}

/// The persisted path to modification time records.
pub struct FileUpdateCache {
    cache: PathMap<ModTime>,
}

impl View for FileUpdateCache {
    type V = Map<Seq<char>, ModTime>;

    closed spec fn view(&self) -> Map<Seq<char>, ModTime> {
        self.cache@
    }
}

impl FileUpdateCache {
    pub closed spec fn wf(&self) -> bool {
        self.cache.wf()
    }

    /// An empty cache.
    pub fn new() -> (r: Self)
        ensures
            r.wf(),
            r@ == Map::<Seq<char>, ModTime>::empty(),
    {
        FileUpdateCache { cache: PathMap::new() }
    }

    /// Records `t` for `path`, as when the persisted cache is read back.
    pub fn record(&mut self, path: String, t: ModTime)
        requires
            old(self).wf(),
        ensures
            final(self).wf(),
            final(self)@ == old(self)@.insert(path@, t),
    {
        self.cache.insert(path, t);
    }

    /// The time recorded for `path`.
    pub fn recorded(&self, path: &String) -> (r: Option<ModTime>)
        requires
            self.wf(),
        ensures
            r == (if self@.contains_key(path@) { Some(self@[path@]) } else { None::<ModTime> }),
    {
        match self.cache.get(path) {
            Some(t) => Some(*t),
            None => None,
        }
    }

    /// Whether `path`, whose file was last modified at `modified`, changed since it
    /// was last seen: true when there is no record of it or `modified` is later than
    /// the record, and then `modified` becomes its record.
    pub fn is_updated(&mut self, path: &String, modified: ModTime) -> (r: bool)
        requires
            old(self).wf(),
        ensures
            final(self).wf(),
            (r, final(self)@) == update_step(old(self)@, path@, modified),
    {
        let fresh = match self.cache.get(path) {
            Some(t) => is_later(modified, *t),
            None => true,
        };
        if fresh {
            self.cache.insert(path.clone(), modified);
        }
        fresh
    }

    /// The records, each path once.
    pub fn entries(&self) -> (r: &Vec<(String, ModTime)>)
        requires
            self.wf(),
        ensures
            lists_map(r@, self@),
    {
        self.cache.entries()
    }
}

/// A path seen for the first time counts as updated; checked again with its file
/// unchanged, it does not.
pub proof fn lemma_first_sight(m: Map<Seq<char>, ModTime>, path: Seq<char>, t: ModTime)
    requires
        !m.contains_key(path),
    ensures
        update_step(m, path, t).0,
        !update_step(update_step(m, path, t).1, path, t).0,
{
}

/// After any check the path has a record; a second check counts the file as
/// updated exactly when its time is later than that record, which is the time of
/// the first check whenever that one counted the file as updated.
pub proof fn lemma_second_check(m: Map<Seq<char>, ModTime>, path: Seq<char>, t1: ModTime, t2: ModTime)
    ensures
        update_step(m, path, t1).1.contains_key(path),
        update_step(m, path, t1).0 ==> update_step(m, path, t1).1[path] == t1,
        update_step(update_step(m, path, t1).1, path, t2).0 == later(t2, update_step(m, path, t1).1[path]),
        update_step(m, path, t1).0 ==> update_step(update_step(m, path, t1).1, path, t2).0 == later(t2, t1),
{
}

/// A check never moves a record backward in time, and leaves the other paths alone.
pub proof fn lemma_record_monotone(m: Map<Seq<char>, ModTime>, path: Seq<char>, t: ModTime)
    ensures
        m.contains_key(path) ==> !later(m[path], update_step(m, path, t).1[path]),
        forall|q: Seq<char>| q != path ==> update_step(m, path, t).1.contains_key(q) == m.contains_key(q),
        forall|q: Seq<char>| q != path && m.contains_key(q) ==> #[trigger] update_step(m, path, t).1[q] == m[q],
{
}

} // verus!
