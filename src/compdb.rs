//! The compilation database: one compiler invocation per source file, keyed by
//! the source path so that compiling a file again replaces its entry.
use vstd::prelude::*;
use crate::pathmap::{lists_map, PathMap};

verus! {

/// One entry of the compilation database.
#[derive(Clone, Debug)]
pub struct CompileCommand {
    /// Working directory of the invocation
    pub directory: String,
    /// The whole argument vector, compiler first
    pub arguments: Vec<String>,
    /// The source file compiled
    pub file: String,
}

/// The database that a list of entries gives when each is recorded in turn:
/// on a path that occurs twice, the later entry wins.
pub open spec fn db_of(s: Seq<CompileCommand>) -> Map<Seq<char>, CompileCommand>
    decreases s.len(),
{
    if s.len() == 0 {
        Map::empty()
    } else {
        db_of(s.drop_last()).insert(s.last().file@, s.last())
    }
}

/// The values of a list of entries.
pub open spec fn values_of(s: Seq<(String, CompileCommand)>) -> Seq<CompileCommand> {
    Seq::new(s.len(), |i: int| s[i].1)
}

pub struct CompileDatabase {
    map: PathMap<CompileCommand>,
}

impl View for CompileDatabase {
    type V = Map<Seq<char>, CompileCommand>;

    closed spec fn view(&self) -> Map<Seq<char>, CompileCommand> {
        self.map@
    }
}

impl CompileDatabase {
    /// Each entry sits under its own source path.
    pub closed spec fn wf(&self) -> bool {
        &&& self.map.wf()
        &&& forall|k: Seq<char>| #[trigger] self.map@.contains_key(k) ==> self.map@[k].file@ == k
    }

    /// The entries in the order in which they are handed out.
    pub closed spec fn entry_seq(&self) -> Seq<(String, CompileCommand)> {
        self.map.entry_seq()
    }

    /// An empty database.
    pub fn new() -> (r: Self)
        ensures
            r.wf(),
            r@ == Map::<Seq<char>, CompileCommand>::empty(),
    {
        CompileDatabase { map: PathMap::new() }
    }

    /// Records `cmd` under its source path, replacing an earlier entry for it.
    pub fn record(&mut self, cmd: CompileCommand)
        requires
            old(self).wf(),
        ensures
            final(self).wf(),
            final(self)@ == old(self)@.insert(cmd.file@, cmd),
    {
        let key = cmd.file.clone();
        self.map.insert(key, cmd);
    }

    /// The database read back from a list of entries, later entries winning.
    pub fn from_entries(entries: Vec<CompileCommand>) -> (r: Self)
        ensures
            r.wf(),
            r@ == db_of(entries@),
    {
        let ghost all = entries@;
        let mut entries = entries;
        let mut r = CompileDatabase::new();
        while entries.len() > 0
            invariant
                r.wf(),
                entries@.len() <= all.len(),
                entries@ == all.subrange(all.len() - entries@.len(), all.len() as int),
                r@ == db_of(all.subrange(0, all.len() - entries@.len())),
            decreases entries@.len(),
        {
            let ghost k = all.len() - entries@.len();
            let e = entries.remove(0);
            proof {
                assert(all.subrange(0, k + 1).drop_last() =~= all.subrange(0, k));
                assert(all.subrange(0, k + 1).last() == e);
                assert(entries@ =~= all.subrange(k + 1, all.len() as int));
            }
            r.record(e);
        }
        assert(all.subrange(0, all.len() as int) =~= all);
        r
    }

    /// The entries, each source path once.
    pub fn entries(&self) -> (r: &Vec<(String, CompileCommand)>)
        requires
            self.wf(),
        ensures
            r@ == self.entry_seq(),
            lists_map(r@, self@),
    {
        self.map.entries()
    }

    /// Each handed-out entry is keyed by its own source path.
    pub proof fn lemma_keys_are_files(&self)
        requires
            self.wf(),
        ensures
            lists_map(self.entry_seq(), self@),
            forall|i: int|
                0 <= i < self.entry_seq().len() ==> #[trigger] self.entry_seq()[i].1.file@
                    == self.entry_seq()[i].0@,
    {
        self.map.lemma_entries();
        assert forall|i: int| 0 <= i < self.entry_seq().len() implies #[trigger] self.entry_seq()[i].1.file@
            == self.entry_seq()[i].0@ by {
            assert(self.map@.contains_key(self.entry_seq()[i].0@));
        }
    }
}

proof fn lemma_db_of_distinct(s: Seq<(String, CompileCommand)>)
    requires
        forall|i: int, j: int| 0 <= i < j < s.len() ==> s[i].0@ != s[j].0@,
        forall|i: int| 0 <= i < s.len() ==> #[trigger] s[i].1.file@ == s[i].0@,
    ensures
        forall|i: int| 0 <= i < s.len() ==> db_of(values_of(s)).contains_key(#[trigger] s[i].0@)
            && db_of(values_of(s))[s[i].0@] == s[i].1,
        forall|k: Seq<char>| #[trigger] db_of(values_of(s)).contains_key(k) ==> exists|i: int|
            0 <= i < s.len() && s[i].0@ == k,
    decreases s.len(),
{
    if s.len() > 0 {
        let t = s.drop_last();
        lemma_db_of_distinct(t);
        assert(values_of(s).drop_last() =~= values_of(t));
        let last = s.len() - 1;
        assert(values_of(s).last() == s[last].1);
        assert forall|i: int| 0 <= i < s.len() implies db_of(values_of(s)).contains_key(#[trigger] s[i].0@)
            && db_of(values_of(s))[s[i].0@] == s[i].1 by {
            if i < last {
                assert(t[i] == s[i]);
                assert(s[i].0@ != s[last].0@);
            }
        }
        assert forall|k: Seq<char>| #[trigger] db_of(values_of(s)).contains_key(k) implies exists|i: int|
            0 <= i < s.len() && s[i].0@ == k by {
            if k != s[last].0@ {
                assert(db_of(values_of(t)).contains_key(k));
                let i = choose|i: int| 0 <= i < t.len() && t[i].0@ == k;
                assert(s[i] == t[i]);
            }
        }
    }
}

/// Writing the database out and reading it back gives the same database: every
/// entry comes back under its source path, and nothing else does.
pub proof fn lemma_reload(db: &CompileDatabase)
    requires
        db.wf(),
    ensures
        db_of(values_of(db.entry_seq())) == db@,
{
    db.lemma_keys_are_files();
    let s = db.entry_seq();
    lemma_db_of_distinct(s);
    assert forall|k: Seq<char>| db_of(values_of(s)).contains_key(k) <==> db@.contains_key(k) by {
        if db@.contains_key(k) {
            let i = choose|i: int| 0 <= i < s.len() && s[i].0@ == k;
            assert(db_of(values_of(s)).contains_key(s[i].0@));
        }
        if db_of(values_of(s)).contains_key(k) {
            let i = choose|i: int| 0 <= i < s.len() && s[i].0@ == k;
            assert(db@.contains_key(s[i].0@));
        }
    }
    assert forall|k: Seq<char>| db@.contains_key(k) implies db_of(values_of(s))[k] == db@[k] by {
        let i = choose|i: int| 0 <= i < s.len() && s[i].0@ == k;
        assert(db_of(values_of(s))[s[i].0@] == s[i].1);
    }
    assert(db_of(values_of(s)) =~= db@);
}

/// Of two entries for one source path, the later one is what the database keeps.
pub proof fn lemma_newest_wins(s: Seq<CompileCommand>, older: CompileCommand, newer: CompileCommand)
    requires
        older.file@ == newer.file@,
    ensures
        db_of(s.push(older).push(newer)) == db_of(s).insert(newer.file@, newer),
{
    assert(s.push(older).push(newer).drop_last() =~= s.push(older));
    assert(s.push(older).drop_last() =~= s);
    assert(db_of(s.push(older)) == db_of(s).insert(older.file@, older));
    assert(db_of(s.push(older).push(newer)) == db_of(s.push(older)).insert(newer.file@, newer));
    assert(db_of(s).insert(older.file@, older).insert(newer.file@, newer) =~= db_of(s).insert(
        newer.file@,
        newer,
    ));
}

} // verus!
