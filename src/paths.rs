//! Paths are plain strings with `/` as the separator. These functions give the
//! few operations the build needs: joining, and splitting a file name into its
//! stem and extension.
use vstd::prelude::*;
use vstd::string::*;

verus! {

/// Position of the last occurrence of `c` in `s`, or -1 when `c` does not occur.
pub open spec fn last_index_of(s: Seq<char>, c: char) -> int
    decreases s.len(),
{
    if s.len() == 0 {
        -1
    } else if s.last() == c {
        s.len() - 1
    } else {
        last_index_of(s.drop_last(), c)
    }
}

/// `rel` resolved against `base`: an absolute `rel` stands alone, otherwise a
/// separator is put between the two unless `base` is empty or already ends in one.
pub open spec fn join_spec(base: Seq<char>, rel: Seq<char>) -> Seq<char> {
    if rel.len() > 0 && rel[0] == '/' {
        rel
    } else if base.len() == 0 || base.last() == '/' {
        base + rel
    } else {
        base + seq!['/'] + rel
    }
}

/// The last component of a path: what follows its last separator.
pub open spec fn file_name_spec(p: Seq<char>) -> Seq<char> {
    p.subrange(last_index_of(p, '/') + 1, p.len() as int)
}

/// A file name without its extension. A name whose only dot leads it (`.profile`)
/// has no extension.
pub open spec fn stem_spec(name: Seq<char>) -> Seq<char> {
    let d = last_index_of(name, '.');
    if d <= 0 {
        name
    } else {
        name.subrange(0, d)
    }
}

/// What follows the last dot of a file name, if the name has an extension.
pub open spec fn extension_spec(name: Seq<char>) -> Option<Seq<char>> {
    let d = last_index_of(name, '.');
    if d <= 0 {
        None
    } else {
        Some(name.subrange(d + 1, name.len() as int))
    }
}

pub proof fn lemma_last_index_of_bounds(s: Seq<char>, c: char)
    ensures
        -1 <= last_index_of(s, c) < s.len(),
        last_index_of(s, c) >= 0 ==> s[last_index_of(s, c)] == c,
    decreases s.len(),
{
    if s.len() > 0 && s.last() != c {
        lemma_last_index_of_bounds(s.drop_last(), c);
    }
}

/// Index of the last `c` in `s`.
pub fn find_last(s: &str, c: char) -> (r: Option<usize>)
    ensures
        match r {
            None => last_index_of(s@, c) == -1,
            Some(i) => last_index_of(s@, c) == i as int,
        },
{
    let n = s.unicode_len();
    let mut i: usize = n;
    assert(s@.subrange(0, n as int) =~= s@);
    while i > 0
        invariant
            i <= n,
            n == s@.len(),
            last_index_of(s@, c) == last_index_of(s@.subrange(0, i as int), c),
        decreases i,
    {
        let ch = s.get_char(i - 1);
        if ch == c {
            return Some(i - 1);
        }
        assert(s@.subrange(0, i as int).drop_last() =~= s@.subrange(0, i - 1));
        i = i - 1;
    }
    None
}

/// `rel` resolved against `base`, as `Path::join` does.
pub fn join_path(base: &str, rel: &str) -> (r: String)
    ensures
        r@ == join_spec(base@, rel@),
{
    let rn = rel.unicode_len();
    if rn > 0 && rel.get_char(0) == '/' {
        return String::from_str(rel);
    }
    let bn = base.unicode_len();
    let mut r = String::from_str(base);
    if bn > 0 && base.get_char(bn - 1) != '/' {
        r.append("/");
        proof {
            reveal_strlit("/");
        }
    }
    r.append(rel);
    r
}

/// The last component of `p`.
pub fn file_name(p: &str) -> (r: String)
    ensures
        r@ == file_name_spec(p@),
{
    proof {
        lemma_last_index_of_bounds(p@, '/');
    }
    let n = p.unicode_len();
    let start = match find_last(p, '/') {
        None => 0,
        Some(i) => i + 1,
    };
    String::from_str(p.substring_char(start, n))
}

/// `name` without its extension.
pub fn file_stem(name: &str) -> (r: String)
    ensures
        r@ == stem_spec(name@),
{
    proof {
        lemma_last_index_of_bounds(name@, '.');
    }
    match find_last(name, '.') {
        Some(d) if d > 0 => String::from_str(name.substring_char(0, d)),
        _ => String::from_str(name),
    }
}

/// The extension of `name`, without its dot.
pub fn extension(name: &str) -> (r: Option<String>)
    ensures
        match (r, extension_spec(name@)) {
            (None, None) => true,
            (Some(e), Some(s)) => e@ == s,
            _ => false,
        },
{
    proof {
        lemma_last_index_of_bounds(name@, '.');
    }
    let n = name.unicode_len();
    match find_last(name, '.') {
        Some(d) if d > 0 => Some(String::from_str(name.substring_char(d + 1, n))),
        _ => None,
    }
}

} // verus!
