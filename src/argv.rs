//! Building argument vectors: prefixed option lists and library link flags.
use vstd::prelude::*;
use vstd::string::*;
use crate::config::strs;
use crate::paths::{file_name, file_name_spec, file_stem, join_path, join_spec, stem_spec};

verus! {

/// Each item with `p` in front of it.
pub open spec fn prefixed(p: Seq<char>, s: Seq<String>) -> Seq<Seq<char>> {
    Seq::new(s.len(), |i: int| p + s[i]@)
}

/// Each item resolved against `base`, with `p` in front of it.
pub open spec fn prefixed_joined(p: Seq<char>, base: Seq<char>, s: Seq<String>) -> Seq<Seq<char>> {
    Seq::new(s.len(), |i: int| p + join_spec(base, s[i]@))
}

/// A library name without a leading `lib`.
pub open spec fn strip_lib(n: Seq<char>) -> Seq<char> {
    if n.len() >= 3 && n.subrange(0, 3) == "lib"@ {
        n.subrange(3, n.len() as int)
    } else {
        n
    }
}

/// The link flag for a library reference: `libfoo.a` and `foo.so` both give `-lfoo`.
pub open spec fn library_flag_spec(lib: Seq<char>) -> Seq<char> {
    "-l"@ + strip_lib(stem_spec(file_name_spec(lib)))
}

pub open spec fn library_flags(s: Seq<String>) -> Seq<Seq<char>> {
    Seq::new(s.len(), |i: int| library_flag_spec(s[i]@))
}

pub proof fn lemma_strs_push(a: Seq<String>, x: String)
    ensures
        strs(a.push(x)) == strs(a).push(x@),
{
    assert(strs(a.push(x)) =~= strs(a).push(x@));
}

/// The link flag for the library reference `lib`.
pub fn library_flag(lib: &String) -> (r: String)
    ensures
        r@ == library_flag_spec(lib@),
{
    let name = file_stem(file_name(lib.as_str()).as_str());
    let n = name.unicode_len();
    let mut r = String::from_str("-l");
    if n >= 3 && String::from_str(name.as_str().substring_char(0, 3)) == String::from_str("lib") {
        r.append(name.as_str().substring_char(3, n));
    } else {
        r.append(name.as_str());
    }
    r
}

/// Appends `s` to `r`.
pub fn push_str(r: &mut Vec<String>, s: &str)
    ensures
        strs(final(r)@) == strs(old(r)@).push(s@),
{
    let x = String::from_str(s);
    let ghost before = r@;
    r.push(x);
    proof {
        lemma_strs_push(before, x);
    }
}

/// Appends a copy of each item of `items` to `r`.
pub fn push_all(r: &mut Vec<String>, items: &Vec<String>)
    ensures
        strs(final(r)@) == strs(old(r)@) + strs(items@),
{
    let ghost start = r@;
    let mut i: usize = 0;
    while i < items.len()
        invariant
            i <= items@.len(),
            strs(r@) == strs(start) + strs(items@.subrange(0, i as int)),
        decreases items@.len() - i,
    {
        let ghost before = r@;
        r.push(items[i].clone());
        proof {
            lemma_strs_push(before, items@[i as int]);
            lemma_strs_push(items@.subrange(0, i as int), items@[i as int]);
            assert(items@.subrange(0, i + 1) =~= items@.subrange(0, i as int).push(items@[i as int]));
        }
        i = i + 1;
    }
    assert(items@.subrange(0, items@.len() as int) =~= items@);
}

/// Appends each item of `items` with `prefix` in front of it.
pub fn push_prefixed(r: &mut Vec<String>, prefix: &str, items: &Vec<String>)
    ensures
        strs(final(r)@) == strs(old(r)@) + prefixed(prefix@, items@),
{
    let ghost start = r@;
    let mut i: usize = 0;
    while i < items.len()
        invariant
            i <= items@.len(),
            strs(r@) == strs(start) + prefixed(prefix@, items@.subrange(0, i as int)),
        decreases items@.len() - i,
    {
        let mut s = String::from_str(prefix);
        s.append(items[i].as_str());
        let ghost before = r@;
        r.push(s);
        proof {
            lemma_strs_push(before, s);
            assert(prefixed(prefix@, items@.subrange(0, i + 1)) =~= prefixed(
                prefix@,
                items@.subrange(0, i as int),
            ).push(prefix@ + items@[i as int]@));
        }
        i = i + 1;
    }
    assert(items@.subrange(0, items@.len() as int) =~= items@);
}

/// Appends each item of `items`, resolved against `base`, with `prefix` in front of it.
pub fn push_prefixed_joined(r: &mut Vec<String>, prefix: &str, base: &str, items: &Vec<String>)
    ensures
        strs(final(r)@) == strs(old(r)@) + prefixed_joined(prefix@, base@, items@),
{
    let ghost start = r@;
    let mut i: usize = 0;
    while i < items.len()
        invariant
            i <= items@.len(),
            strs(r@) == strs(start) + prefixed_joined(prefix@, base@, items@.subrange(0, i as int)),
        decreases items@.len() - i,
    {
        let j = join_path(base, items[i].as_str());
        let mut s = String::from_str(prefix);
        s.append(j.as_str());
        let ghost before = r@;
        r.push(s);
        proof {
            lemma_strs_push(before, s);
            assert(prefixed_joined(prefix@, base@, items@.subrange(0, i + 1)) =~= prefixed_joined(
                prefix@,
                base@,
                items@.subrange(0, i as int),
            ).push(prefix@ + join_spec(base@, items@[i as int]@)));
        }
        i = i + 1;
    }
    assert(items@.subrange(0, items@.len() as int) =~= items@);
}

/// Appends the link flag of each library reference of `libs`.
pub fn push_library_flags(r: &mut Vec<String>, libs: &Vec<String>)
    ensures
        strs(final(r)@) == strs(old(r)@) + library_flags(libs@),
{
    let ghost start = r@;
    let mut i: usize = 0;
    while i < libs.len()
        invariant
            i <= libs@.len(),
            strs(r@) == strs(start) + library_flags(libs@.subrange(0, i as int)),
        decreases libs@.len() - i,
    {
        let s = library_flag(&libs[i]);
        let ghost before = r@;
        r.push(s);
        proof {
            lemma_strs_push(before, s);
            assert(library_flags(libs@.subrange(0, i + 1)) =~= library_flags(
                libs@.subrange(0, i as int),
            ).push(library_flag_spec(libs@[i as int]@)));
        }
        i = i + 1;
    }
    assert(libs@.subrange(0, libs@.len() as int) =~= libs@);
}

} // verus!
