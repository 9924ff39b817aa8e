//! Merging the global build options with a target's overrides into the options
//! that one compilation actually uses.
use vstd::prelude::*;
use crate::config::{copy_strs, BuildConfig, BuildConfigOverrides, TargetLanguage};

verus! {

/// Overrides that override nothing.
pub open spec fn no_overrides() -> BuildConfigOverrides {
    BuildConfigOverrides {
        build_dir: None,
        opt_level: None,
        c_compiler: None,
        cpp_compiler: None,
        c_standard: None,
        cpp_standard: None,
        c_linker: None,
        cpp_linker: None,
        debug: None,
        warnings_as_errors: None,
        warnings: None,
        flags: None,
        defines: None,
    }
}

/// The overrides in effect: an absent block overrides nothing.
pub open spec fn effective(o: Option<BuildConfigOverrides>) -> BuildConfigOverrides {
    match o {
        Some(ov) => ov,
        None => no_overrides(),
    }
}

/// A scalar option: the override if present, else the global value.
pub open spec fn pick(o: Option<String>, g: String) -> Seq<char> {
    match o {
        Some(s) => s@,
        None => g@,
    }
}

pub open spec fn pick_flag(o: Option<bool>, g: bool) -> bool {
    match o {
        Some(b) => b,
        None => g,
    }
}

/// A list option: the global list, followed by the override list if present.
pub open spec fn merged(g: Seq<String>, o: Option<Vec<String>>) -> Seq<String> {
    match o {
        Some(v) => g + v@,
        None => g,
    }
}

pub open spec fn compiler_of(b: BuildConfig, o: BuildConfigOverrides, lang: TargetLanguage) -> Seq<char> {
    match lang {
        TargetLanguage::C => pick(o.c_compiler, b.c_compiler),
        TargetLanguage::Cpp => pick(o.cpp_compiler, b.cpp_compiler),
    }
}

pub open spec fn standard_of(b: BuildConfig, o: BuildConfigOverrides, lang: TargetLanguage) -> Seq<char> {
    match lang {
        TargetLanguage::C => pick(o.c_standard, b.c_standard),
        TargetLanguage::Cpp => pick(o.cpp_standard, b.cpp_standard),
    }
}

pub open spec fn linker_of(b: BuildConfig, o: BuildConfigOverrides, lang: TargetLanguage) -> Seq<char> {
    match lang {
        TargetLanguage::C => pick(o.c_linker, b.c_linker),
        TargetLanguage::Cpp => pick(o.cpp_linker, b.cpp_linker),
    }
}

/// The options of one compilation after merging.
pub struct BuildProfile {
    pub compiler: String,
    pub standard: String,
    pub linker: String,
    pub opt_level: String,
    pub debug: bool,
    pub warnings_as_errors: bool,
    pub warnings: Vec<String>,
    pub flags: Vec<String>,
    pub defines: Vec<String>,
}

/// `p` is what the global options `b` and the target's overrides `o` give for a
/// target in `lang`. Defines are global only.
pub open spec fn is_profile_of(
    p: BuildProfile,
    b: BuildConfig,
    o: Option<BuildConfigOverrides>,
    lang: TargetLanguage,
) -> bool {
    let ov = effective(o);
    &&& p.compiler@ == compiler_of(b, ov, lang)
    &&& p.standard@ == standard_of(b, ov, lang)
    &&& p.linker@ == linker_of(b, ov, lang)
    &&& p.opt_level@ == pick(ov.opt_level, b.opt_level)
    &&& p.debug == pick_flag(ov.debug, b.debug)
    &&& p.warnings_as_errors == pick_flag(ov.warnings_as_errors, b.warnings_as_errors)
    &&& p.warnings@ == merged(b.warnings@, ov.warnings)
    &&& p.flags@ == merged(b.flags@, ov.flags)
    &&& p.defines@ == b.defines@
}

/// A scalar option: `over` if present, else `global`.
pub fn pick_str(over: &Option<String>, global: &String) -> (r: String)
    ensures
        r@ == pick(*over, *global),
{
    match over {
        Some(s) => s.clone(),
        None => global.clone(),
    }
}

/// A flag option: `over` if present, else `global`.
pub fn pick_bool(over: &Option<bool>, global: bool) -> (r: bool)
    ensures
        r == pick_flag(*over, global),
{
    match over {
        Some(b) => *b,
        None => global,
    }
}

/// A list option: `global` extended by `extra` when it is present. The extra
/// list never replaces the global one.
pub fn merge_list(global: &Vec<String>, extra: &Option<Vec<String>>) -> (r: Vec<String>)
    ensures
        r@ == merged(global@, *extra),
{
    let mut r = copy_strs(global);
    match extra {
        Some(v) => {
            let mut i: usize = 0;
            while i < v.len()
                invariant
                    i <= v@.len(),
                    r@ == global@ + v@.subrange(0, i as int),
                decreases v@.len() - i,
            {
                r.push(v[i].clone());
                proof {
                    assert(v@.subrange(0, i + 1) =~= v@.subrange(0, i as int).push(v@[i as int]));
                }
                i = i + 1;
            }
            assert(v@.subrange(0, v@.len() as int) =~= v@);
        },
        None => {},
    }
    r
}

impl BuildProfile {
    /// The options for a target in `language` with the overrides `overrides`.
    pub fn resolve(
        build: &BuildConfig,
        overrides: &Option<BuildConfigOverrides>,
        language: TargetLanguage,
    ) -> (r: BuildProfile)
        ensures
            is_profile_of(r, *build, *overrides, language),
    {
        match overrides {
            Some(ov) => {
                let (compiler, standard, linker) = match language {
                    TargetLanguage::C => (
                        pick_str(&ov.c_compiler, &build.c_compiler),
                        pick_str(&ov.c_standard, &build.c_standard),
                        pick_str(&ov.c_linker, &build.c_linker),
                    ),
                    TargetLanguage::Cpp => (
                        pick_str(&ov.cpp_compiler, &build.cpp_compiler),
                        pick_str(&ov.cpp_standard, &build.cpp_standard),
                        pick_str(&ov.cpp_linker, &build.cpp_linker),
                    ),
                };
                BuildProfile {
                    compiler,
                    standard,
                    linker,
                    opt_level: pick_str(&ov.opt_level, &build.opt_level),
                    debug: pick_bool(&ov.debug, build.debug),
                    warnings_as_errors: pick_bool(&ov.warnings_as_errors, build.warnings_as_errors),
                    warnings: merge_list(&build.warnings, &ov.warnings),
                    flags: merge_list(&build.flags, &ov.flags),
                    defines: copy_strs(&build.defines),
                }
            },
            None => {
                let (compiler, standard, linker) = match language {
                    TargetLanguage::C => (
                        build.c_compiler.clone(),
                        build.c_standard.clone(),
                        build.c_linker.clone(),
                    ),
                    TargetLanguage::Cpp => (
                        build.cpp_compiler.clone(),
                        build.cpp_standard.clone(),
                        build.cpp_linker.clone(),
                    ),
                };
                BuildProfile {
                    compiler,
                    standard,
                    linker,
                    opt_level: build.opt_level.clone(),
                    debug: build.debug,
                    warnings_as_errors: build.warnings_as_errors,
                    warnings: copy_strs(&build.warnings),
                    flags: copy_strs(&build.flags),
                    defines: copy_strs(&build.defines),
                }
            },
        }
    }
}

/// Merging a target's flags `[a]` onto the global `[g]` gives `[g, a]`, and with
/// no target flags it gives `[g]`: the global list always comes first and whole.
pub proof fn lemma_merge_appends(g: Seq<String>, o: Option<Vec<String>>)
    ensures
        merged(g, o).len() >= g.len(),
        merged(g, o).subrange(0, g.len() as int) == g,
        o is None ==> merged(g, o) == g,
        o is Some ==> merged(g, o).subrange(g.len() as int, merged(g, o).len() as int) == o->Some_0@,
{
    match o {
        Some(v) => {
            assert((g + v@).subrange(0, g.len() as int) =~= g);
            assert((g + v@).subrange(g.len() as int, (g + v@).len() as int) =~= v@);
        },
        None => {
            assert(g.subrange(0, g.len() as int) =~= g);
        },
    }
}

} // verus!
