//! The build orchestrator. It owns the project description, the change cache and
//! the compilation database of one build, and decides every step: which
//! dependencies to clone, how to configure and build them, which sources to
//! compile and with which arguments, and how to link or archive each target.
//! The caller performs the steps (directory listing, file times, processes).
use vstd::prelude::*;
use vstd::string::*;
use crate::argv::{
    library_flags, prefixed, prefixed_joined, push_all, push_library_flags, push_prefixed,
    push_prefixed_joined, push_str, lemma_strs_push,
};
use crate::cache::{update_step, FileUpdateCache, ModTime};
use crate::compdb::{db_of, CompileCommand, CompileDatabase};
use crate::error::BuildError;
use crate::config::{copy_strs, strs, BuildConfig, Config, DependencyConfig, TargetConfig, TargetLanguage, TargetType};
use crate::paths::{extension, extension_spec, file_name, file_name_spec, file_stem, join_path, join_spec, stem_spec};
use crate::resolve::{compiler_of, effective, linker_of, merged, pick, pick_flag, standard_of, BuildProfile};

verus! {

/// One entry of a source directory.
#[derive(Clone, Debug)]
pub struct DirEntry {
    pub path: String,
    pub is_file: bool,
}

/// A source file and the object file it compiles to.
#[derive(Clone, Debug)]
pub struct SourceUnit {
    pub source: String,
    pub object: String,
}

/// How to configure and build one dependency.
#[derive(Clone, Debug)]
pub struct DependencyBuild {
    /// Where the dependency's source was cloned
    pub source_dir: String,
    /// The build directory nested in it, created if absent
    pub build_dir: String,
    /// The configure invocation
    pub configure: Vec<String>,
    /// The build invocation
    pub build: Vec<String>,
}

pub open spec fn build_dir_spec(base: Seq<char>, b: BuildConfig) -> Seq<char> {
    join_spec(base, b.build_dir@)
}

pub open spec fn dep_dir_spec(base: Seq<char>, b: BuildConfig) -> Seq<char> {
    join_spec(base, b.dep_dir@)
}

/// The output directory of a target: its name, under the build directory.
pub open spec fn out_dir_spec(base: Seq<char>, b: BuildConfig, t: TargetConfig) -> Seq<char> {
    join_spec(build_dir_spec(base, b), t.name@)
}

/// A file name that a target in `lang` compiles: `.c` for C; `.cpp`, `.cc` or
/// `.cxx` for C++.
pub open spec fn is_source_name(lang: TargetLanguage, name: Seq<char>) -> bool {
    match extension_spec(name) {
        None => false,
        Some(e) => match lang {
            TargetLanguage::C => e == "c"@,
            TargetLanguage::Cpp => e == "cpp"@ || e == "cc"@ || e == "cxx"@,
        },
    }
}

/// The object file of `src`: same stem, extension `.o`, in the output directory.
pub open spec fn object_of(out: Seq<char>, src: Seq<char>) -> Seq<char> {
    join_spec(out, stem_spec(file_name_spec(src)) + ".o"@)
}

/// The (source, object) pairs of the files among `s` that a target in `lang` compiles.
pub open spec fn selected(lang: TargetLanguage, out: Seq<char>, s: Seq<DirEntry>) -> Seq<(Seq<char>, Seq<char>)>
    decreases s.len(),
{
    if s.len() == 0 {
        seq![]
    } else {
        let rest = selected(lang, out, s.drop_last());
        let e = s.last();
        if e.is_file && is_source_name(lang, file_name_spec(e.path@)) {
            rest.push((e.path@, object_of(out, e.path@)))
        } else {
            rest
        }
    }
}

pub open spec fn unit_views(v: Seq<SourceUnit>) -> Seq<(Seq<char>, Seq<char>)> {
    Seq::new(v.len(), |i: int| (v[i].source@, v[i].object@))
}

pub open spec fn objects_of(v: Seq<SourceUnit>) -> Seq<Seq<char>> {
    Seq::new(v.len(), |i: int| v[i].object@)
}

pub open spec fn flag_if(b: bool, flag: Seq<char>) -> Seq<Seq<char>> {
    if b {
        seq![flag]
    } else {
        seq![]
    }
}

/// The compiler invocation for `src` of target `t`: compiler, standard, extra
/// flags, defines, include directories, warnings, `-g` and `-Werror` when
/// enabled, optimization level, then the source and object paths.
pub open spec fn compile_argv(b: BuildConfig, t: TargetConfig, base: Seq<char>, src: Seq<char>, obj: Seq<char>) -> Seq<Seq<char>> {
    let o = effective(t.build_overrides);
    seq![compiler_of(b, o, t.language), "-std="@ + standard_of(b, o, t.language)]
        + strs(merged(b.flags@, o.flags))
        + prefixed("-D"@, b.defines@)
        + prefixed_joined("-I"@, base, t.include_dirs@)
        + prefixed("-W"@, merged(b.warnings@, o.warnings))
        + flag_if(pick_flag(o.debug, b.debug), "-g"@)
        + flag_if(pick_flag(o.warnings_as_errors, b.warnings_as_errors), "-Werror"@)
        + seq!["-O"@ + pick(o.opt_level, b.opt_level), "-c"@, src, "-o"@, obj]
}

/// The final step of target `t` over its units: a binary is linked from all
/// objects with its library directories and libraries into an executable named
/// after it; a static library is archived into `lib<name>.a`.
pub open spec fn link_argv(b: BuildConfig, t: TargetConfig, base: Seq<char>, units: Seq<SourceUnit>) -> Seq<Seq<char>> {
    let out = out_dir_spec(base, b, t);
    match t.target_type {
        TargetType::Binary => seq![linker_of(b, effective(t.build_overrides), t.language)]
            + objects_of(units)
            + prefixed_joined("-L"@, base, t.library_dirs@)
            + library_flags(t.libraries@)
            + seq!["-o"@, join_spec(out, t.name@)],
        TargetType::StaticLibrary => seq!["ar"@, "rcs"@, join_spec(out, "lib"@ + t.name@ + ".a"@)]
            + objects_of(units),
    }
}

/// Whether a source is compiled: always after the project file changed, else when
/// its own check finds it updated.
pub open spec fn compiles(config_changed: bool, m: Map<Seq<char>, ModTime>, src: Seq<char>, t: ModTime) -> bool {
    config_changed || update_step(m, src, t).0
}

/// The clone invocation for dependency `name`.
pub open spec fn clone_argv(dep_dir: Seq<char>, name: Seq<char>, dep: DependencyConfig) -> Seq<Seq<char>> {
    seq!["git"@, "clone"@] + match dep.tag {
        Some(t) => seq!["--branch"@, t@],
        None => seq![],
    } + seq![dep.git@, join_spec(dep_dir, name)]
}

/// The clone invocations for the first `n` dependencies: one for each whose
/// directory is not present.
pub open spec fn clone_plan(
    deps: Seq<(String, DependencyConfig)>,
    present: Seq<bool>,
    dep_dir: Seq<char>,
    n: int,
) -> Seq<Seq<Seq<char>>>
    decreases n,
{
    if n <= 0 {
        seq![]
    } else {
        let rest = clone_plan(deps, present, dep_dir, n - 1);
        if present[n - 1] {
            rest
        } else {
            rest.push(clone_argv(dep_dir, deps[n - 1].0@, deps[n - 1].1))
        }
    }
}

pub open spec fn argv_views(v: Seq<Vec<String>>) -> Seq<Seq<Seq<char>>> {
    Seq::new(v.len(), |i: int| strs(v[i]@))
}

/// `d` configures dependency `name` in a `build` directory nested in its source
/// directory, with its own flags followed by the global extra flags, then builds it.
pub open spec fn is_dependency_build(
    d: DependencyBuild,
    dep_dir: Seq<char>,
    name: Seq<char>,
    dep: DependencyConfig,
    b: BuildConfig,
) -> bool {
    let src = join_spec(dep_dir, name);
    let bd = join_spec(src, "build"@);
    &&& d.source_dir@ == src
    &&& d.build_dir@ == bd
    &&& strs(d.configure@) == seq!["cmake"@, "-S"@, src, "-B"@, bd] + strs(dep.cmake_flags@) + strs(b.flags@)
    &&& strs(d.build@) == seq!["cmake"@, "--build"@, bd]
}

/// Whether `name` ends in an extension that a target in `lang` compiles.
pub fn is_source_file(lang: TargetLanguage, name: &str) -> (r: bool)
    ensures
        r == is_source_name(lang, name@),
{
    match extension(name) {
        None => false,
        Some(e) => match lang {
            TargetLanguage::C => e == String::from_str("c"),
            TargetLanguage::Cpp => e == String::from_str("cpp") || e == String::from_str("cc") || e
                == String::from_str("cxx"),
        },
    }
}

fn push_objects(r: &mut Vec<String>, units: &Vec<SourceUnit>)
    ensures
        strs(final(r)@) == strs(old(r)@) + objects_of(units@),
{
    let ghost start = r@;
    let mut i: usize = 0;
    while i < units.len()
        invariant
            i <= units@.len(),
            strs(r@) == strs(start) + objects_of(units@.subrange(0, i as int)),
        decreases units@.len() - i,
    {
        let s = units[i].object.clone();
        let ghost before = r@;
        r.push(s);
        proof {
            lemma_strs_push(before, s);
            assert(objects_of(units@.subrange(0, i + 1)) =~= objects_of(units@.subrange(0, i as int)).push(
                units@[i as int].object@,
            ));
        }
        i = i + 1;
    }
    assert(units@.subrange(0, units@.len() as int) =~= units@);
}

/// The orchestrator of one build.
pub struct Builder {
    pub config: Config,
    /// Directory of the project file; relative paths are resolved against it
    pub base_dir: String,
    pub compile_commands: CompileDatabase,
    pub file_cache: FileUpdateCache,
    /// The project file changed since the last build
    pub config_updated: bool,
}

impl Builder {
    pub open spec fn wf(&self) -> bool {
        self.compile_commands.wf() && self.file_cache.wf()
    }

    /// A builder over `config`, given the change cache and compilation database of
    /// the previous build and the modification time of the project file. The
    /// project file goes through the change check like any source.
    pub fn new(
        config: Config,
        base_dir: String,
        cache: FileUpdateCache,
        previous: Vec<CompileCommand>,
        config_path: &String,
        config_modified: ModTime,
    ) -> (r: Builder)
        requires
            cache.wf(),
        ensures
            r.wf(),
            r.config == config,
            r.base_dir == base_dir,
            (r.config_updated, r.file_cache@) == update_step(cache@, config_path@, config_modified),
            r.compile_commands@ == db_of(previous@),
    {
        let mut file_cache = cache;
        let config_updated = file_cache.is_updated(config_path, config_modified);
        let compile_commands = CompileDatabase::from_entries(previous);
        Builder { config, base_dir, compile_commands, file_cache, config_updated }
    }

    /// The build directory.
    pub fn build_dir(&self) -> (r: String)
        ensures
            r@ == build_dir_spec(self.base_dir@, self.config.build),
    {
        join_path(self.base_dir.as_str(), self.config.build.build_dir.as_str())
    }

    /// The directory that dependencies are cloned into.
    pub fn dep_dir(&self) -> (r: String)
        ensures
            r@ == dep_dir_spec(self.base_dir@, self.config.build),
    {
        join_path(self.base_dir.as_str(), self.config.build.dep_dir.as_str())
    }

    /// The directory that dependency `name` is cloned into.
    pub fn dependency_dir(&self, name: &String) -> (r: String)
        ensures
            r@ == join_spec(dep_dir_spec(self.base_dir@, self.config.build), name@),
    {
        let d = self.dep_dir();
        join_path(d.as_str(), name.as_str())
    }

    /// The output directory of `target`.
    pub fn target_out_dir(&self, target: &TargetConfig) -> (r: String)
        ensures
            r@ == out_dir_spec(self.base_dir@, self.config.build, *target),
    {
        let b = self.build_dir();
        join_path(b.as_str(), target.name.as_str())
    }

    /// The source directories of `target`, resolved against the base directory.
    pub fn source_dirs(&self, target: &TargetConfig) -> (r: Vec<String>)
        ensures
            strs(r@) == Seq::new(target.source_dirs@.len(), |i: int| join_spec(self.base_dir@, target.source_dirs@[i]@)),
    {
        let mut r: Vec<String> = Vec::new();
        push_prefixed_joined(&mut r, "", self.base_dir.as_str(), &target.source_dirs);
        proof {
            reveal_strlit("");
            assert(strs(r@) =~= Seq::new(target.source_dirs@.len(), |i: int| join_spec(self.base_dir@, target.source_dirs@[i]@)));
        }
        r
    }

    /// The sources of `target` among the directory entries `entries`, each with its
    /// object file, in the order of the entries.
    pub fn discover_sources(&self, target: &TargetConfig, entries: &Vec<DirEntry>) -> (r: Vec<SourceUnit>)
        ensures
            unit_views(r@) == selected(
                target.language,
                out_dir_spec(self.base_dir@, self.config.build, *target),
                entries@,
            ),
    {
        let out = self.target_out_dir(target);
        let ghost lang = target.language;
        let mut r: Vec<SourceUnit> = Vec::new();
        let mut i: usize = 0;
        while i < entries.len()
            invariant
                i <= entries@.len(),
                lang == target.language,
                unit_views(r@) == selected(lang, out@, entries@.subrange(0, i as int)),
            decreases entries@.len() - i,
        {
            let e = &entries[i];
            proof {
                assert(entries@.subrange(0, i + 1).drop_last() =~= entries@.subrange(0, i as int));
                assert(entries@.subrange(0, i + 1).last() == entries@[i as int]);
            }
            if e.is_file {
                let name = file_name(e.path.as_str());
                if is_source_file(target.language, name.as_str()) {
                    let mut obj_name = file_stem(name.as_str());
                    obj_name.append(".o");
                    let object = join_path(out.as_str(), obj_name.as_str());
                    let ghost before = r@;
                    r.push(SourceUnit { source: e.path.clone(), object });
                    proof {
                        assert(unit_views(r@) =~= unit_views(before).push((e.path@, object_of(out@, e.path@))));
                    }
                }
            }
            i = i + 1;
        }
        assert(entries@.subrange(0, entries@.len() as int) =~= entries@);
        r
    }

    /// The compiler invocation for `unit` of `target`.
    pub fn compile_command(&self, target: &TargetConfig, unit: &SourceUnit) -> (r: Vec<String>)
        ensures
            strs(r@) == compile_argv(self.config.build, *target, self.base_dir@, unit.source@, unit.object@),
    {
        let prof = BuildProfile::resolve(&self.config.build, &target.build_overrides, target.language);
        let mut r: Vec<String> = Vec::new();
        push_str(&mut r, prof.compiler.as_str());
        let mut std_arg = String::from_str("-std=");
        std_arg.append(prof.standard.as_str());
        push_str(&mut r, std_arg.as_str());
        let ghost s1 = strs(r@);
        push_all(&mut r, &prof.flags);
        push_prefixed(&mut r, "-D", &prof.defines);
        push_prefixed_joined(&mut r, "-I", self.base_dir.as_str(), &target.include_dirs);
        push_prefixed(&mut r, "-W", &prof.warnings);
        let ghost s2 = strs(r@);
        if prof.debug {
            push_str(&mut r, "-g");
        }
        let ghost s3 = strs(r@);
        if prof.warnings_as_errors {
            push_str(&mut r, "-Werror");
        }
        let ghost s4 = strs(r@);
        let mut opt = String::from_str("-O");
        opt.append(prof.opt_level.as_str());
        push_str(&mut r, opt.as_str());
        push_str(&mut r, "-c");
        push_str(&mut r, unit.source.as_str());
        push_str(&mut r, "-o");
        push_str(&mut r, unit.object.as_str());
        proof {
            let o = effective(target.build_overrides);
            assert(s3 =~= s2 + flag_if(pick_flag(o.debug, self.config.build.debug), "-g"@));
            assert(s4 =~= s3 + flag_if(
                pick_flag(o.warnings_as_errors, self.config.build.warnings_as_errors),
                "-Werror"@,
            ));
            assert(strs(r@) =~= compile_argv(
                self.config.build,
                *target,
                self.base_dir@,
                unit.source@,
                unit.object@,
            ));
        }
        r
    }

    /// One compilation decision for `unit` of `target`, whose source was last
    /// modified at `modified`. The change check of the source always runs and
    /// refreshes its record when it finds the source updated; the source is
    /// compiled when the project file changed or the check found it updated. A
    /// compiled source gets its invocation recorded in the compilation database,
    /// when that is enabled, and the invocation is returned for the caller to run.
    /// A skipped source gives `None`.
    pub fn compile_step(&mut self, target: &TargetConfig, unit: &SourceUnit, modified: ModTime) -> (r: Option<Vec<String>>)
        requires
            old(self).wf(),
        ensures
            final(self).wf(),
            final(self).config == old(self).config,
            final(self).base_dir == old(self).base_dir,
            final(self).config_updated == old(self).config_updated,
            final(self).file_cache@ == update_step(old(self).file_cache@, unit.source@, modified).1,
            r is Some == compiles(old(self).config_updated, old(self).file_cache@, unit.source@, modified),
            r is Some ==> strs(r->Some_0@) == compile_argv(
                old(self).config.build,
                *target,
                old(self).base_dir@,
                unit.source@,
                unit.object@,
            ),
            (r is Some && old(self).config.build.output_compile_commands) ==> {
                let e = final(self).compile_commands@[unit.source@];
                &&& final(self).compile_commands@.contains_key(unit.source@)
                &&& e.directory@ == old(self).base_dir@
                &&& e.file@ == unit.source@
                &&& strs(e.arguments@) == strs(r->Some_0@)
                &&& final(self).compile_commands@.remove(unit.source@) == old(self).compile_commands@.remove(unit.source@)
            },
            (r is None || !old(self).config.build.output_compile_commands) ==> final(self).compile_commands@
                == old(self).compile_commands@,
    {
        let updated = self.file_cache.is_updated(&unit.source, modified);
        let dirty = self.config_updated || updated;
        if !dirty {
            return None;
        }
        let args = self.compile_command(target, unit);
        if self.config.build.output_compile_commands {
            let entry = CompileCommand {
                directory: self.base_dir.clone(),
                arguments: copy_strs(&args),
                file: unit.source.clone(),
            };
            self.compile_commands.record(entry);
            proof {
                assert(self.compile_commands@.remove(unit.source@) =~= old(self).compile_commands@.remove(unit.source@));
            }
        }
        Some(args)
    }

    /// The link or archive invocation of `target` over all its units.
    pub fn link_command(&self, target: &TargetConfig, units: &Vec<SourceUnit>) -> (r: Vec<String>)
        ensures
            strs(r@) == link_argv(self.config.build, *target, self.base_dir@, units@),
    {
        let out = self.target_out_dir(target);
        let mut r: Vec<String> = Vec::new();
        match target.target_type {
            TargetType::Binary => {
                let prof = BuildProfile::resolve(&self.config.build, &target.build_overrides, target.language);
                push_str(&mut r, prof.linker.as_str());
                push_objects(&mut r, units);
                push_prefixed_joined(&mut r, "-L", self.base_dir.as_str(), &target.library_dirs);
                push_library_flags(&mut r, &target.libraries);
                push_str(&mut r, "-o");
                let exe = join_path(out.as_str(), target.name.as_str());
                push_str(&mut r, exe.as_str());
                assert(strs(r@) =~= link_argv(self.config.build, *target, self.base_dir@, units@));
            },
            TargetType::StaticLibrary => {
                let mut lib_name = String::from_str("lib");
                lib_name.append(target.name.as_str());
                lib_name.append(".a");
                let lib = join_path(out.as_str(), lib_name.as_str());
                push_str(&mut r, "ar");
                push_str(&mut r, "rcs");
                push_str(&mut r, lib.as_str());
                push_objects(&mut r, units);
                assert(strs(r@) =~= link_argv(self.config.build, *target, self.base_dir@, units@));
            },
        }
        r
    }

    /// The clone invocation for dependency `name`, or `None` when its directory is
    /// already present: a present dependency is never cloned again.
    pub fn download_dependency(&self, name: &String, dep: &DependencyConfig, present: bool) -> (r: Option<Vec<String>>)
        ensures
            r is None == present,
            r is Some ==> strs(r->Some_0@) == clone_argv(
                dep_dir_spec(self.base_dir@, self.config.build),
                name@,
                *dep,
            ),
    {
        if present {
            return None;
        }
        let dep_dir = self.dep_dir();
        let mut r: Vec<String> = Vec::new();
        push_str(&mut r, "git");
        push_str(&mut r, "clone");
        match &dep.tag {
            Some(t) => {
                push_str(&mut r, "--branch");
                push_str(&mut r, t.as_str());
            },
            None => {},
        }
        push_str(&mut r, dep.git.as_str());
        let target = join_path(dep_dir.as_str(), name.as_str());
        push_str(&mut r, target.as_str());
        assert(strs(r@) =~= clone_argv(dep_dir@, name@, *dep));
        Some(r)
    }

    /// The clone invocations of the fetch stage, in the order of the dependencies;
    /// `present[i]` tells whether the directory of dependency `i` exists.
    pub fn fetch_dependencies(&self, present: &Vec<bool>) -> (r: Vec<Vec<String>>)
        requires
            present@.len() == self.config.dependencies@.len(),
        ensures
            argv_views(r@) == clone_plan(
                self.config.dependencies@,
                present@,
                dep_dir_spec(self.base_dir@, self.config.build),
                present@.len() as int,
            ),
    {
        let ghost dd = dep_dir_spec(self.base_dir@, self.config.build);
        let mut r: Vec<Vec<String>> = Vec::new();
        let mut i: usize = 0;
        while i < present.len()
            invariant
                i <= present@.len(),
                present@.len() == self.config.dependencies@.len(),
                dd == dep_dir_spec(self.base_dir@, self.config.build),
                argv_views(r@) == clone_plan(self.config.dependencies@, present@, dd, i as int),
            decreases present@.len() - i,
        {
            let (name, dep) = &self.config.dependencies[i];
            match self.download_dependency(name, dep, present[i]) {
                Some(argv) => {
                    let ghost before = r@;
                    r.push(argv);
                    assert(argv_views(r@) =~= argv_views(before).push(strs(argv@)));
                },
                None => {},
            }
            i = i + 1;
        }
        r
    }

    /// How to configure and build dependency `name`, whose source directory is
    /// present or not as `present` says. Nothing is cached: every build configures
    /// and builds every dependency again.
    pub fn build_dependency(&self, name: &String, dep: &DependencyConfig, present: bool) -> (r: Result<DependencyBuild, BuildError>)
        ensures
            r is Ok == present,
            match r {
                Ok(d) => is_dependency_build(d, dep_dir_spec(self.base_dir@, self.config.build), name@, *dep, self.config.build),
                Err(BuildError::DependencyMissing { name: n, path }) => n@ == name@ && path@ == join_spec(
                    dep_dir_spec(self.base_dir@, self.config.build),
                    name@,
                ),
                Err(_) => false,
            },
    {
        let dep_dir = self.dep_dir();
        let source_dir = join_path(dep_dir.as_str(), name.as_str());
        if !present {
            return Err(BuildError::DependencyMissing { name: name.clone(), path: source_dir });
        }
        let build_dir = join_path(source_dir.as_str(), "build");
        let mut configure: Vec<String> = Vec::new();
        push_str(&mut configure, "cmake");
        push_str(&mut configure, "-S");
        push_str(&mut configure, source_dir.as_str());
        push_str(&mut configure, "-B");
        push_str(&mut configure, build_dir.as_str());
        push_all(&mut configure, &dep.cmake_flags);
        push_all(&mut configure, &self.config.build.flags);
        let mut build: Vec<String> = Vec::new();
        push_str(&mut build, "cmake");
        push_str(&mut build, "--build");
        push_str(&mut build, build_dir.as_str());
        let d = DependencyBuild { source_dir, build_dir, configure, build };
        assert(strs(d.configure@) =~= seq!["cmake"@, "-S"@, d.source_dir@, "-B"@, d.build_dir@] + strs(dep.cmake_flags@) + strs(self.config.build.flags@));
        assert(strs(d.build@) =~= seq!["cmake"@, "--build"@, d.build_dir@]);
        Ok(d)
    }

    /// The build stage of every dependency, in order. It fails with the first
    /// dependency whose directory is absent (`present[i]` false): this stage never
    /// fetches.
    pub fn build_dependencies(&self, present: &Vec<bool>) -> (r: Result<Vec<DependencyBuild>, BuildError>)
        requires
            present@.len() == self.config.dependencies@.len(),
        ensures
            r is Ok == (forall|i: int| 0 <= i < present@.len() ==> present@[i]),
            match r {
                Ok(v) => v@.len() == present@.len() && forall|i: int| 0 <= i < v@.len() ==> is_dependency_build(
                    #[trigger] v@[i],
                    dep_dir_spec(self.base_dir@, self.config.build),
                    self.config.dependencies@[i].0@,
                    self.config.dependencies@[i].1,
                    self.config.build,
                ),
                Err(BuildError::DependencyMissing { name, path }) => exists|i: int|
                    0 <= i < present@.len() && !present@[i] && (forall|j: int| 0 <= j < i ==> present@[j])
                        && name@ == #[trigger] self.config.dependencies@[i].0@ && path@ == join_spec(
                        dep_dir_spec(self.base_dir@, self.config.build),
                        name@,
                    ),
                Err(_) => false,
            },
    {
        let mut r: Vec<DependencyBuild> = Vec::new();
        let mut i: usize = 0;
        while i < present.len()
            invariant
                i <= present@.len(),
                present@.len() == self.config.dependencies@.len(),
                r@.len() == i,
                forall|j: int| 0 <= j < i ==> present@[j],
                forall|j: int| 0 <= j < i ==> is_dependency_build(
                    #[trigger] r@[j],
                    dep_dir_spec(self.base_dir@, self.config.build),
                    self.config.dependencies@[j].0@,
                    self.config.dependencies@[j].1,
                    self.config.build,
                ),
            decreases present@.len() - i,
        {
            let (name, dep) = &self.config.dependencies[i];
            match self.build_dependency(name, dep, present[i]) {
                Ok(d) => {
                    r.push(d);
                },
                Err(e) => {
                    assert(self.config.dependencies@[i as int].0@ == name@);
                    return Err(e);
                },
            }
            i = i + 1;
        }
        Ok(r)
    }
}

/// After the project file was touched, every source of every target is compiled
/// whatever its own modification time: the builder's check of the project file
/// finds it updated, and that forces each compilation decision.
pub proof fn lemma_config_change_rebuilds_all(
    cache: Map<Seq<char>, ModTime>,
    config_path: Seq<char>,
    touched: ModTime,
)
    requires
        cache.contains_key(config_path) ==> crate::cache::later(touched, cache[config_path]),
    ensures
        update_step(cache, config_path, touched).0,
        forall|m: Map<Seq<char>, ModTime>, src: Seq<char>, t: ModTime|
            #[trigger] compiles(update_step(cache, config_path, touched).0, m, src, t),
{
}

} // verus!
