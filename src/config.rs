//! The project description: global build options, per-target overrides,
//! dependencies and targets, and the command-line surface that selects a command.
use vstd::prelude::*;
use vstd::string::*;
use crate::error::BuildError;

verus! {

/// The characters of each string of a list.
pub open spec fn strs(v: Seq<String>) -> Seq<Seq<char>> {
    Seq::new(v.len(), |i: int| v[i]@)
}

/// A copy of a list of strings.
pub fn copy_strs(v: &Vec<String>) -> (r: Vec<String>)
    ensures
        r@ == v@,
{
    let mut r: Vec<String> = Vec::new();
    let mut i: usize = 0;
    while i < v.len()
        invariant
            i <= v.len(),
            r@ == v@.subrange(0, i as int),
        decreases v.len() - i,
    {
        r.push(v[i].clone());
        i = i + 1;
    }
    assert(r@ =~= v@);
    r
}

/// Programming language of a target.
#[derive(Clone, Copy, Debug, PartialEq, Eq, Structural)]
pub enum TargetLanguage {
    C,
    Cpp,
}

/// Kind of artifact a target produces.
#[derive(Clone, Copy, Debug, PartialEq, Eq, Structural)]
pub enum TargetType {
    Binary,
    StaticLibrary,
}

/// Workspace configuration.
#[derive(Clone, Debug)]
pub struct WorkspaceConfig {
    /// Name of the project
    pub name: String,
}

/// Global build options. Every field has a default, so a minimal project file is valid.
#[derive(Clone, Debug)]
pub struct BuildConfig {
    /// Directory to place build artifacts
    pub build_dir: String,
    /// Directory to store dependency source code
    pub dep_dir: String,
    /// Whether to write a compilation database
    pub output_compile_commands: bool,
    /// Optimization level (0, 1, 2, 3, s, z, ...)
    pub opt_level: String,
    pub c_compiler: String,
    pub cpp_compiler: String,
    pub c_standard: String,
    pub cpp_standard: String,
    pub c_linker: String,
    pub cpp_linker: String,
    /// Include debug symbols
    pub debug: bool,
    /// Treat warnings as errors
    pub warnings_as_errors: bool,
    /// Warnings to enable, without their `-W`
    pub warnings: Vec<String>,
    /// Additional compiler flags
    pub flags: Vec<String>,
    /// Preprocessor defines, without their `-D`
    pub defines: Vec<String>,
}

/// Per-target overrides of the global build options; an absent field falls
/// through to the global value.
#[derive(Clone, Debug)]
pub struct BuildConfigOverrides {
    pub build_dir: Option<String>,
    pub opt_level: Option<String>,
    pub c_compiler: Option<String>,
    pub cpp_compiler: Option<String>,
    pub c_standard: Option<String>,
    pub cpp_standard: Option<String>,
    pub c_linker: Option<String>,
    pub cpp_linker: Option<String>,
    pub debug: Option<bool>,
    pub warnings_as_errors: Option<bool>,
    /// Appended to the global warnings
    pub warnings: Option<Vec<String>>,
    /// Appended to the global flags
    pub flags: Option<Vec<String>>,
    /// Accepted in the project file, but defines are global only
    pub defines: Option<Vec<String>>,
}

/// One target: a named executable or static library.
#[derive(Clone, Debug)]
pub struct TargetConfig {
    /// Name of the target, also the base name of its artifact
    pub name: String,
    pub target_type: TargetType,
    pub language: TargetLanguage,
    /// Directories whose files are compiled
    pub source_dirs: Vec<String>,
    pub include_dirs: Vec<String>,
    pub library_dirs: Vec<String>,
    /// Libraries to link, as file names or paths (`libfoo.a`)
    pub libraries: Vec<String>,
    /// Names of the dependencies the target uses
    pub dependencies: Vec<String>,
    pub build_overrides: Option<BuildConfigOverrides>,
}

/// An external project fetched from source control and built with its own tooling.
#[derive(Clone, Debug)]
pub struct DependencyConfig {
    /// URL of the repository
    pub git: String,
    /// Optional tag, branch or commit to check out
    pub tag: Option<String>,
    /// Extra configure flags
    pub cmake_flags: Vec<String>,
}

/// The whole project description, read once per invocation.
#[derive(Clone, Debug)]
pub struct Config {
    pub workspace: WorkspaceConfig,
    pub build: BuildConfig,
    /// Dependencies by name; the names are distinct
    pub dependencies: Vec<(String, DependencyConfig)>,
    /// Targets in declaration order; the names are distinct
    pub targets: Vec<TargetConfig>,
}

/// Options given to every command.
#[derive(Clone, Debug)]
pub struct Opts {
    /// Path of the project file
    pub config: String,
}

/// Options of the build command (it has none).
#[derive(Clone, Debug)]
pub struct BuildOpts {}

/// Options of the clean command.
#[derive(Clone, Debug)]
pub struct CleanOpts {
    /// Remove the dependency directory as well
    pub deps: bool,
}

/// Options of the new command.
#[derive(Clone, Debug)]
pub struct NewOpts {
    /// Name of the project
    pub name: String,
    pub language: TargetLanguage,
    /// Names of the executable targets to create
    pub bin: Vec<String>,
    /// Names of the library targets to create
    pub lib: Vec<String>,
    /// Do not create sample source files
    pub bare: bool,
}

/// The command to execute.
#[derive(Clone, Debug)]
#[allow(inconsistent_fields)]
pub enum Command {
    New { opts: NewOpts },
    Build { opts: BuildOpts },
    Run { build_opts: BuildOpts },
    Clean { opts: CleanOpts },
}

/// A parsed command line.
#[derive(Clone, Debug)]
pub struct Args {
    pub command: Command,
    pub opts: Opts,
}

/// The default global options.
pub open spec fn is_default_build(b: BuildConfig) -> bool {
    &&& b.build_dir@ == "build"@
    &&& b.dep_dir@ == "deps"@
    &&& b.output_compile_commands
    &&& b.opt_level@ == "0"@
    &&& b.c_compiler@ == "gcc"@
    &&& b.cpp_compiler@ == "g++"@
    &&& b.c_standard@ == "c11"@
    &&& b.cpp_standard@ == "c++11"@
    &&& b.c_linker@ == "gcc"@
    &&& b.cpp_linker@ == "g++"@
    &&& b.debug
    &&& !b.warnings_as_errors
    &&& strs(b.warnings@) == seq!["all"@, "extra"@, "pedantic"@, "shadow"@, "format=2"@]
    &&& strs(b.flags@) == seq![
        "-fdiagnostics-color=always"@,
        "-fno-common"@,
        "-fstack-protector-strong"@,
        "-Wno-unused-parameter"@,
    ]
    &&& b.defines@.len() == 0
}

impl Default for BuildConfig {
    fn default() -> (r: BuildConfig)
        ensures
            is_default_build(r),
    {
        let warnings = vec![
            String::from_str("all"),
            String::from_str("extra"),
            String::from_str("pedantic"),
            String::from_str("shadow"),
            String::from_str("format=2"),
        ];
        let flags = vec![
            String::from_str("-fdiagnostics-color=always"),
            String::from_str("-fno-common"),
            String::from_str("-fstack-protector-strong"),
            String::from_str("-Wno-unused-parameter"),
        ];
        let r = BuildConfig {
            build_dir: String::from_str("build"),
            dep_dir: String::from_str("deps"),
            output_compile_commands: true,
            opt_level: String::from_str("0"),
            c_compiler: String::from_str("gcc"),
            cpp_compiler: String::from_str("g++"),
            c_standard: String::from_str("c11"),
            cpp_standard: String::from_str("c++11"),
            c_linker: String::from_str("gcc"),
            cpp_linker: String::from_str("g++"),
            debug: true,
            warnings_as_errors: false,
            warnings,
            flags,
            defines: Vec::new(),
        };
        assert(strs(r.warnings@) =~= seq!["all"@, "extra"@, "pedantic"@, "shadow"@, "format=2"@]);
        assert(strs(r.flags@) =~= seq![
            "-fdiagnostics-color=always"@,
            "-fno-common"@,
            "-fstack-protector-strong"@,
            "-Wno-unused-parameter"@,
        ]);
        r
    }
}

/// The default target: a C executable `mytarget` built from `src` with `include`.
pub open spec fn is_default_target(t: TargetConfig) -> bool {
    &&& t.name@ == "mytarget"@
    &&& t.target_type == TargetType::Binary
    &&& t.language == TargetLanguage::C
    &&& strs(t.source_dirs@) == seq!["src"@]
    &&& strs(t.include_dirs@) == seq!["include"@]
    &&& t.library_dirs@.len() == 0
    &&& t.libraries@.len() == 0
    &&& t.dependencies@.len() == 0
    &&& t.build_overrides is None
}

impl Default for TargetConfig {
    fn default() -> (r: TargetConfig)
        ensures
            is_default_target(r),
    {
        let r = TargetConfig {
            name: String::from_str("mytarget"),
            target_type: TargetType::Binary,
            language: TargetLanguage::C,
            source_dirs: vec![String::from_str("src")],
            include_dirs: vec![String::from_str("include")],
            library_dirs: Vec::new(),
            libraries: Vec::new(),
            dependencies: Vec::new(),
            build_overrides: None,
        };
        assert(strs(r.source_dirs@) =~= seq!["src"@]);
        assert(strs(r.include_dirs@) =~= seq!["include"@]);
        r
    }
}

impl Default for DependencyConfig {
    fn default() -> (r: DependencyConfig)
        ensures
            r.git@.len() == 0,
            r.tag is None,
            r.cmake_flags@.len() == 0,
    {
        DependencyConfig { git: String::new(), tag: None, cmake_flags: Vec::new() }
    }
}

/// No two dependencies share a name.
pub open spec fn distinct_dependency_names(d: Seq<(String, DependencyConfig)>) -> bool {
    forall|i: int, j: int| 0 <= i < j < d.len() ==> d[i].0@ != d[j].0@
}

/// No two targets share a name.
pub open spec fn distinct_target_names(t: Seq<TargetConfig>) -> bool {
    forall|i: int, j: int| 0 <= i < j < t.len() ==> t[i].name@ != t[j].name@
}

/// The first position of `names` that repeats an earlier name.
fn first_repeat(names: &Vec<String>) -> (r: Option<usize>)
    ensures
        match r {
            None => forall|i: int, j: int| 0 <= i < j < names@.len() ==> names@[i]@ != names@[j]@,
            Some(j) => j < names@.len() && exists|i: int| 0 <= i < j && names@[i]@ == names@[j as int]@,
        },
{
    let mut j: usize = 0;
    while j < names.len()
        invariant
            j <= names@.len(),
            forall|a: int, b: int| 0 <= a < b < j ==> names@[a]@ != names@[b]@,
        decreases names@.len() - j,
    {
        let mut i: usize = 0;
        while i < j
            invariant
                i <= j < names@.len(),
                forall|a: int| 0 <= a < i ==> names@[a]@ != names@[j as int]@,
            decreases j - i,
        {
            if names[i] == names[j] {
                return Some(j);
            }
            i = i + 1;
        }
        j = j + 1;
    }
    None
}

impl Config {
    /// A configuration for a new project `name`: default options, no dependencies,
    /// no targets.
    pub fn new(name: &str) -> (r: Config)
        ensures
            r.workspace.name@ == name@,
            is_default_build(r.build),
            r.dependencies@.len() == 0,
            r.targets@.len() == 0,
    {
        Config {
            workspace: WorkspaceConfig { name: String::from_str(name) },
            build: BuildConfig::default(),
            dependencies: Vec::new(),
            targets: Vec::new(),
        }
    }

    /// The configuration made of the parts read from a project file, after checking
    /// that dependency names and target names are each distinct.
    pub fn load(
        workspace: WorkspaceConfig,
        build: BuildConfig,
        dependencies: Vec<(String, DependencyConfig)>,
        targets: Vec<TargetConfig>,
    ) -> (r: Result<Config, BuildError>)
        ensures
            r is Ok == (distinct_dependency_names(dependencies@) && distinct_target_names(targets@)),
            match r {
                Ok(c) => c.workspace == workspace && c.build == build && c.dependencies == dependencies
                    && c.targets == targets,
                Err(BuildError::DuplicateDependency { name }) => !distinct_dependency_names(dependencies@)
                    && exists|i: int, j: int|
                    0 <= i < j < dependencies@.len() && #[trigger] dependencies@[i].0@ == name@
                        && #[trigger] dependencies@[j].0@ == name@,
                Err(BuildError::DuplicateTarget { name }) => distinct_dependency_names(dependencies@)
                    && !distinct_target_names(targets@) && exists|i: int, j: int|
                    0 <= i < j < targets@.len() && #[trigger] targets@[i].name@ == name@
                        && #[trigger] targets@[j].name@ == name@,
                Err(_) => false,
            },
    {
        let mut dep_names: Vec<String> = Vec::new();
        let mut k: usize = 0;
        while k < dependencies.len()
            invariant
                k <= dependencies@.len(),
                dep_names@.len() == k,
                forall|a: int| 0 <= a < k ==> #[trigger] dep_names@[a]@ == dependencies@[a].0@,
            decreases dependencies@.len() - k,
        {
            dep_names.push(dependencies[k].0.clone());
            k = k + 1;
        }
        match first_repeat(&dep_names) {
            Some(j) => {
                return Err(BuildError::DuplicateDependency { name: dep_names[j].clone() });
            },
            None => {},
        }
        assert forall|a: int, b: int| 0 <= a < b < dependencies@.len() implies dependencies@[a].0@
            != dependencies@[b].0@ by {
            assert(dep_names@[a]@ == dependencies@[a].0@);
            assert(dep_names@[b]@ == dependencies@[b].0@);
        }
        let mut target_names: Vec<String> = Vec::new();
        let mut k: usize = 0;
        while k < targets.len()
            invariant
                k <= targets@.len(),
                target_names@.len() == k,
                forall|a: int| 0 <= a < k ==> #[trigger] target_names@[a]@ == targets@[a].name@,
            decreases targets@.len() - k,
        {
            target_names.push(targets[k].name.clone());
            k = k + 1;
        }
        match first_repeat(&target_names) {
            Some(j) => {
                return Err(BuildError::DuplicateTarget { name: target_names[j].clone() });
            },
            None => {},
        }
        assert forall|a: int, b: int| 0 <= a < b < targets@.len() implies targets@[a].name@
            != targets@[b].name@ by {
            assert(target_names@[a]@ == targets@[a].name@);
            assert(target_names@[b]@ == targets@[b].name@);
        }
        Ok(Config { workspace, build, dependencies, targets })
    }
}

} // verus!
