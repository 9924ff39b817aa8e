use jfb::argv::library_flag;
use jfb::cache::{is_later, FileUpdateCache, ModTime};
use jfb::config::{
    BuildConfig, BuildConfigOverrides, Config, DependencyConfig, TargetConfig, TargetLanguage,
    TargetType, WorkspaceConfig,
};
use jfb::error::BuildError;
use jfb::paths::{extension, file_name, file_stem, find_last, join_path};
use jfb::resolve::{merge_list, BuildProfile};

fn s(x: &str) -> String {
    x.to_string()
}

fn strings(v: &[&str]) -> Vec<String> {
    v.iter().map(|x| x.to_string()).collect()
}

fn no_overrides() -> BuildConfigOverrides {
    BuildConfigOverrides {
        build_dir: None,
        opt_level: None,
        c_compiler: None,
        cpp_compiler: None,
        c_standard: None,
        cpp_standard: None,
        c_linker: None,
        cpp_linker: None,
        debug: None,
        warnings_as_errors: None,
        warnings: None,
        flags: None,
        defines: None,
    }
}

fn t(secs: u64, nanos: u32) -> ModTime {
    ModTime { secs, nanos }
}

#[test]
fn join_relative_absolute_and_trailing_separator() {
    assert_eq!(join_path("/proj", "src"), "/proj/src");
    assert_eq!(join_path("/proj/", "src"), "/proj/src");
    assert_eq!(join_path("/proj", "/usr/include"), "/usr/include");
    assert_eq!(join_path("", "src"), "src");
    assert_eq!(join_path("a", ""), "a/");
}

#[test]
fn file_name_stem_and_extension() {
    assert_eq!(file_name("/proj/src/main.c"), "main.c");
    assert_eq!(file_name("main.c"), "main.c");
    assert_eq!(file_stem("archive.tar.gz"), "archive.tar");
    assert_eq!(file_stem(".profile"), ".profile");
    assert_eq!(file_stem("noext"), "noext");
    assert_eq!(extension("main.cpp"), Some(s("cpp")));
    assert_eq!(extension(".profile"), None);
    assert_eq!(extension("trailing."), Some(s("")));
    assert_eq!(extension("noext"), None);
    assert_eq!(find_last("a/b/c", '/'), Some(3));
    assert_eq!(find_last("abc", '/'), None);
}

#[test]
fn library_references_become_link_flags() {
    assert_eq!(library_flag(&s("libfoo.a")), "-lfoo");
    assert_eq!(library_flag(&s("foo.so")), "-lfoo");
    assert_eq!(library_flag(&s("/usr/lib/libz.so")), "-lz");
    assert_eq!(library_flag(&s("m")), "-lm");
    assert_eq!(library_flag(&s("lib")), "-l");
}

#[test]
fn merged_flags_append_override_to_global() {
    let g = strings(&["g"]);
    assert_eq!(merge_list(&g, &Some(strings(&["a"]))), strings(&["g", "a"]));
    assert_eq!(merge_list(&g, &None), strings(&["g"]));
    assert_eq!(merge_list(&g, &Some(vec![])), strings(&["g"]));
    assert_eq!(merge_list(&vec![], &Some(strings(&["a", "b"]))), strings(&["a", "b"]));
}

#[test]
fn profile_without_overrides_is_global() {
    let b = BuildConfig::default();
    let p = BuildProfile::resolve(&b, &None, TargetLanguage::Cpp);
    assert_eq!(p.compiler, "g++");
    assert_eq!(p.standard, "c++11");
    assert_eq!(p.linker, "g++");
    assert_eq!(p.opt_level, "0");
    assert!(p.debug);
    assert!(!p.warnings_as_errors);
    assert_eq!(p.warnings, b.warnings);
    assert_eq!(p.flags, b.flags);
    assert_eq!(p.defines, b.defines);
}

#[test]
fn profile_scalars_replace_and_lists_extend() {
    let mut b = BuildConfig::default();
    b.defines = strings(&["NDEBUG"]);
    let mut o = no_overrides();
    o.c_compiler = Some(s("clang"));
    o.c_standard = Some(s("c17"));
    o.c_linker = Some(s("lld"));
    o.cpp_compiler = Some(s("clang++"));
    o.opt_level = Some(s("2"));
    o.debug = Some(false);
    o.warnings_as_errors = Some(true);
    o.warnings = Some(strings(&["conversion"]));
    o.flags = Some(strings(&["-fPIC"]));
    o.defines = Some(strings(&["IGNORED"]));
    let p = BuildProfile::resolve(&b, &Some(o), TargetLanguage::C);
    assert_eq!(p.compiler, "clang");
    assert_eq!(p.standard, "c17");
    assert_eq!(p.linker, "lld");
    assert_eq!(p.opt_level, "2");
    assert!(!p.debug);
    assert!(p.warnings_as_errors);
    assert_eq!(
        p.warnings,
        strings(&["all", "extra", "pedantic", "shadow", "format=2", "conversion"])
    );
    assert_eq!(p.flags.last().unwrap(), "-fPIC");
    assert_eq!(p.flags.len(), 5);
    assert_eq!(p.defines, strings(&["NDEBUG"]));
}

#[test]
fn first_check_is_updated_then_not() {
    let mut c = FileUpdateCache::new();
    let p = s("/proj/src/main.c");
    assert!(c.is_updated(&p, t(100, 5)));
    assert_eq!(c.recorded(&p), Some(t(100, 5)));
    assert!(!c.is_updated(&p, t(100, 5)));
}

#[test]
fn later_time_is_updated_and_recorded() {
    let mut c = FileUpdateCache::new();
    let p = s("a.c");
    assert!(c.is_updated(&p, t(100, 0)));
    assert!(c.is_updated(&p, t(100, 1)));
    assert_eq!(c.recorded(&p), Some(t(100, 1)));
    assert!(c.is_updated(&p, t(101, 0)));
    assert!(!c.is_updated(&p, t(101, 0)));
}

#[test]
fn earlier_time_is_not_updated_and_record_stays() {
    let mut c = FileUpdateCache::new();
    let p = s("a.c");
    c.record(p.clone(), t(200, 0));
    assert!(!c.is_updated(&p, t(150, 999)));
    assert_eq!(c.recorded(&p), Some(t(200, 0)));
    assert_eq!(c.entries().len(), 1);
}

#[test]
fn cache_paths_are_independent() {
    let mut c = FileUpdateCache::new();
    assert!(c.is_updated(&s("a.c"), t(1, 0)));
    assert!(c.is_updated(&s("b.c"), t(1, 0)));
    assert!(!c.is_updated(&s("a.c"), t(1, 0)));
    assert_eq!(c.entries().len(), 2);
    assert_eq!(c.recorded(&s("c.c")), None);
}

#[test]
fn later_compares_seconds_then_nanos() {
    assert!(is_later(t(2, 0), t(1, 999)));
    assert!(is_later(t(1, 2), t(1, 1)));
    assert!(!is_later(t(1, 1), t(1, 1)));
    assert!(!is_later(t(0, 5), t(1, 0)));
}

#[test]
fn default_build_config_values() {
    let b = BuildConfig::default();
    assert_eq!(b.build_dir, "build");
    assert_eq!(b.dep_dir, "deps");
    assert!(b.output_compile_commands);
    assert_eq!(b.opt_level, "0");
    assert_eq!(b.c_compiler, "gcc");
    assert_eq!(b.cpp_compiler, "g++");
    assert_eq!(b.c_standard, "c11");
    assert_eq!(b.cpp_standard, "c++11");
    assert_eq!(b.c_linker, "gcc");
    assert_eq!(b.cpp_linker, "g++");
    assert!(b.debug);
    assert!(!b.warnings_as_errors);
    assert_eq!(b.warnings, strings(&["all", "extra", "pedantic", "shadow", "format=2"]));
    assert_eq!(
        b.flags,
        strings(&[
            "-fdiagnostics-color=always",
            "-fno-common",
            "-fstack-protector-strong",
            "-Wno-unused-parameter"
        ])
    );
    assert!(b.defines.is_empty());
}

#[test]
fn default_target_and_dependency() {
    let t = TargetConfig::default();
    assert_eq!(t.name, "mytarget");
    assert_eq!(t.target_type, TargetType::Binary);
    assert_eq!(t.language, TargetLanguage::C);
    assert_eq!(t.source_dirs, strings(&["src"]));
    assert_eq!(t.include_dirs, strings(&["include"]));
    assert!(t.library_dirs.is_empty() && t.libraries.is_empty() && t.dependencies.is_empty());
    assert!(t.build_overrides.is_none());
    let d = DependencyConfig::default();
    assert_eq!(d.git, "");
    assert!(d.tag.is_none());
    assert!(d.cmake_flags.is_empty());
}

#[test]
fn new_config_is_empty_with_defaults() {
    let c = Config::new("demo");
    assert_eq!(c.workspace.name, "demo");
    assert_eq!(c.build.c_compiler, "gcc");
    assert!(c.dependencies.is_empty());
    assert!(c.targets.is_empty());
}

fn target(name: &str) -> TargetConfig {
    let mut t = TargetConfig::default();
    t.name = s(name);
    t
}

#[test]
fn load_accepts_distinct_names() {
    let r = Config::load(
        WorkspaceConfig { name: s("demo") },
        BuildConfig::default(),
        vec![(s("zlib"), DependencyConfig::default()), (s("fmt"), DependencyConfig::default())],
        vec![target("app"), target("core")],
    );
    let c = r.unwrap();
    assert_eq!(c.workspace.name, "demo");
    assert_eq!(c.dependencies.len(), 2);
    assert_eq!(c.targets[1].name, "core");
}

#[test]
fn load_rejects_duplicate_dependency() {
    let r = Config::load(
        WorkspaceConfig { name: s("demo") },
        BuildConfig::default(),
        vec![(s("zlib"), DependencyConfig::default()), (s("zlib"), DependencyConfig::default())],
        vec![target("app"), target("app")],
    );
    match r {
        Err(BuildError::DuplicateDependency { name }) => assert_eq!(name, "zlib"),
        other => panic!("unexpected {:?}", other),
    }
}

#[test]
fn load_rejects_duplicate_target() {
    let r = Config::load(
        WorkspaceConfig { name: s("demo") },
        BuildConfig::default(),
        vec![],
        vec![target("app"), target("lib"), target("app")],
    );
    match r {
        Err(BuildError::DuplicateTarget { name }) => assert_eq!(name, "app"),
        other => panic!("unexpected {:?}", other),
    }
}
