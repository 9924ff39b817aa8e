use jfb::builder::{Builder, DirEntry, SourceUnit};
use jfb::cache::{FileUpdateCache, ModTime};
use jfb::compdb::{CompileCommand, CompileDatabase};
use jfb::config::{
    BuildConfig, Config, DependencyConfig, TargetConfig, TargetLanguage, TargetType,
};
use jfb::error::BuildError;

fn s(x: &str) -> String {
    x.to_string()
}

fn strings(v: &[&str]) -> Vec<String> {
    v.iter().map(|x| x.to_string()).collect()
}

fn t(secs: u64) -> ModTime {
    ModTime { secs, nanos: 0 }
}

fn file(p: &str) -> DirEntry {
    DirEntry { path: s(p), is_file: true }
}

fn app_target() -> TargetConfig {
    let mut t = TargetConfig::default();
    t.name = s("app");
    t
}

fn config_with(targets: Vec<TargetConfig>) -> Config {
    let mut c = Config::new("demo");
    c.targets = targets;
    c
}

fn builder(config: Config) -> Builder {
    Builder::new(config, s("/proj"), FileUpdateCache::new(), vec![], &s("/proj/jfb.toml"), t(10))
}

fn unit(src: &str, obj: &str) -> SourceUnit {
    SourceUnit { source: s(src), object: s(obj) }
}

#[test]
fn directories_resolve_against_base() {
    let b = builder(config_with(vec![app_target()]));
    assert_eq!(b.build_dir(), "/proj/build");
    assert_eq!(b.dep_dir(), "/proj/deps");
    assert_eq!(b.dependency_dir(&s("zlib")), "/proj/deps/zlib");
    assert_eq!(b.target_out_dir(&app_target()), "/proj/build/app");
    assert_eq!(b.source_dirs(&app_target()), strings(&["/proj/src"]));
}

#[test]
fn discovery_keeps_files_of_the_language() {
    let b = builder(config_with(vec![app_target()]));
    let entries = vec![
        file("/proj/src/main.c"),
        file("/proj/src/util.h"),
        DirEntry { path: s("/proj/src/dir.c"), is_file: false },
        file("/proj/src/extra.cpp"),
        file("/proj/src/helper.c"),
        file("/proj/src/README"),
    ];
    let units = b.discover_sources(&app_target(), &entries);
    assert_eq!(units.len(), 2);
    assert_eq!(units[0].source, "/proj/src/main.c");
    assert_eq!(units[0].object, "/proj/build/app/main.o");
    assert_eq!(units[1].source, "/proj/src/helper.c");
    assert_eq!(units[1].object, "/proj/build/app/helper.o");
}

#[test]
fn discovery_of_cpp_extensions() {
    let mut target = app_target();
    target.language = TargetLanguage::Cpp;
    let b = builder(config_with(vec![target.clone()]));
    let entries = vec![
        file("/p/a.cpp"),
        file("/p/b.cc"),
        file("/p/c.cxx"),
        file("/p/d.c"),
        file("/p/e.hpp"),
    ];
    let units = b.discover_sources(&target, &entries);
    let objects: Vec<String> = units.iter().map(|u| u.object.clone()).collect();
    assert_eq!(
        objects,
        strings(&["/proj/build/app/a.o", "/proj/build/app/b.o", "/proj/build/app/c.o"])
    );
}

#[test]
fn compile_command_with_defaults() {
    let b = builder(config_with(vec![app_target()]));
    let argv = b.compile_command(&app_target(), &unit("/proj/src/main.c", "/proj/build/app/main.o"));
    assert_eq!(
        argv,
        strings(&[
            "gcc",
            "-std=c11",
            "-fdiagnostics-color=always",
            "-fno-common",
            "-fstack-protector-strong",
            "-Wno-unused-parameter",
            "-I/proj/include",
            "-Wall",
            "-Wextra",
            "-Wpedantic",
            "-Wshadow",
            "-Wformat=2",
            "-g",
            "-O0",
            "-c",
            "/proj/src/main.c",
            "-o",
            "/proj/build/app/main.o",
        ])
    );
}

#[test]
fn compile_command_with_defines_and_werror() {
    let mut config = config_with(vec![app_target()]);
    config.build = BuildConfig::default();
    config.build.defines = strings(&["DEBUG=1"]);
    config.build.warnings_as_errors = true;
    config.build.debug = false;
    config.build.flags = vec![];
    config.build.warnings = strings(&["all"]);
    config.build.opt_level = s("2");
    let b = builder(config);
    let argv = b.compile_command(&app_target(), &unit("/proj/src/a.c", "/proj/build/app/a.o"));
    assert_eq!(
        argv,
        strings(&[
            "gcc",
            "-std=c11",
            "-DDEBUG=1",
            "-I/proj/include",
            "-Wall",
            "-Werror",
            "-O2",
            "-c",
            "/proj/src/a.c",
            "-o",
            "/proj/build/app/a.o",
        ])
    );
}

#[test]
fn link_command_of_binary() {
    let mut target = app_target();
    target.library_dirs = strings(&["lib", "/opt/lib"]);
    target.libraries = strings(&["libfoo.a", "bar.so"]);
    let b = builder(config_with(vec![target.clone()]));
    let units = vec![
        unit("/proj/src/main.c", "/proj/build/app/main.o"),
        unit("/proj/src/x.c", "/proj/build/app/x.o"),
    ];
    assert_eq!(
        b.link_command(&target, &units),
        strings(&[
            "gcc",
            "/proj/build/app/main.o",
            "/proj/build/app/x.o",
            "-L/proj/lib",
            "-L/opt/lib",
            "-lfoo",
            "-lbar",
            "-o",
            "/proj/build/app/app",
        ])
    );
}

#[test]
fn link_command_uses_language_linker() {
    let mut target = app_target();
    target.language = TargetLanguage::Cpp;
    let mut config = config_with(vec![target.clone()]);
    config.build.cpp_linker = s("clang++");
    let b = builder(config);
    let argv = b.link_command(&target, &vec![unit("/proj/src/m.cpp", "/proj/build/app/m.o")]);
    assert_eq!(argv[0], "clang++");
}

#[test]
fn archive_command_of_static_library() {
    let mut target = app_target();
    target.name = s("core");
    target.target_type = TargetType::StaticLibrary;
    let b = builder(config_with(vec![target.clone()]));
    let units = vec![unit("/proj/src/a.c", "/proj/build/core/a.o")];
    assert_eq!(
        b.link_command(&target, &units),
        strings(&["ar", "rcs", "/proj/build/core/libcore.a", "/proj/build/core/a.o"])
    );
}

#[test]
fn first_build_records_and_compiles() {
    let mut b = builder(config_with(vec![app_target()]));
    assert!(b.config_updated);
    let u = unit("/proj/src/main.c", "/proj/build/app/main.o");
    let argv = b.compile_step(&app_target(), &u, t(5)).unwrap();
    let entries = b.compile_commands.entries();
    assert_eq!(entries.len(), 1);
    assert_eq!(entries[0].1.directory, "/proj");
    assert_eq!(entries[0].1.file, "/proj/src/main.c");
    assert_eq!(entries[0].1.arguments, argv);
    assert_eq!(b.file_cache.recorded(&s("/proj/src/main.c")), Some(t(5)));
}

#[test]
fn disabled_database_records_nothing() {
    let mut config = config_with(vec![app_target()]);
    config.build.output_compile_commands = false;
    let mut b = builder(config);
    let u = unit("/proj/src/main.c", "/proj/build/app/main.o");
    assert!(b.compile_step(&app_target(), &u, t(5)).is_some());
    assert_eq!(b.compile_commands.entries().len(), 0);
}

/// Runs one build of `config` over the given source times, the way the program
/// does, and returns how many sources were compiled together with the persisted
/// cache and database.
fn run_build(
    config: &Config,
    cache: FileUpdateCache,
    db: Vec<CompileCommand>,
    config_time: u64,
    sources: &[(&str, u64)],
) -> (usize, FileUpdateCache, Vec<CompileCommand>, Vec<String>) {
    let mut b = Builder::new(config.clone(), s("/proj"), cache, db, &s("/proj/jfb.toml"), t(config_time));
    let target = config.targets[0].clone();
    let entries: Vec<DirEntry> = sources.iter().map(|(p, _)| file(p)).collect();
    let units = b.discover_sources(&target, &entries);
    let mut compiled = 0;
    for (u, (_, time)) in units.iter().zip(sources.iter()) {
        if b.compile_step(&target, u, t(*time)).is_some() {
            compiled += 1;
        }
    }
    let link = b.link_command(&target, &units);
    let mut cache = FileUpdateCache::new();
    for (p, time) in b.file_cache.entries() {
        cache.record(p.clone(), *time);
    }
    let db: Vec<CompileCommand> = b.compile_commands.entries().iter().map(|(_, c)| c.clone()).collect();
    (compiled, cache, db, link)
}

#[test]
fn end_to_end_one_binary_one_source() {
    let config = config_with(vec![app_target()]);
    // First build: the project file is new, so everything compiles.
    let (n, cache, db, link) = run_build(&config, FileUpdateCache::new(), vec![], 10, &[("/proj/src/main.c", 5)]);
    assert_eq!(n, 1);
    assert_eq!(db.len(), 1);
    assert_eq!(link.last().unwrap(), "/proj/build/app/app");
    assert_eq!(link[1], "/proj/build/app/main.o");
    // Nothing changed: nothing is compiled.
    let (n, cache, db, link) = run_build(&config, cache, db, 10, &[("/proj/src/main.c", 5)]);
    assert_eq!(n, 0);
    assert_eq!(db.len(), 1);
    assert_eq!(link.last().unwrap(), "/proj/build/app/app");
    // The source was edited: exactly it is compiled, and the executable relinked.
    let (n, _, db, link) = run_build(&config, cache, db, 10, &[("/proj/src/main.c", 6)]);
    assert_eq!(n, 1);
    assert_eq!(db.len(), 1);
    assert_eq!(link[0], "gcc");
}

#[test]
fn touching_config_recompiles_everything() {
    let mut lib = app_target();
    lib.name = s("core");
    lib.target_type = TargetType::StaticLibrary;
    let config = config_with(vec![app_target(), lib.clone()]);
    let mut cache = FileUpdateCache::new();
    cache.record(s("/proj/jfb.toml"), t(10));
    cache.record(s("/proj/src/a.c"), t(5));
    cache.record(s("/proj/src/b.c"), t(5));
    let units_app = vec![unit("/proj/src/a.c", "/proj/build/app/a.o")];
    let units_lib = vec![unit("/proj/src/b.c", "/proj/build/core/b.o")];

    // Unchanged project file: nothing is stale.
    let mut b2 = Builder::new(config.clone(), s("/proj"), copy_cache(&cache), vec![], &s("/proj/jfb.toml"), t(10));
    assert!(!b2.config_updated);
    assert!(b2.compile_step(&app_target(), &units_app[0], t(5)).is_none());
    assert!(b2.compile_step(&lib, &units_lib[0], t(5)).is_none());

    // Touched project file: every source of every target compiles.
    let mut b3 = Builder::new(config, s("/proj"), cache, vec![], &s("/proj/jfb.toml"), t(11));
    assert!(b3.config_updated);
    assert!(b3.compile_step(&app_target(), &units_app[0], t(5)).is_some());
    assert!(b3.compile_step(&lib, &units_lib[0], t(5)).is_some());
}

fn copy_cache(c: &FileUpdateCache) -> FileUpdateCache {
    let mut r = FileUpdateCache::new();
    for (p, time) in c.entries() {
        r.record(p.clone(), *time);
    }
    r
}

fn command(file: &str, args: &[&str]) -> CompileCommand {
    CompileCommand { directory: s("/proj"), arguments: strings(args), file: s(file) }
}

#[test]
fn database_reload_is_idempotent() {
    let db = CompileDatabase::from_entries(vec![
        command("/proj/a.c", &["gcc", "-c", "/proj/a.c"]),
        command("/proj/b.c", &["gcc", "-c", "/proj/b.c"]),
    ]);
    let written: Vec<CompileCommand> = db.entries().iter().map(|(_, c)| c.clone()).collect();
    let again = CompileDatabase::from_entries(written.clone());
    let rewritten: Vec<CompileCommand> = again.entries().iter().map(|(_, c)| c.clone()).collect();
    assert_eq!(format!("{:?}", written), format!("{:?}", rewritten));
    assert_eq!(rewritten.len(), 2);
}

#[test]
fn database_newest_entry_wins() {
    let mut db = CompileDatabase::from_entries(vec![
        command("/proj/a.c", &["gcc", "-O0", "-c", "/proj/a.c"]),
        command("/proj/a.c", &["gcc", "-O1", "-c", "/proj/a.c"]),
    ]);
    assert_eq!(db.entries().len(), 1);
    assert_eq!(db.entries()[0].1.arguments[1], "-O1");
    db.record(command("/proj/a.c", &["gcc", "-O2", "-c", "/proj/a.c"]));
    assert_eq!(db.entries().len(), 1);
    assert_eq!(db.entries()[0].1.arguments[1], "-O2");
}

fn dep_config() -> Config {
    let mut c = config_with(vec![app_target()]);
    c.dependencies = vec![
        (
            s("zlib"),
            DependencyConfig { git: s("https://example.org/zlib.git"), tag: Some(s("v1.3")), cmake_flags: strings(&["-DZ=1"]) },
        ),
        (s("fmt"), DependencyConfig { git: s("https://example.org/fmt.git"), tag: None, cmake_flags: vec![] }),
    ];
    c.build.flags = strings(&["-fPIC"]);
    c
}

#[test]
fn present_dependency_is_not_cloned() {
    let b = builder(dep_config());
    let plan = b.fetch_dependencies(&vec![true, false]);
    assert_eq!(plan, vec![strings(&["git", "clone", "https://example.org/fmt.git", "/proj/deps/fmt"])]);
    let plan = b.fetch_dependencies(&vec![false, true]);
    assert_eq!(
        plan,
        vec![strings(&["git", "clone", "--branch", "v1.3", "https://example.org/zlib.git", "/proj/deps/zlib"])]
    );
    assert!(b.fetch_dependencies(&vec![true, true]).is_empty());
}

#[test]
fn present_dependency_is_always_configured_and_built() {
    let b = builder(dep_config());
    for _ in 0..2 {
        let builds = b.build_dependencies(&vec![true, true]).unwrap();
        assert_eq!(builds.len(), 2);
        assert_eq!(builds[0].source_dir, "/proj/deps/zlib");
        assert_eq!(builds[0].build_dir, "/proj/deps/zlib/build");
        assert_eq!(
            builds[0].configure,
            strings(&["cmake", "-S", "/proj/deps/zlib", "-B", "/proj/deps/zlib/build", "-DZ=1", "-fPIC"])
        );
        assert_eq!(builds[0].build, strings(&["cmake", "--build", "/proj/deps/zlib/build"]));
        assert_eq!(builds[1].build, strings(&["cmake", "--build", "/proj/deps/fmt/build"]));
    }
}

#[test]
fn missing_dependency_fails_the_build_stage() {
    let b = builder(dep_config());
    match b.build_dependencies(&vec![true, false]) {
        Err(BuildError::DependencyMissing { name, path }) => {
            assert_eq!(name, "fmt");
            assert_eq!(path, "/proj/deps/fmt");
        }
        other => panic!("unexpected {:?}", other),
    }
    let one = b.build_dependency(&s("zlib"), &dep_config().dependencies[0].1, false);
    assert!(matches!(one, Err(BuildError::DependencyMissing { .. })));
    let clone = b.download_dependency(&s("zlib"), &dep_config().dependencies[0].1, true);
    assert!(clone.is_none());
}
