//! The decisions of the commands other than build: the configuration a new
//! project starts with, what clean removes, and which executable run starts.
use vstd::prelude::*;
use vstd::string::*;
use crate::argv::push_str;
use crate::builder::{build_dir_spec, dep_dir_spec, out_dir_spec};
use crate::config::{
    is_default_build, strs, CleanOpts, Config, NewOpts, TargetConfig, TargetLanguage, TargetType,
};
use crate::paths::{join_path, join_spec};

verus! {

/// A target of a new project: `<name>/src` and `<name>/include`, nothing else.
pub open spec fn is_new_target(t: TargetConfig, name: Seq<char>, ty: TargetType, lang: TargetLanguage) -> bool {
    &&& t.name@ == name
    &&& t.target_type == ty
    &&& t.language == lang
    &&& strs(t.source_dirs@) == seq![name + "/src"@]
    &&& strs(t.include_dirs@) == seq![name + "/include"@]
    &&& t.library_dirs@.len() == 0
    &&& t.libraries@.len() == 0
    &&& t.dependencies@.len() == 0
    &&& t.build_overrides is None
}

/// The target `name` of a new project.
pub fn new_target(name: &String, ty: TargetType, lang: TargetLanguage) -> (r: TargetConfig)
    ensures
        is_new_target(r, name@, ty, lang),
{
    let mut src = name.clone();
    src.append("/src");
    let mut headers = name.clone();
    headers.append("/include");
    let r = TargetConfig {
        name: name.clone(),
        target_type: ty,
        language: lang,
        source_dirs: vec![src],
        include_dirs: vec![headers],
        library_dirs: Vec::new(),
        libraries: Vec::new(),
        dependencies: Vec::new(),
        build_overrides: None,
    };
    assert(strs(r.source_dirs@) =~= seq![name@ + "/src"@]);
    assert(strs(r.include_dirs@) =~= seq![name@ + "/include"@]);
    r
}

/// The configuration of a new project: default options, then one executable
/// target for each name of `opts.bin` followed by one library target for each
/// name of `opts.lib`, all in the project's language.
pub fn new_project_config(opts: &NewOpts) -> (r: Config)
    ensures
        r.workspace.name@ == opts.name@,
        is_default_build(r.build),
        r.dependencies@.len() == 0,
        r.targets@.len() == opts.bin@.len() + opts.lib@.len(),
        forall|i: int|
            0 <= i < opts.bin@.len() ==> is_new_target(
                #[trigger] r.targets@[i],
                opts.bin@[i]@,
                TargetType::Binary,
                opts.language,
            ),
        forall|i: int|
            0 <= i < opts.lib@.len() ==> is_new_target(
                #[trigger] r.targets@[opts.bin@.len() + i],
                opts.lib@[i]@,
                TargetType::StaticLibrary,
                opts.language,
            ),
{
    let mut config = Config::new(opts.name.as_str());
    let mut i: usize = 0;
    while i < opts.bin.len()
        invariant
            i <= opts.bin@.len(),
            config.workspace.name@ == opts.name@,
            is_default_build(config.build),
            config.dependencies@.len() == 0,
            config.targets@.len() == i,
            forall|k: int|
                0 <= k < i ==> is_new_target(
                    #[trigger] config.targets@[k],
                    opts.bin@[k]@,
                    TargetType::Binary,
                    opts.language,
                ),
        decreases opts.bin@.len() - i,
    {
        let t = new_target(&opts.bin[i], TargetType::Binary, opts.language);
        config.targets.push(t);
        i = i + 1;
    }
    let n = opts.bin.len();
    let mut i: usize = 0;
    while i < opts.lib.len()
        invariant
            i <= opts.lib@.len(),
            n == opts.bin@.len(),
            config.workspace.name@ == opts.name@,
            is_default_build(config.build),
            config.dependencies@.len() == 0,
            config.targets@.len() == n + i,
            forall|k: int|
                0 <= k < n ==> is_new_target(
                    #[trigger] config.targets@[k],
                    opts.bin@[k]@,
                    TargetType::Binary,
                    opts.language,
                ),
            forall|k: int|
                0 <= k < i ==> is_new_target(
                    #[trigger] config.targets@[n + k],
                    opts.lib@[k]@,
                    TargetType::StaticLibrary,
                    opts.language,
                ),
        decreases opts.lib@.len() - i,
    {
        let t = new_target(&opts.lib[i], TargetType::StaticLibrary, opts.language);
        config.targets.push(t);
        i = i + 1;
    }
    config
}

/// The directories that clean removes: the build directory, and the dependency
/// directory as well when `opts.deps` is set.
pub fn clean_paths(config: &Config, base_dir: &String, opts: &CleanOpts) -> (r: Vec<String>)
    ensures
        strs(r@) == seq![build_dir_spec(base_dir@, config.build)] + (if opts.deps {
            seq![dep_dir_spec(base_dir@, config.build)]
        } else {
            Seq::<Seq<char>>::empty()
        }),
{
    let mut r: Vec<String> = Vec::new();
    let b = join_path(base_dir.as_str(), config.build.build_dir.as_str());
    push_str(&mut r, b.as_str());
    if opts.deps {
        let d = join_path(base_dir.as_str(), config.build.dep_dir.as_str());
        push_str(&mut r, d.as_str());
    }
    assert(strs(r@) =~= seq![build_dir_spec(base_dir@, config.build)] + (if opts.deps {
        seq![dep_dir_spec(base_dir@, config.build)]
    } else {
        Seq::<Seq<char>>::empty()
    }));
    r
}

/// The executable that run starts: that of the first executable target, inside
/// its output directory; `None` when the project has no executable target.
pub fn executable_path(config: &Config, base_dir: &String) -> (r: Option<String>)
    ensures
        r is None == (forall|i: int|
            0 <= i < config.targets@.len() ==> #[trigger] config.targets@[i].target_type
                != TargetType::Binary),
        match r {
            Some(p) => exists|i: int|
                0 <= i < config.targets@.len() && #[trigger] config.targets@[i].target_type
                    == TargetType::Binary && (forall|j: int|
                    0 <= j < i ==> config.targets@[j].target_type != TargetType::Binary) && p@
                    == join_spec(
                    out_dir_spec(base_dir@, config.build, config.targets@[i]),
                    config.targets@[i].name@,
                ),
            None => true,
        },
{
    let mut i: usize = 0;
    while i < config.targets.len()
        invariant
            i <= config.targets@.len(),
            forall|j: int| 0 <= j < i ==> config.targets@[j].target_type != TargetType::Binary,
        decreases config.targets@.len() - i,
    {
        let t = &config.targets[i];
        if t.target_type == TargetType::Binary {
            let b = join_path(base_dir.as_str(), config.build.build_dir.as_str());
            let out = join_path(b.as_str(), t.name.as_str());
            let p = join_path(out.as_str(), t.name.as_str());
            assert(config.targets@[i as int].target_type == TargetType::Binary);
            return Some(p);
        }
        i = i + 1;
    }
    None
}

} // verus!
