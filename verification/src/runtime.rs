//! Loadpaths, command profiles and package-driver facts of the crate-shipped
//! `Gerbil` runtime.
//!
//! Paths are held as text; joining follows `Path::join` on Unix: an absolute
//! child replaces the base, and one separator is put between a non-empty base
//! that does not end with one and the child.

use vstd::prelude::*;

use crate::text::{chars_of, contains_char, seq_views, text_eq};

verus! {

/// Environment variable that overrides the `gxi` executable path.
pub const MARLIN_GERBIL_GXI_ENV: &'static str = "MARLIN_GERBIL_GXI";

/// Environment variable that overrides the `gxpkg` executable path.
pub const MARLIN_GERBIL_GXPKG_ENV: &'static str = "MARLIN_GERBIL_GXPKG";

/// Environment variable that overrides the `gxc` executable path.
pub const MARLIN_GERBIL_GXC_ENV: &'static str = "MARLIN_GERBIL_GXC";

/// Environment variable that identifies the paired `Gerbil` Gambit compiler.
pub const MARLIN_GERBIL_GSC_ENV: &'static str = "MARLIN_GERBIL_GSC";

/// Gerbil loadpath environment variable consumed by `gxi`.
pub const GERBIL_LOADPATH_ENV: &'static str = "GERBIL_LOADPATH";

/// Module entry point for the crate-shipped Marlin command adapter.
pub const GERBIL_ADAPTER_MODULE: &'static str = ":marlin/adapter";

/// Gerbil package name provided by the `poo-flow` dependency.
pub const GERBIL_POO_PACKAGE_NAME: &'static str = "clan/poo";

/// Object prototype module provided by the `poo-flow` dependency.
pub const GERBIL_POO_OBJECT_MODULE: &'static str = ":clan/poo/object";

/// Meta-object protocol module provided by the `poo-flow` dependency.
pub const GERBIL_POO_MOP_MODULE: &'static str = ":clan/poo/mop";

/// Prototype composition module provided by the `poo-flow` dependency.
pub const GERBIL_POO_PROTO_MODULE: &'static str = ":clan/poo/proto";

/// Source directory inside the crate-shipped `Gerbil` runtime package.
pub const GERBIL_PACKAGE_SOURCE_PATH: &'static str = "src";

/// Directory that contains the crate-shipped `Gerbil` runtime package.
pub const GERBIL_PACKAGE_ROOT_PATH: &'static str = "gerbil";

/// Package-owned build script for crate-shipped `Gerbil` runtime assets.
pub const GERBIL_PACKAGE_BUILD_SCRIPT: &'static str = "build.ss";

/// Gerbil package name owned by the crate-shipped runtime package.
pub const GERBIL_RUNTIME_PACKAGE_NAME: &'static str = "marlin-deck-runtime";

/// `Path::join` of two path texts.
pub open spec fn path_join(base: Seq<char>, child: Seq<char>) -> Seq<char> {
    if child.len() > 0 && child[0] == '/' {
        child
    } else if base.len() == 0 || base.last() == '/' {
        base + child
    } else {
        base + seq!['/'] + child
    }
}

/// `Path::join` of two path texts.
pub fn join_path(base: &str, child: &str) -> (joined: String)
    ensures
        joined@ == path_join(base@, child@),
{
    let child_chars = chars_of(child);
    if child_chars.len() > 0 && child_chars[0] == '/' {
        return child.to_owned();
    }
    let base_chars = chars_of(base);
    let mut joined = base.to_owned();
    if !(base_chars.len() == 0 || base_chars[base_chars.len() - 1] == '/') {
        joined.append("/");
        proof {
            reveal_strlit("/");
        }
    }
    joined.append(child);
    joined
}


/// A `Gerbil` runtime source file the crate ships: its package-relative path
/// and its text.
#[derive(Clone, Copy, Debug)]
pub struct GerbilRuntimeAsset {
    pub path: &'static str,
    pub source: &'static str,
}

/// The first asset among `assets` whose package-relative path is `path`.
pub fn gerbil_runtime_asset_in<'a>(assets: &'a [GerbilRuntimeAsset], path: &str) -> (found: Option<
    &'a GerbilRuntimeAsset,
>)
    ensures
        match found {
            Some(asset) => exists|i: int|
                0 <= i < assets@.len() && *asset == assets@[i] && assets@[i].path@ == path@ && forall|
                    j: int,
                | 0 <= j < i ==> (#[trigger] assets@[j]).path@ != path@,
            None => forall|i: int| 0 <= i < assets@.len() ==> (#[trigger] assets@[i]).path@ != path@,
        },
{
    let mut i: usize = 0;
    while i < assets.len()
        invariant
            i <= assets@.len(),
            forall|j: int| 0 <= j < i ==> (#[trigger] assets@[j]).path@ != path@,
        decreases assets@.len() - i,
    {
        if crate::text::text_eq(assets[i].path, path) {
            return Some(&assets[i]);
        }
        i += 1;
    }
    None
}

/// Returns the package source path that must be exposed through `GERBIL_LOADPATH`.
pub fn gerbil_runtime_loadpath(root: &str) -> (loadpath: String)
    ensures
        loadpath@ == path_join(root@, "src"@),
{
    join_path(root, GERBIL_PACKAGE_SOURCE_PATH)
}

/// Returns the dependency loadpath managed by `gxpkg` next to `gerbil.pkg` in
/// the package root.
pub fn gerbil_runtime_dependency_loadpath(package_root: &str) -> (loadpath: String)
    ensures
        loadpath@ == path_join(path_join(package_root@, ".gerbil"@), "lib"@),
{
    let gerbil = join_path(package_root, ".gerbil");
    join_path(gerbil.as_str(), "lib")
}

/// Loadpath entries joined with `:`, as `env::join_paths` joins them.
pub open spec fn joined_loadpath(entries: Seq<Seq<char>>) -> Seq<char>
    decreases entries.len(),
{
    if entries.len() == 0 {
        Seq::empty()
    } else if entries.len() == 1 {
        entries[0]
    } else {
        joined_loadpath(entries.drop_last()) + ":"@ + entries.last()
    }
}

/// The loadpath entries for running the runtime: the package's `gxpkg`
/// dependencies first, then the user's compiled dependencies, then the
/// runtime sources under `root`.
pub open spec fn runtime_loadpath_entries(
    package_root: Seq<char>,
    user_dependencies: Seq<Seq<char>>,
    root: Seq<char>,
) -> Seq<Seq<char>> {
    seq![path_join(path_join(package_root, ".gerbil"@), "lib"@)] + user_dependencies + seq![
        path_join(root, "src"@),
    ]
}

/// Returns a `GERBIL_LOADPATH` value for package dependencies plus runtime
/// sources, followed by the loadpath set before (`existing`).
///
/// Package-local compiled dependencies come first so runtime execution uses
/// built package modules before falling back to source assets.
/// `user_dependencies` are the user's compiled library directories, in the
/// order they were found. An entry that holds `:` cannot be joined.
pub fn gerbil_runtime_loadpath_with_dependencies(
    package_root: &str,
    user_dependencies: &Vec<String>,
    root: &str,
    existing: Option<&str>,
) -> (loadpath: String)
    requires
        forall|k: int|
            0 <= k < runtime_loadpath_entries(package_root@, seq_views(user_dependencies@), root@).len()
                ==> !contains_char(
                #[trigger] runtime_loadpath_entries(
                    package_root@,
                    seq_views(user_dependencies@),
                    root@,
                )[k],
                ':',
            ),
    ensures
        loadpath@ == joined_loadpath(
            runtime_loadpath_entries(package_root@, seq_views(user_dependencies@), root@),
        ) + match existing {
            Some(e) => ":"@ + e@,
            None => Seq::empty(),
        },
{
    let ghost users = seq_views(user_dependencies@);
    let ghost entries = runtime_loadpath_entries(package_root@, users, root@);
    let dependency = gerbil_runtime_dependency_loadpath(package_root);
    let mut loadpath = dependency;
    let mut i: usize = 0;
    assert(entries.take(1) =~= seq![entries[0]]);
    while i < user_dependencies.len()
        invariant
            i <= user_dependencies.len(),
            users == seq_views(user_dependencies@),
            entries == runtime_loadpath_entries(package_root@, users, root@),
            loadpath@ == joined_loadpath(entries.take(i + 1)),
        decreases user_dependencies.len() - i,
    {
        loadpath.append(":");
        loadpath.append(user_dependencies[i].as_str());
        proof {
            reveal_strlit(":");
            assert(entries.take(i + 2).drop_last() =~= entries.take(i + 1));
            assert(entries[i + 1] == users[i as int]);
        }
        i += 1;
    }
    let sources = gerbil_runtime_loadpath(root);
    loadpath.append(":");
    loadpath.append(sources.as_str());
    proof {
        assert(entries.take(i + 2).drop_last() =~= entries.take(i + 1));
        assert(entries.take(i + 2) =~= entries);
    }
    match existing {
        Some(e) => {
            loadpath.append(":");
            loadpath.append(e);
        },
        None => {
            assert(loadpath@ + Seq::<char>::empty() =~= loadpath@);
        },
    }
    loadpath
}

/// Returns the package build script in the package root.
pub fn gerbil_package_build_script(package_root: &str) -> (script: String)
    ensures
        script@ == path_join(package_root@, "build.ss"@),
{
    join_path(package_root, GERBIL_PACKAGE_BUILD_SCRIPT)
}

/// Rust-owned contract facts for the crate-shipped Gerbil package driver.
#[derive(Clone, Debug, PartialEq, Eq)]
pub struct GerbilRuntimeBuildScriptContract {
    pub package_name: &'static str,
    pub stages: Vec<&'static str>,
    pub deps: Vec<&'static str>,
    pub source_roots: Vec<&'static str>,
    pub coverage_roots: Vec<&'static str>,
    pub special_source_files: Vec<&'static str>,
    pub excluded_package_source_files: Vec<&'static str>,
    pub worker_env: Vec<&'static str>,
}

/// Native sources compiled through dedicated native-link lanes, not package make.
pub open spec fn special_source_files() -> Seq<Seq<char>> {
    seq![
        "marlin/_deck-runtime-native.ssi"@,
        "marlin/deck-runtime-native.ss"@,
        "marlin/_agent-policy-routing-native.ssi"@,
        "marlin/agent-policy-routing-native.ss"@,
    ]
}

/// The native sources, in order.
fn special_source_file_list() -> (files: Vec<&'static str>)
    ensures
        seq_views(files@) == special_source_files(),
{
    let files = vec![
        "marlin/_deck-runtime-native.ssi",
        "marlin/deck-runtime-native.ss",
        "marlin/_agent-policy-routing-native.ssi",
        "marlin/agent-policy-routing-native.ss",
    ];
    assert(seq_views(files@) =~= special_source_files());
    files
}

/// Returns the Rust-owned contract facts expected from `gerbil/build.ss`.
pub fn gerbil_runtime_build_script_contract() -> (contract: GerbilRuntimeBuildScriptContract)
    ensures
        contract.package_name@ == "marlin-deck-runtime"@,
        seq_views(contract.stages@) == seq!["spec"@, "compile"@, "clean"@, "test"@],
        seq_views(contract.deps@) == seq!["poo-flow"@, "gslph"@],
        seq_views(contract.source_roots@) == seq!["src"@],
        seq_views(contract.coverage_roots@) == seq!["src"@],
        seq_views(contract.special_source_files@) == special_source_files(),
        seq_views(contract.excluded_package_source_files@) == special_source_files(),
        seq_views(contract.worker_env@) == seq![
            "GERBIL_BUILD_CORES"@,
            "CARGO_BUILD_JOBS"@,
            "NUM_JOBS"@,
        ],
{
    let stages = vec!["spec", "compile", "clean", "test"];
    let deps = vec!["poo-flow", "gslph"];
    let source_roots = vec!["src"];
    let coverage_roots = vec!["src"];
    let worker_env = vec!["GERBIL_BUILD_CORES", "CARGO_BUILD_JOBS", "NUM_JOBS"];
    assert(seq_views(stages@) =~= seq!["spec"@, "compile"@, "clean"@, "test"@]);
    assert(seq_views(deps@) =~= seq!["poo-flow"@, "gslph"@]);
    assert(seq_views(source_roots@) =~= seq!["src"@]);
    assert(seq_views(coverage_roots@) =~= seq!["src"@]);
    assert(seq_views(worker_env@) =~= seq![
        "GERBIL_BUILD_CORES"@,
        "CARGO_BUILD_JOBS"@,
        "NUM_JOBS"@,
    ]);
    GerbilRuntimeBuildScriptContract {
        package_name: GERBIL_RUNTIME_PACKAGE_NAME,
        stages,
        deps,
        source_roots,
        coverage_roots,
        special_source_files: special_source_file_list(),
        excluded_package_source_files: special_source_file_list(),
        worker_env,
    }
}

/// Process launch profile for a `Gerbil` executable.
#[derive(Debug, PartialEq, Eq)]
pub struct GerbilCommandProfile {
    pub program: String,
    pub args: Vec<String>,
    pub env: Vec<(String, String)>,
    pub current_dir: Option<String>,
}

impl View for GerbilCommandProfile {
    type V = (Seq<char>, Seq<Seq<char>>, Seq<(Seq<char>, Seq<char>)>, Option<Seq<char>>);

    open spec fn view(&self) -> (Seq<char>, Seq<Seq<char>>, Seq<(Seq<char>, Seq<char>)>, Option<Seq<char>>) {
        (
            self.program@,
            seq_views(self.args@),
            env_views(self.env@),
            match self.current_dir {
                Some(d) => Some(d@),
                None => None,
            },
        )
    }
}

impl Clone for GerbilCommandProfile {
    fn clone(&self) -> (copy: Self)
        ensures
            copy@ == self@,
    {
        let args = self.args.clone();
        assert(args@ =~= self.args@);
        let mut env: Vec<(String, String)> = Vec::new();
        let mut i: usize = 0;
        while i < self.env.len()
            invariant
                i <= self.env.len(),
                env_views(env@) == env_views(self.env@).take(i as int),
            decreases self.env.len() - i,
        {
            let ghost before = env_views(env@);
            let pair = (self.env[i].0.clone(), self.env[i].1.clone());
            env.push(pair);
            assert(env_views(env@) =~= before.push((self.env@[i as int].0@, self.env@[i as int].1@)));
            assert(env_views(env@) =~= env_views(self.env@).take(i + 1));
            i += 1;
        }
        assert(env_views(self.env@).take(i as int) =~= env_views(self.env@));
        let current_dir = match &self.current_dir {
            Some(d) => Some(d.clone()),
            None => None,
        };
        GerbilCommandProfile { program: self.program.clone(), args, env, current_dir }
    }
}

/// The environment of a profile as name/value texts, in order.
pub open spec fn env_views(env: Seq<(String, String)>) -> Seq<(Seq<char>, Seq<char>)> {
    env.map_values(|p: (String, String)| (p.0@, p.1@))
}

/// The environment after setting `name` to `value`: an existing entry for the
/// name takes the new value in place, otherwise the entry is appended.
pub open spec fn env_with(env: Seq<(Seq<char>, Seq<char>)>, name: Seq<char>, value: Seq<char>) -> Seq<
    (Seq<char>, Seq<char>),
> {
    match crate::text::first_position(env.map_values(|p: (Seq<char>, Seq<char>)| p.0), name) {
        Some(i) => env.update(i, (name, value)),
        None => env.push((name, value)),
    }
}

impl GerbilCommandProfile {
    /// Profile that runs `program` on the crate-shipped adapter module with the
    /// package sources under `loadpath_root` on its loadpath.
    pub fn marlin_runtime_module(program: &str, loadpath_root: &str) -> (profile: Self)
        ensures
            profile.program@ == program@,
            seq_views(profile.args@) == seq![":marlin/adapter"@],
            env_views(profile.env@) == seq![
                ("GERBIL_LOADPATH"@, path_join(loadpath_root@, "src"@)),
            ],
            profile.current_dir is None,
    {
        let args = vec![GERBIL_ADAPTER_MODULE.to_owned()];
        assert(seq_views(args@) =~= seq![":marlin/adapter"@]);
        let loadpath = gerbil_runtime_loadpath(loadpath_root);
        let env = vec![(GERBIL_LOADPATH_ENV.to_owned(), loadpath)];
        assert(env_views(env@) =~= seq![("GERBIL_LOADPATH"@, path_join(loadpath_root@, "src"@))]);
        GerbilCommandProfile { program: program.to_owned(), args, env, current_dir: None }
    }

    /// Sets one environment variable of the profile.
    pub fn set_env(&mut self, name: &str, value: &str)
        ensures
            final(self).program == old(self).program,
            final(self).args == old(self).args,
            final(self).current_dir == old(self).current_dir,
            env_views(final(self).env@) == env_with(env_views(old(self).env@), name@, value@),
    {
        let ghost names = env_views(self.env@).map_values(|p: (Seq<char>, Seq<char>)| p.0);
        let mut i: usize = 0;
        while i < self.env.len()
            invariant
                i <= self.env.len(),
                self.env == old(self).env,
                self.program == old(self).program,
                self.args == old(self).args,
                self.current_dir == old(self).current_dir,
                names == env_views(self.env@).map_values(|p: (Seq<char>, Seq<char>)| p.0),
                forall|j: int| 0 <= j < i ==> names[j] != name@,
            decreases self.env.len() - i,
        {
            if text_eq(self.env[i].0.as_str(), name) {
                proof {
                    crate::text::lemma_first_position(names, name@, i as int);
                }
                let ghost before = env_views(self.env@);
                self.env.set(i, (name.to_owned(), value.to_owned()));
                assert(env_views(self.env@) =~= before.update(i as int, (name@, value@)));
                return;
            }
            i += 1;
        }
        proof {
            crate::text::lemma_first_position(names, name@, i as int);
        }
        let ghost before = env_views(self.env@);
        self.env.push((name.to_owned(), value.to_owned()));
        assert(env_views(self.env@) =~= before.push((name@, value@)));
    }
}


/// The value of the first entry named `name`.
pub open spec fn env_lookup(env: Seq<(Seq<char>, Seq<char>)>, name: Seq<char>) -> Option<Seq<char>> {
    match crate::text::first_position(env.map_values(|p: (Seq<char>, Seq<char>)| p.0), name) {
        Some(i) => Some(env[i].1),
        None => None,
    }
}

/// After setting a variable, looking it up gives the value that was set, and
/// every other variable keeps the value it had.
pub proof fn law_env_set_then_lookup(
    env: Seq<(Seq<char>, Seq<char>)>,
    name: Seq<char>,
    value: Seq<char>,
    other: Seq<char>,
)
    requires
        other != name,
    ensures
        env_lookup(env_with(env, name, value), name) == Some(value),
        env_lookup(env_with(env, name, value), other) == env_lookup(env, other),
{
    let names = env.map_values(|p: (Seq<char>, Seq<char>)| p.0);
    let after = env_with(env, name, value);
    let after_names = after.map_values(|p: (Seq<char>, Seq<char>)| p.0);
    crate::text::lemma_first_position_found(names, name);
    crate::text::lemma_first_position_found(names, other);
    match crate::text::first_position(names, name) {
        Some(i) => {
            assert(after_names =~= names.update(i, name));
            crate::text::lemma_first_position(after_names, name, i);
            match crate::text::first_position(names, other) {
                Some(k) => {
                    assert(k != i);
                    crate::text::lemma_first_position(after_names, other, k);
                },
                None => {
                    assert forall|j: int| 0 <= j < after_names.len() implies after_names[j]
                        != other by {
                        if j != i {
                            assert(names[j] == after_names[j]);
                        }
                    }
                    crate::text::lemma_first_position(after_names, other, after_names.len() as int);
                },
            }
        },
        None => {
            assert(after_names =~= names.push(name));
            assert forall|j: int| 0 <= j < names.len() implies after_names[j] != name by {
                assert(names[j] == after_names[j]);
            }
            crate::text::lemma_first_position(after_names, name, names.len() as int);
            match crate::text::first_position(names, other) {
                Some(k) => {
                    crate::text::lemma_first_position(after_names, other, k);
                },
                None => {
                    assert forall|j: int| 0 <= j < after_names.len() implies after_names[j]
                        != other by {
                        if j < names.len() {
                            assert(names[j] == after_names[j]);
                        }
                    }
                    crate::text::lemma_first_position(after_names, other, after_names.len() as int);
                },
            }
        },
    }
}

/// Setting a variable twice leaves the environment as setting it once to the
/// later value.
pub proof fn law_env_set_twice(
    env: Seq<(Seq<char>, Seq<char>)>,
    name: Seq<char>,
    first: Seq<char>,
    second: Seq<char>,
)
    ensures
        env_with(env_with(env, name, first), name, second) == env_with(env, name, second),
{
    let names = env.map_values(|p: (Seq<char>, Seq<char>)| p.0);
    let once = env_with(env, name, first);
    let once_names = once.map_values(|p: (Seq<char>, Seq<char>)| p.0);
    crate::text::lemma_first_position_found(names, name);
    match crate::text::first_position(names, name) {
        Some(i) => {
            assert(once_names =~= names.update(i, name));
            crate::text::lemma_first_position(once_names, name, i);
            assert(once.update(i, (name, second)) =~= env.update(i, (name, second)));
        },
        None => {
            assert(once_names =~= names.push(name));
            assert forall|j: int| 0 <= j < names.len() implies once_names[j] != name by {
                assert(names[j] == once_names[j]);
            }
            crate::text::lemma_first_position(once_names, name, names.len() as int);
            assert(once.update(names.len() as int, (name, second)) =~= env.push((name, second)));
        },
    }
}

} // verus!
