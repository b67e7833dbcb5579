//! Command-line parsing for building Rust-linkable native Gerbil AOT link units.
//!
//! Relative paths on the command line are resolved against the working
//! directory, which the caller hands in with the platform's default C compiler.

use vstd::prelude::*;

use crate::runtime::{join_path, path_join};
use crate::text::{seq_views, text_eq};

verus! {

/// Native AOT root, relative to the working directory, when `--root` is not given.
pub const DEFAULT_NATIVE_AOT_ROOT: &'static str = "target/marlin-gerbil-native-aot";

/// Environment variable that carries the Gambit include directory to the build.
pub const NATIVE_AOT_GAMBIT_INCLUDE_ENV: &'static str = "MARLIN_GERBIL_NATIVE_AOT_GAMBIT_INCLUDE";

/// What the native AOT command line asks for.
#[derive(Clone, Copy, Debug, PartialEq, Eq, Structural)]
pub enum GerbilNativeAotCliAction {
    Build,
    Help,
}

/// An option of the native AOT command line that takes a value.
#[derive(Clone, Copy, Debug, PartialEq, Eq, Structural)]
pub enum GerbilNativeAotCliOption {
    Root,
    OutputDir,
    CompiledRuntimeScm,
    Gsc,
    CCompiler,
    SymbolAuditor,
    GambitLinkLibrary,
    GambitLinkSearchDir,
    GambitIncludeDir,
}

/// Parsed native AOT command line.
#[derive(Clone, Debug, PartialEq, Eq)]
pub struct GerbilNativeAotCliConfig {
    pub action: GerbilNativeAotCliAction,
    pub root: String,
    pub output_dir: Option<String>,
    pub compiled_runtime_scm: Option<String>,
    pub gsc: Option<String>,
    pub c_compiler: Option<String>,
    pub symbol_auditor: Option<String>,
    pub gambit_link_library: Option<String>,
    pub gambit_link_search_dir: Option<String>,
    pub gambit_include_dir: Option<String>,
}

/// A parsed native AOT command line, as texts.
pub struct NativeAotCliConfigView {
    pub action: GerbilNativeAotCliAction,
    pub root: Seq<char>,
    pub output_dir: Option<Seq<char>>,
    pub compiled_runtime_scm: Option<Seq<char>>,
    pub gsc: Option<Seq<char>>,
    pub c_compiler: Option<Seq<char>>,
    pub symbol_auditor: Option<Seq<char>>,
    pub gambit_link_library: Option<Seq<char>>,
    pub gambit_link_search_dir: Option<Seq<char>>,
    pub gambit_include_dir: Option<Seq<char>>,
}

/// The text of an optional string.
pub open spec fn text_of(value: Option<String>) -> Option<Seq<char>> {
    match value {
        Some(s) => Some(s@),
        None => None,
    }
}

impl View for GerbilNativeAotCliConfig {
    type V = NativeAotCliConfigView;

    open spec fn view(&self) -> NativeAotCliConfigView {
        NativeAotCliConfigView {
            action: self.action,
            root: self.root@,
            output_dir: text_of(self.output_dir),
            compiled_runtime_scm: text_of(self.compiled_runtime_scm),
            gsc: text_of(self.gsc),
            c_compiler: text_of(self.c_compiler),
            symbol_auditor: text_of(self.symbol_auditor),
            gambit_link_library: text_of(self.gambit_link_library),
            gambit_link_search_dir: text_of(self.gambit_link_search_dir),
            gambit_include_dir: text_of(self.gambit_include_dir),
        }
    }
}

/// The option a flag names, if it names one that takes a value.
pub open spec fn native_aot_option(flag: Seq<char>) -> Option<GerbilNativeAotCliOption> {
    if flag == "--root"@ {
        Some(GerbilNativeAotCliOption::Root)
    } else if flag == "--output-dir"@ {
        Some(GerbilNativeAotCliOption::OutputDir)
    } else if flag == "--compiled-runtime-scm"@ {
        Some(GerbilNativeAotCliOption::CompiledRuntimeScm)
    } else if flag == "--gsc"@ {
        Some(GerbilNativeAotCliOption::Gsc)
    } else if flag == "--c-compiler"@ {
        Some(GerbilNativeAotCliOption::CCompiler)
    } else if flag == "--symbol-auditor"@ {
        Some(GerbilNativeAotCliOption::SymbolAuditor)
    } else if flag == "--gambit-link-lib"@ {
        Some(GerbilNativeAotCliOption::GambitLinkLibrary)
    } else if flag == "--gambit-link-search"@ {
        Some(GerbilNativeAotCliOption::GambitLinkSearchDir)
    } else if flag == "--gambit-include"@ {
        Some(GerbilNativeAotCliOption::GambitIncludeDir)
    } else {
        None
    }
}

/// `config` with `option` set from `value`; path options are resolved against `cwd`.
pub open spec fn with_option(
    config: NativeAotCliConfigView,
    option: GerbilNativeAotCliOption,
    value: Seq<char>,
    cwd: Seq<char>,
) -> NativeAotCliConfigView {
    let path = path_join(cwd, value);
    match option {
        GerbilNativeAotCliOption::Root => NativeAotCliConfigView { root: path, ..config },
        GerbilNativeAotCliOption::OutputDir => NativeAotCliConfigView {
            output_dir: Some(path),
            ..config
        },
        GerbilNativeAotCliOption::CompiledRuntimeScm => NativeAotCliConfigView {
            compiled_runtime_scm: Some(path),
            ..config
        },
        GerbilNativeAotCliOption::Gsc => NativeAotCliConfigView { gsc: Some(path), ..config },
        GerbilNativeAotCliOption::CCompiler => NativeAotCliConfigView {
            c_compiler: Some(value),
            ..config
        },
        GerbilNativeAotCliOption::SymbolAuditor => NativeAotCliConfigView {
            symbol_auditor: Some(path),
            ..config
        },
        GerbilNativeAotCliOption::GambitLinkLibrary => NativeAotCliConfigView {
            gambit_link_library: Some(value),
            ..config
        },
        GerbilNativeAotCliOption::GambitLinkSearchDir => NativeAotCliConfigView {
            gambit_link_search_dir: Some(path),
            ..config
        },
        GerbilNativeAotCliOption::GambitIncludeDir => NativeAotCliConfigView {
            gambit_include_dir: Some(path),
            ..config
        },
    }
}

/// `config` after the options `args`, left to right; the first bad option is the error.
pub open spec fn apply_native_aot_options(
    config: NativeAotCliConfigView,
    args: Seq<Seq<char>>,
    cwd: Seq<char>,
) -> Result<NativeAotCliConfigView, Seq<char>>
    decreases args.len(),
{
    if args.len() == 0 {
        Ok(config)
    } else if args[0] == "-h"@ || args[0] == "--help"@ {
        apply_native_aot_options(
            NativeAotCliConfigView { action: GerbilNativeAotCliAction::Help, ..config },
            args.drop_first(),
            cwd,
        )
    } else {
        match native_aot_option(args[0]) {
            None => Err("unknown native AOT option `"@ + args[0] + "`"@),
            Some(option) => if args.len() < 2 {
                Err(args[0] + " requires a value"@)
            } else {
                apply_native_aot_options(
                    with_option(config, option, args[1], cwd),
                    args.skip(2),
                    cwd,
                )
            },
        }
    }
}

/// The configuration before any option: the action, the default root under
/// `cwd` and the default C compiler.
pub open spec fn initial_native_aot_config(
    action: GerbilNativeAotCliAction,
    cwd: Seq<char>,
    default_c_compiler: Option<Seq<char>>,
) -> NativeAotCliConfigView {
    NativeAotCliConfigView {
        action,
        root: path_join(cwd, DEFAULT_NATIVE_AOT_ROOT@),
        output_dir: None,
        compiled_runtime_scm: None,
        gsc: None,
        c_compiler: default_c_compiler,
        symbol_auditor: None,
        gambit_link_library: None,
        gambit_link_search_dir: None,
        gambit_include_dir: None,
    }
}

/// The configuration a native AOT command line gives: the action first (no
/// argument asks for help), then the options.
pub open spec fn native_aot_cli_config(
    args: Seq<Seq<char>>,
    cwd: Seq<char>,
    default_c_compiler: Option<Seq<char>>,
) -> Result<NativeAotCliConfigView, Seq<char>> {
    if args.len() == 0 {
        Ok(initial_native_aot_config(GerbilNativeAotCliAction::Help, cwd, default_c_compiler))
    } else if args[0] == "-h"@ || args[0] == "--help"@ {
        apply_native_aot_options(
            initial_native_aot_config(GerbilNativeAotCliAction::Help, cwd, default_c_compiler),
            args.drop_first(),
            cwd,
        )
    } else if args[0] == "build"@ {
        apply_native_aot_options(
            initial_native_aot_config(GerbilNativeAotCliAction::Build, cwd, default_c_compiler),
            args.drop_first(),
            cwd,
        )
    } else {
        Err("unknown native AOT action `"@ + args[0] + "`"@)
    }
}

/// The option a flag names, if it names one that takes a value.
fn option_of(flag: &str) -> (option: Option<GerbilNativeAotCliOption>)
    ensures
        option == native_aot_option(flag@),
{
    if text_eq(flag, "--root") {
        Some(GerbilNativeAotCliOption::Root)
    } else if text_eq(flag, "--output-dir") {
        Some(GerbilNativeAotCliOption::OutputDir)
    } else if text_eq(flag, "--compiled-runtime-scm") {
        Some(GerbilNativeAotCliOption::CompiledRuntimeScm)
    } else if text_eq(flag, "--gsc") {
        Some(GerbilNativeAotCliOption::Gsc)
    } else if text_eq(flag, "--c-compiler") {
        Some(GerbilNativeAotCliOption::CCompiler)
    } else if text_eq(flag, "--symbol-auditor") {
        Some(GerbilNativeAotCliOption::SymbolAuditor)
    } else if text_eq(flag, "--gambit-link-lib") {
        Some(GerbilNativeAotCliOption::GambitLinkLibrary)
    } else if text_eq(flag, "--gambit-link-search") {
        Some(GerbilNativeAotCliOption::GambitLinkSearchDir)
    } else if text_eq(flag, "--gambit-include") {
        Some(GerbilNativeAotCliOption::GambitIncludeDir)
    } else {
        None
    }
}

impl GerbilNativeAotCliConfig {
    /// Sets one option from its value; path options are resolved against `cwd`.
    fn set_option(&mut self, option: GerbilNativeAotCliOption, value: &str, cwd: &str)
        ensures
            final(self)@ == with_option(old(self)@, option, value@, cwd@),
    {
        let path = join_path(cwd, value);
        match option {
            GerbilNativeAotCliOption::Root => {
                self.root = path;
            },
            GerbilNativeAotCliOption::OutputDir => {
                self.output_dir = Some(path);
            },
            GerbilNativeAotCliOption::CompiledRuntimeScm => {
                self.compiled_runtime_scm = Some(path);
            },
            GerbilNativeAotCliOption::Gsc => {
                self.gsc = Some(path);
            },
            GerbilNativeAotCliOption::CCompiler => {
                self.c_compiler = Some(value.to_owned());
            },
            GerbilNativeAotCliOption::SymbolAuditor => {
                self.symbol_auditor = Some(path);
            },
            GerbilNativeAotCliOption::GambitLinkLibrary => {
                self.gambit_link_library = Some(value.to_owned());
            },
            GerbilNativeAotCliOption::GambitLinkSearchDir => {
                self.gambit_link_search_dir = Some(path);
            },
            GerbilNativeAotCliOption::GambitIncludeDir => {
                self.gambit_include_dir = Some(path);
            },
        }
    }

    /// Parses the native AOT command line (without the program name).
    ///
    /// `cwd` is the working directory that relative paths resolve against, and
    /// `default_c_compiler` the C compiler used when `--c-compiler` is not given.
    pub fn from_args(args: Vec<String>, cwd: &str, default_c_compiler: Option<String>) -> (config:
        Result<Self, String>)
        ensures
            match config {
                Ok(c) => native_aot_cli_config(
                    seq_views(args@),
                    cwd@,
                    text_of(default_c_compiler),
                ) == Ok::<NativeAotCliConfigView, Seq<char>>(c@),
                Err(message) => native_aot_cli_config(
                    seq_views(args@),
                    cwd@,
                    text_of(default_c_compiler),
                ) == Err::<NativeAotCliConfigView, Seq<char>>(message@),
            },
    {
        let ghost views = seq_views(args@);
        let ghost default_text = text_of(default_c_compiler);
        let action = if args.len() == 0 || text_eq(args[0].as_str(), "-h") || text_eq(
            args[0].as_str(),
            "--help",
        ) {
            GerbilNativeAotCliAction::Help
        } else if text_eq(args[0].as_str(), "build") {
            GerbilNativeAotCliAction::Build
        } else {
            let mut message = "unknown native AOT action `".to_owned();
            message.append(args[0].as_str());
            message.append("`");
            return Err(message);
        };
        let mut config = GerbilNativeAotCliConfig {
            action,
            root: join_path(cwd, DEFAULT_NATIVE_AOT_ROOT),
            output_dir: None,
            compiled_runtime_scm: None,
            gsc: None,
            c_compiler: default_c_compiler,
            symbol_auditor: None,
            gambit_link_library: None,
            gambit_link_search_dir: None,
            gambit_include_dir: None,
        };
        assert(config@ == initial_native_aot_config(action, cwd@, default_text));
        if args.len() == 0 {
            return Ok(config);
        }
        let ghost target = native_aot_cli_config(views, cwd@, default_text);
        let mut i: usize = 1;
        assert(views.skip(1) =~= views.drop_first());
        while i < args.len()
            invariant
                1 <= i <= args.len(),
                views == seq_views(args@),
                target == native_aot_cli_config(views, cwd@, default_text),
                default_text == text_of(default_c_compiler),
                target == apply_native_aot_options(config@, views.skip(i as int), cwd@),
            decreases args.len() - i,
        {
            let ghost rest = views.skip(i as int);
            assert(rest[0] == args@[i as int]@);
            assert(rest.drop_first() =~= views.skip(i + 1));
            let flag = args[i].as_str();
            if text_eq(flag, "-h") || text_eq(flag, "--help") {
                config.action = GerbilNativeAotCliAction::Help;
                i += 1;
            } else {
                match option_of(flag) {
                    None => {
                        let mut message = "unknown native AOT option `".to_owned();
                        message.append(flag);
                        message.append("`");
                        return Err(message);
                    },
                    Some(option) => {
                        if i + 1 >= args.len() {
                            let mut message = flag.to_owned();
                            message.append(" requires a value");
                            return Err(message);
                        }
                        assert(rest[1] == args@[i + 1]@);
                        assert(rest.skip(2) =~= views.skip(i + 2));
                        config.set_option(option, args[i + 1].as_str(), cwd);
                        i += 2;
                    },
                }
            }
        }
        assert(views.skip(i as int).len() == 0);
        Ok(config)
    }

    /// The command line's usage text.
    pub fn usage() -> (text: &'static str)
        ensures
            text@ == "Usage: marlin-gerbil-native-aot <build> [--root <path>] [--output-dir <path>] [--compiled-runtime-scm <path>] [--gsc <path>] [--c-compiler <name>] [--symbol-auditor <path>] [--gambit-link-lib <name>] [--gambit-link-search <dir>] [--gambit-include <dir>]"@,
    {
        "Usage: marlin-gerbil-native-aot <build> [--root <path>] [--output-dir <path>] [--compiled-runtime-scm <path>] [--gsc <path>] [--c-compiler <name>] [--symbol-auditor <path>] [--gambit-link-lib <name>] [--gambit-link-search <dir>] [--gambit-include <dir>]"
    }
}

/// An option flag followed by its value sets that option.
proof fn lemma_apply_one_option(
    config: NativeAotCliConfigView,
    flag: Seq<char>,
    value: Seq<char>,
    cwd: Seq<char>,
)
    requires
        native_aot_option(flag) is Some,
        flag != "-h"@,
        flag != "--help"@,
    ensures
        apply_native_aot_options(config, seq![flag, value], cwd) == Ok::<
            NativeAotCliConfigView,
            Seq<char>,
        >(with_option(config, native_aot_option(flag)->Some_0, value, cwd)),
{
    let args = seq![flag, value];
    assert(args[0] == flag && args[1] == value);
    assert(args.skip(2) =~= Seq::<Seq<char>>::empty());
    let next = with_option(config, native_aot_option(flag)->Some_0, value, cwd);
    assert(apply_native_aot_options(next, args.skip(2), cwd) == Ok::<
        NativeAotCliConfigView,
        Seq<char>,
    >(next));
}

/// Law: an option followed by its value sets exactly that option's field and
/// leaves the rest of the configuration as it was; every path option
/// (`--root`, `--output-dir`, `--compiled-runtime-scm`, `--gsc`,
/// `--symbol-auditor`, `--gambit-link-search`, `--gambit-include`) is stored
/// resolved against the working directory, while `--c-compiler` and
/// `--gambit-link-lib` keep their value as given.
pub proof fn law_native_aot_option_values(
    config: NativeAotCliConfigView,
    value: Seq<char>,
    cwd: Seq<char>,
)
    ensures
        apply_native_aot_options(config, seq!["--root"@, value], cwd) == Ok::<
            NativeAotCliConfigView,
            Seq<char>,
        >(NativeAotCliConfigView { root: path_join(cwd, value), ..config }),
        apply_native_aot_options(config, seq!["--output-dir"@, value], cwd) == Ok::<
            NativeAotCliConfigView,
            Seq<char>,
        >(NativeAotCliConfigView { output_dir: Some(path_join(cwd, value)), ..config }),
        apply_native_aot_options(config, seq!["--compiled-runtime-scm"@, value], cwd) == Ok::<
            NativeAotCliConfigView,
            Seq<char>,
        >(NativeAotCliConfigView { compiled_runtime_scm: Some(path_join(cwd, value)), ..config }),
        apply_native_aot_options(config, seq!["--gsc"@, value], cwd) == Ok::<
            NativeAotCliConfigView,
            Seq<char>,
        >(NativeAotCliConfigView { gsc: Some(path_join(cwd, value)), ..config }),
        apply_native_aot_options(config, seq!["--c-compiler"@, value], cwd) == Ok::<
            NativeAotCliConfigView,
            Seq<char>,
        >(NativeAotCliConfigView { c_compiler: Some(value), ..config }),
        apply_native_aot_options(config, seq!["--symbol-auditor"@, value], cwd) == Ok::<
            NativeAotCliConfigView,
            Seq<char>,
        >(NativeAotCliConfigView { symbol_auditor: Some(path_join(cwd, value)), ..config }),
        apply_native_aot_options(config, seq!["--gambit-link-lib"@, value], cwd) == Ok::<
            NativeAotCliConfigView,
            Seq<char>,
        >(NativeAotCliConfigView { gambit_link_library: Some(value), ..config }),
        apply_native_aot_options(config, seq!["--gambit-link-search"@, value], cwd) == Ok::<
            NativeAotCliConfigView,
            Seq<char>,
        >(NativeAotCliConfigView { gambit_link_search_dir: Some(path_join(cwd, value)), ..config }),
        apply_native_aot_options(config, seq!["--gambit-include"@, value], cwd) == Ok::<
            NativeAotCliConfigView,
            Seq<char>,
        >(NativeAotCliConfigView { gambit_include_dir: Some(path_join(cwd, value)), ..config }),
        value.len() > 0 && value[0] != '/' && cwd.len() > 0 && cwd.last() != '/'
            ==> apply_native_aot_options(config, seq!["--output-dir"@, value], cwd) == Ok::<
            NativeAotCliConfigView,
            Seq<char>,
        >(NativeAotCliConfigView { output_dir: Some(cwd + seq!['/'] + value), ..config }),
        value.len() > 0 && value[0] == '/' ==> apply_native_aot_options(
            config,
            seq!["--output-dir"@, value],
            cwd,
        ) == Ok::<NativeAotCliConfigView, Seq<char>>(
            NativeAotCliConfigView { output_dir: Some(value), ..config },
        ),
{
    reveal_strlit("--root");
    reveal_strlit("--output-dir");
    reveal_strlit("--compiled-runtime-scm");
    reveal_strlit("--gsc");
    reveal_strlit("--c-compiler");
    reveal_strlit("--symbol-auditor");
    reveal_strlit("--gambit-link-lib");
    reveal_strlit("--gambit-link-search");
    reveal_strlit("--gambit-include");
    reveal_strlit("-h");
    reveal_strlit("--help");
    let names = seq![
        "--root"@,
        "--output-dir"@,
        "--compiled-runtime-scm"@,
        "--gsc"@,
        "--c-compiler"@,
        "--symbol-auditor"@,
        "--gambit-link-lib"@,
        "--gambit-link-search"@,
        "--gambit-include"@,
        "-h"@,
        "--help"@,
    ];
    assert forall|a: int, b: int| 0 <= a < b < 11 implies #[trigger] names[a] != #[trigger] names[b] by {
        assert(names[a].len() != names[b].len() || names[a][2] != names[b][2] || names[a][9]
            != names[b][9] || names[a][14] != names[b][14]);
    }
    assert(names[0] == "--root"@ && names[1] == "--output-dir"@ && names[2] == "--compiled-runtime-scm"@ && names[3] == "--gsc"@ && names[4] == "--c-compiler"@ && names[5] == "--symbol-auditor"@ && names[6] == "--gambit-link-lib"@ && names[7] == "--gambit-link-search"@ && names[8] == "--gambit-include"@ && names[9] == "-h"@ && names[10] == "--help"@);
    lemma_apply_one_option(config, "--root"@, value, cwd);
    lemma_apply_one_option(config, "--output-dir"@, value, cwd);
    lemma_apply_one_option(config, "--compiled-runtime-scm"@, value, cwd);
    lemma_apply_one_option(config, "--gsc"@, value, cwd);
    lemma_apply_one_option(config, "--c-compiler"@, value, cwd);
    lemma_apply_one_option(config, "--symbol-auditor"@, value, cwd);
    lemma_apply_one_option(config, "--gambit-link-lib"@, value, cwd);
    lemma_apply_one_option(config, "--gambit-link-search"@, value, cwd);
    lemma_apply_one_option(config, "--gambit-include"@, value, cwd);
}

/// Law: a build command line with one option gives the build configuration
/// with that option set; in particular a path option is resolved against
/// the working directory.
pub proof fn law_native_aot_build_option(
    flag: Seq<char>,
    value: Seq<char>,
    cwd: Seq<char>,
    default_c_compiler: Option<Seq<char>>,
)
    ensures
        native_aot_cli_config(seq!["build"@, flag, value], cwd, default_c_compiler)
            == apply_native_aot_options(
            initial_native_aot_config(GerbilNativeAotCliAction::Build, cwd, default_c_compiler),
            seq![flag, value],
            cwd,
        ),
{
    reveal_strlit("build");
    reveal_strlit("-h");
    reveal_strlit("--help");
    let args = seq!["build"@, flag, value];
    assert(args[0] == "build"@);
    assert("build"@.len() == 5 && "-h"@.len() == 2 && "--help"@.len() == 6);
    assert(args.drop_first() =~= seq![flag, value]);
}

/// Law: a bare `build` command line builds under
/// `target/marlin-gerbil-native-aot` in the working directory, with no
/// option set but the default C compiler; no argument at all asks for help.
pub proof fn law_native_aot_defaults(cwd: Seq<char>, default_c_compiler: Option<Seq<char>>)
    ensures
        native_aot_cli_config(seq!["build"@], cwd, default_c_compiler) matches Ok(c) && c.action
            == GerbilNativeAotCliAction::Build && c.root == path_join(
            cwd,
            "target/marlin-gerbil-native-aot"@,
        ) && c.output_dir is None && c.compiled_runtime_scm is None && c.gsc is None
            && c.c_compiler == default_c_compiler && c.symbol_auditor is None
            && c.gambit_link_library is None && c.gambit_link_search_dir is None
            && c.gambit_include_dir is None,
        native_aot_cli_config(Seq::empty(), cwd, default_c_compiler) matches Ok(c) && c.action
            == GerbilNativeAotCliAction::Help,
{
    reveal_strlit("build");
    reveal_strlit("-h");
    reveal_strlit("--help");
    let args = seq!["build"@];
    assert(args[0] == "build"@);
    assert("build"@.len() == 5 && "-h"@.len() == 2 && "--help"@.len() == 6);
    assert(args.drop_first() =~= Seq::<Seq<char>>::empty());
}

} // verus!


