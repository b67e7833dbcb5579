//! Command-line parsing and command planning for the real `gxi` harness.
//!
//! The harness runs the ignored real-`gxi` integration tests through Cargo with
//! the `gxi` executable and the Gerbil home on the environment. Reading the
//! process arguments and environment, probing the file system and running the
//! command are the caller's part.

use vstd::prelude::*;

use crate::runtime::{path_join, join_path};
use crate::text::{debug_str, debug_str_text, text_eq};

verus! {

/// Environment variable that names the Gerbil home.
pub const GERBIL_HOME_ENV: &'static str = "GERBIL_HOME";

/// Test filter the harness runs when `--filter` is not given.
pub const DEFAULT_TEST_FILTER: &'static str = "command::real_gxi";

/// Program name used when the first argument is missing or not UTF-8.
pub const DEFAULT_GATE_PROGRAM: &'static str = "marlin-gerbil-real-gxi-gate";

/// Failure returned by the real `gxi` harness.
#[derive(Clone, Debug, PartialEq, Eq)]
pub struct RealGxiGateError {
    message: String,
}

impl View for RealGxiGateError {
    type V = Seq<char>;

    closed spec fn view(&self) -> Seq<char> {
        self.message@
    }
}

impl RealGxiGateError {
    /// An error with the given message.
    pub fn new(message: String) -> (error: Self)
        ensures
            error@ == message@,
    {
        RealGxiGateError { message }
    }

    /// The error's message.
    pub fn message(&self) -> (text: &str)
        ensures
            text@ == self@,
    {
        self.message.as_str()
    }
}

/// One process argument: UTF-8 text, or bytes that are not UTF-8, held as
/// their lossy text and their `{:?}` rendering.
#[derive(Clone, Debug, PartialEq, Eq)]
pub enum RealGxiGateArg {
    Text(String),
    NonUtf8 { lossy: String, debug: String },
}

/// The text an argument matches flags by: its lossy form.
pub open spec fn arg_lossy(arg: RealGxiGateArg) -> Seq<char> {
    match arg {
        RealGxiGateArg::Text(text) => text@,
        RealGxiGateArg::NonUtf8 { lossy, .. } => lossy@,
    }
}

/// A parsed harness command line.
#[derive(Clone, Debug, PartialEq, Eq)]
pub struct RealGxiGateRequest {
    pub program: String,
    pub workspace_root: Option<String>,
    pub gerbil_home: Option<String>,
    pub gxi: Option<String>,
    pub cargo: Option<String>,
    pub filter: String,
    pub print_command: bool,
    pub help: bool,
}

/// A parsed harness command line, as texts.
pub struct RealGxiGateRequestView {
    pub program: Seq<char>,
    pub workspace_root: Option<Seq<char>>,
    pub gerbil_home: Option<Seq<char>>,
    pub gxi: Option<Seq<char>>,
    pub cargo: Option<Seq<char>>,
    pub filter: Seq<char>,
    pub print_command: bool,
    pub help: bool,
}

/// The text of an optional string.
pub open spec fn opt_text(value: Option<String>) -> Option<Seq<char>> {
    match value {
        Some(s) => Some(s@),
        None => None,
    }
}

impl View for RealGxiGateRequest {
    type V = RealGxiGateRequestView;

    open spec fn view(&self) -> RealGxiGateRequestView {
        RealGxiGateRequestView {
            program: self.program@,
            workspace_root: opt_text(self.workspace_root),
            gerbil_home: opt_text(self.gerbil_home),
            gxi: opt_text(self.gxi),
            cargo: opt_text(self.cargo),
            filter: self.filter@,
            print_command: self.print_command,
            help: self.help,
        }
    }
}

/// A harness option that takes a value.
#[derive(Clone, Copy, Debug, PartialEq, Eq, Structural)]
pub enum RealGxiGateOption {
    WorkspaceRoot,
    GerbilHome,
    Gxi,
    Cargo,
    Filter,
}

/// The option a flag names, if it names one that takes a value.
pub open spec fn gate_option(flag: Seq<char>) -> Option<RealGxiGateOption> {
    if flag == "--workspace-root"@ {
        Some(RealGxiGateOption::WorkspaceRoot)
    } else if flag == "--gerbil-home"@ {
        Some(RealGxiGateOption::GerbilHome)
    } else if flag == "--gxi"@ {
        Some(RealGxiGateOption::Gxi)
    } else if flag == "--cargo"@ {
        Some(RealGxiGateOption::Cargo)
    } else if flag == "--filter"@ {
        Some(RealGxiGateOption::Filter)
    } else {
        None
    }
}

/// `request` with `option` set to `value`.
pub open spec fn with_gate_option(
    request: RealGxiGateRequestView,
    option: RealGxiGateOption,
    value: Seq<char>,
) -> RealGxiGateRequestView {
    match option {
        RealGxiGateOption::WorkspaceRoot => RealGxiGateRequestView {
            workspace_root: Some(value),
            ..request
        },
        RealGxiGateOption::GerbilHome => RealGxiGateRequestView {
            gerbil_home: Some(value),
            ..request
        },
        RealGxiGateOption::Gxi => RealGxiGateRequestView { gxi: Some(value), ..request },
        RealGxiGateOption::Cargo => RealGxiGateRequestView { cargo: Some(value), ..request },
        RealGxiGateOption::Filter => RealGxiGateRequestView { filter: value, ..request },
    }
}

/// The harness's usage text for `program`.
pub open spec fn gate_usage(program: Seq<char>) -> Seq<char> {
    "usage: "@ + program
        + " [--workspace-root <path>] [--gerbil-home <path>] [--gxi <path>] [--cargo <path>] [--filter <test-filter>] [--print-command]\n\nRuns: cargo test -p marlin-gerbil-scheme --locked --test unit_test <filter> -- --ignored\nDefaults: filter=command::real_gxi, gxi=.data/gerbil/build/bin/gxi"@
}

/// `request` after the arguments `args`, left to right; the first bad argument is the error.
pub open spec fn apply_gate_args(request: RealGxiGateRequestView, args: Seq<RealGxiGateArg>) -> Result<
    RealGxiGateRequestView,
    Seq<char>,
>
    decreases args.len(),
{
    if args.len() == 0 {
        Ok(request)
    } else {
        let flag = arg_lossy(args[0]);
        match gate_option(flag) {
            Some(option) => if args.len() < 2 {
                Err("missing value for "@ + flag)
            } else {
                match args[1] {
                    RealGxiGateArg::Text(value) => apply_gate_args(
                        with_gate_option(request, option, value@),
                        args.skip(2),
                    ),
                    RealGxiGateArg::NonUtf8 { debug, .. } => Err(
                        "argument for "@ + flag + " is not UTF-8: "@ + debug@,
                    ),
                }
            },
            None => if flag == "--print-command"@ {
                apply_gate_args(
                    RealGxiGateRequestView { print_command: true, ..request },
                    args.drop_first(),
                )
            } else if flag == "-h"@ || flag == "--help"@ {
                apply_gate_args(RealGxiGateRequestView { help: true, ..request }, args.drop_first())
            } else {
                Err(
                    "unexpected argument "@ + debug_str_text(flag) + "\n\n"@ + gate_usage(
                        request.program,
                    ),
                )
            },
        }
    }
}

/// The program name of a harness command line.
pub open spec fn gate_program(args: Seq<RealGxiGateArg>) -> Seq<char> {
    if args.len() > 0 && args[0] is Text {
        args[0]->Text_0@
    } else {
        DEFAULT_GATE_PROGRAM@
    }
}

/// The request a harness command line (program name first) gives.
pub open spec fn gate_request(args: Seq<RealGxiGateArg>) -> Result<RealGxiGateRequestView, Seq<char>> {
    let initial = RealGxiGateRequestView {
        program: gate_program(args),
        workspace_root: None,
        gerbil_home: None,
        gxi: None,
        cargo: None,
        filter: DEFAULT_TEST_FILTER@,
        print_command: false,
        help: false,
    };
    if args.len() == 0 {
        Ok(initial)
    } else {
        apply_gate_args(initial, args.drop_first())
    }
}

/// The harness's usage text for `program`.
pub fn usage(program: &str) -> (text: String)
    ensures
        text@ == gate_usage(program@),
{
    let mut text = "usage: ".to_owned();
    text.append(program);
    text.append(
        " [--workspace-root <path>] [--gerbil-home <path>] [--gxi <path>] [--cargo <path>] [--filter <test-filter>] [--print-command]\n\nRuns: cargo test -p marlin-gerbil-scheme --locked --test unit_test <filter> -- --ignored\nDefaults: filter=command::real_gxi, gxi=.data/gerbil/build/bin/gxi",
    );
    text
}

/// The text an argument matches flags by.
fn lossy_text(arg: &RealGxiGateArg) -> (text: &str)
    ensures
        text@ == arg_lossy(*arg),
{
    match arg {
        RealGxiGateArg::Text(text) => text.as_str(),
        RealGxiGateArg::NonUtf8 { lossy, .. } => lossy.as_str(),
    }
}

/// The option a flag names, if it names one that takes a value.
fn gate_option_of(flag: &str) -> (option: Option<RealGxiGateOption>)
    ensures
        option == gate_option(flag@),
{
    if text_eq(flag, "--workspace-root") {
        Some(RealGxiGateOption::WorkspaceRoot)
    } else if text_eq(flag, "--gerbil-home") {
        Some(RealGxiGateOption::GerbilHome)
    } else if text_eq(flag, "--gxi") {
        Some(RealGxiGateOption::Gxi)
    } else if text_eq(flag, "--cargo") {
        Some(RealGxiGateOption::Cargo)
    } else if text_eq(flag, "--filter") {
        Some(RealGxiGateOption::Filter)
    } else {
        None
    }
}

impl RealGxiGateRequest {
    fn set_option(&mut self, option: RealGxiGateOption, value: &str)
        ensures
            final(self)@ == with_gate_option(old(self)@, option, value@),
    {
        match option {
            RealGxiGateOption::WorkspaceRoot => {
                self.workspace_root = Some(value.to_owned());
            },
            RealGxiGateOption::GerbilHome => {
                self.gerbil_home = Some(value.to_owned());
            },
            RealGxiGateOption::Gxi => {
                self.gxi = Some(value.to_owned());
            },
            RealGxiGateOption::Cargo => {
                self.cargo = Some(value.to_owned());
            },
            RealGxiGateOption::Filter => {
                self.filter = value.to_owned();
            },
        }
    }

    /// Parses a harness command line, program name first.
    pub fn parse(args: &Vec<RealGxiGateArg>) -> (request: Result<Self, RealGxiGateError>)
        ensures
            match request {
                Ok(r) => gate_request(args@) == Ok::<RealGxiGateRequestView, Seq<char>>(r@),
                Err(e) => gate_request(args@) == Err::<RealGxiGateRequestView, Seq<char>>(e@),
            },
    {
        let program = if args.len() > 0 {
            match &args[0] {
                RealGxiGateArg::Text(text) => text.clone(),
                RealGxiGateArg::NonUtf8 { .. } => DEFAULT_GATE_PROGRAM.to_owned(),
            }
        } else {
            DEFAULT_GATE_PROGRAM.to_owned()
        };
        let mut request = RealGxiGateRequest {
            program,
            workspace_root: None,
            gerbil_home: None,
            gxi: None,
            cargo: None,
            filter: DEFAULT_TEST_FILTER.to_owned(),
            print_command: false,
            help: false,
        };
        if args.len() == 0 {
            return Ok(request);
        }
        let ghost target = gate_request(args@);
        let mut i: usize = 1;
        assert(args@.skip(1) =~= args@.drop_first());
        while i < args.len()
            invariant
                1 <= i <= args.len(),
                target == gate_request(args@),
                target == apply_gate_args(request@, args@.skip(i as int)),
            decreases args.len() - i,
        {
            let ghost rest = args@.skip(i as int);
            assert(rest[0] == args@[i as int]);
            assert(rest.drop_first() =~= args@.skip(i + 1));
            let flag = lossy_text(&args[i]);
            match gate_option_of(flag) {
                Some(option) => {
                    if i + 1 >= args.len() {
                        let mut message = "missing value for ".to_owned();
                        message.append(flag);
                        return Err(RealGxiGateError::new(message));
                    }
                    assert(rest[1] == args@[i + 1]);
                    assert(rest.skip(2) =~= args@.skip(i + 2));
                    match &args[i + 1] {
                        RealGxiGateArg::Text(value) => {
                            request.set_option(option, value.as_str());
                        },
                        RealGxiGateArg::NonUtf8 { debug, .. } => {
                            let mut message = "argument for ".to_owned();
                            message.append(flag);
                            message.append(" is not UTF-8: ");
                            message.append(debug.as_str());
                            return Err(RealGxiGateError::new(message));
                        },
                    }
                    i += 2;
                },
                None => {
                    if text_eq(flag, "--print-command") {
                        request.print_command = true;
                    } else if text_eq(flag, "-h") || text_eq(flag, "--help") {
                        request.help = true;
                    } else {
                        let mut message = "unexpected argument ".to_owned();
                        let quoted = debug_str(flag);
                        message.append(quoted.as_str());
                        message.append("\n\n");
                        let text = usage(request.program.as_str());
                        message.append(text.as_str());
                        return Err(RealGxiGateError::new(message));
                    }
                    i += 1;
                },
            }
        }
        assert(args@.skip(i as int).len() == 0);
        Ok(request)
    }
}


// ---------------------------------------------------------------------------
// Command planning
// ---------------------------------------------------------------------------

/// `Path::parent` of a path text, as text.
pub uninterp spec fn path_parent_text(path: Seq<char>) -> Option<Seq<char>>;

/// `Path::file_name` of a path text, as text.
pub uninterp spec fn path_file_name_text(path: Seq<char>) -> Option<Seq<char>>;

/// `Path::parent` (std), on a path given as text; the parent is returned as text.
#[verifier::external_body]
fn path_parent(path: &str) -> (parent: Option<String>)
    ensures
        match parent {
            Some(p) => path_parent_text(path@) == Some(p@),
            None => path_parent_text(path@) is None,
        },
{
    std::path::Path::new(path).parent().map(|p| p.to_string_lossy().into_owned())
}

/// `Path::file_name` (std), on a path given as text; the name is returned as text.
#[verifier::external_body]
fn path_file_name(path: &str) -> (name: Option<String>)
    ensures
        match name {
            Some(n) => path_file_name_text(path@) == Some(n@),
            None => path_file_name_text(path@) is None,
        },
{
    std::path::Path::new(path).file_name().map(|n| n.to_string_lossy().into_owned())
}

/// The Gerbil home a `gxi` path implies: the parent of its directory, when that
/// directory is named `bin`.
pub open spec fn inferred_gerbil_home(gxi: Seq<char>) -> Option<Seq<char>> {
    match path_parent_text(gxi) {
        None => None,
        Some(bin) => if path_file_name_text(bin) == Some("bin"@) {
            path_parent_text(bin)
        } else {
            None
        },
    }
}

/// The Gerbil home a `gxi` path implies: the parent of its directory, when that
/// directory is named `bin`.
pub fn infer_gerbil_home_from_gxi(gxi: &str) -> (home: Option<String>)
    ensures
        match home {
            Some(h) => inferred_gerbil_home(gxi@) == Some(h@),
            None => inferred_gerbil_home(gxi@) is None,
        },
{
    let bin = match path_parent(gxi) {
        Some(bin) => bin,
        None => return None,
    };
    let is_bin = match path_file_name(bin.as_str()) {
        Some(name) => text_eq(name.as_str(), "bin"),
        None => false,
    };
    if !is_bin {
        return None;
    }
    path_parent(bin.as_str())
}

/// What the harness reads of its surroundings: the workspace root it defaults
/// to, and the `MARLIN_GERBIL_GXI`, `GERBIL_HOME` and `CARGO` variables.
#[derive(Clone, Debug, PartialEq, Eq)]
pub struct RealGxiGateEnvironment {
    pub default_workspace_root: String,
    pub marlin_gerbil_gxi: Option<String>,
    pub gerbil_home: Option<String>,
    pub cargo: Option<String>,
}

/// Planned command for the real `gxi` harness.
#[derive(Clone, Debug, PartialEq, Eq)]
pub struct RealGxiGateCommand {
    cargo: String,
    workspace_root: String,
    args: Vec<String>,
    env: Vec<(String, String)>,
}

/// A planned harness command, as texts: Cargo, the workspace root, the Cargo
/// arguments and the injected environment, sorted by name.
pub struct RealGxiGateCommandView {
    pub cargo: Seq<char>,
    pub workspace_root: Seq<char>,
    pub args: Seq<Seq<char>>,
    pub env: Seq<(Seq<char>, Seq<char>)>,
}

impl View for RealGxiGateCommand {
    type V = RealGxiGateCommandView;

    closed spec fn view(&self) -> RealGxiGateCommandView {
        RealGxiGateCommandView {
            cargo: self.cargo@,
            workspace_root: self.workspace_root@,
            args: self.args@.map_values(|a: String| a@),
            env: self.env@.map_values(|p: (String, String)| (p.0@, p.1@)),
        }
    }
}

/// The workspace root the harness runs in.
pub open spec fn gate_workspace_root(
    request: RealGxiGateRequestView,
    env: RealGxiGateEnvironment,
) -> Seq<char> {
    match request.workspace_root {
        Some(root) => root,
        None => env.default_workspace_root@,
    }
}

/// The Gerbil home built under a workspace root: `.data/gerbil/build`.
pub open spec fn default_gerbil_home_under(root: Seq<char>) -> Seq<char> {
    path_join(path_join(path_join(root, ".data"@), "gerbil"@), "build"@)
}

/// The `gxi` built under a workspace root: `.data/gerbil/build/bin/gxi`.
pub open spec fn default_gxi_under(root: Seq<char>) -> Seq<char> {
    path_join(path_join(default_gerbil_home_under(root), "bin"@), "gxi"@)
}

/// The `gxi` the harness uses: the one asked for, else the built one if it is a
/// file, else (when the workspace root was not given) `MARLIN_GERBIL_GXI`,
/// else the built one.
pub open spec fn gate_gxi(
    request: RealGxiGateRequestView,
    env: RealGxiGateEnvironment,
    default_gxi_is_file: bool,
) -> Seq<char> {
    let default_gxi = default_gxi_under(gate_workspace_root(request, env));
    match request.gxi {
        Some(gxi) => gxi,
        None => if default_gxi_is_file {
            default_gxi
        } else if request.workspace_root is None && env.marlin_gerbil_gxi is Some {
            env.marlin_gerbil_gxi->Some_0@
        } else {
            default_gxi
        },
    }
}

/// The Gerbil home the harness uses: the one asked for, else the one the `gxi`
/// implies, else the built one if it is a directory, else (when the
/// workspace root was not given) `GERBIL_HOME`, else the built one.
pub open spec fn gate_gerbil_home(
    request: RealGxiGateRequestView,
    env: RealGxiGateEnvironment,
    gxi: Seq<char>,
    default_home_is_dir: bool,
) -> Seq<char> {
    let default_home = default_gerbil_home_under(gate_workspace_root(request, env));
    match request.gerbil_home {
        Some(home) => home,
        None => match inferred_gerbil_home(gxi) {
            Some(home) => home,
            None => if default_home_is_dir {
                default_home
            } else if request.workspace_root is None && env.gerbil_home is Some {
                env.gerbil_home->Some_0@
            } else {
                default_home
            },
        },
    }
}

/// The Cargo the harness runs: the one asked for, else `CARGO`, else `cargo`.
pub open spec fn gate_cargo(request: RealGxiGateRequestView, env: RealGxiGateEnvironment) -> Seq<char> {
    match request.cargo {
        Some(cargo) => cargo,
        None => match env.cargo {
            Some(cargo) => cargo@,
            None => "cargo"@,
        },
    }
}

/// The Cargo arguments that run the filtered ignored tests.
pub open spec fn gate_args(filter: Seq<char>) -> Seq<Seq<char>> {
    seq![
        "test"@,
        "-p"@,
        "marlin-gerbil-scheme"@,
        "--locked"@,
        "--test"@,
        "unit_test"@,
        filter,
        "--"@,
        "--ignored"@,
    ]
}

/// The harness command for a request, given what the file system answered:
/// whether the built `gxi` is a file, whether the built Gerbil home is a
/// directory, and whether the chosen `gxi` and home are.
pub open spec fn gate_command(
    request: RealGxiGateRequestView,
    env: RealGxiGateEnvironment,
    default_gxi_is_file: bool,
    default_home_is_dir: bool,
    gxi_is_file: bool,
    home_is_dir: bool,
) -> Result<RealGxiGateCommandView, Seq<char>> {
    let gxi = gate_gxi(request, env, default_gxi_is_file);
    let home = gate_gerbil_home(request, env, gxi, default_home_is_dir);
    if !gxi_is_file {
        Err("missing gxi executable at "@ + gxi + "; set MARLIN_GERBIL_GXI or pass --gxi"@)
    } else if !home_is_dir {
        Err("missing Gerbil home at "@ + home + "; set GERBIL_HOME or pass --gerbil-home"@)
    } else {
        Ok(
            RealGxiGateCommandView {
                cargo: gate_cargo(request, env),
                workspace_root: gate_workspace_root(request, env),
                args: gate_args(request.filter),
                env: seq![("GERBIL_HOME"@, home), ("MARLIN_GERBIL_GXI"@, gxi)],
            },
        )
    }
}

/// `result` is the harness command for the given file-system answers.
pub open spec fn is_gate_outcome(
    result: Result<RealGxiGateCommand, RealGxiGateError>,
    request: RealGxiGateRequestView,
    env: RealGxiGateEnvironment,
    default_gxi_is_file: bool,
    default_home_is_dir: bool,
    gxi_is_file: bool,
    home_is_dir: bool,
) -> bool {
    let expected = gate_command(
        request,
        env,
        default_gxi_is_file,
        default_home_is_dir,
        gxi_is_file,
        home_is_dir,
    );
    match result {
        Ok(command) => expected == Ok::<RealGxiGateCommandView, Seq<char>>(command@),
        Err(e) => expected == Err::<RealGxiGateCommandView, Seq<char>>(e@),
    }
}

/// `probe` was asked about `path` and answered `answer`.
pub open spec fn asked<F: Fn(&str) -> bool>(probe: F, path: Seq<char>, answer: bool) -> bool {
    exists|p: &str| p@ == path && #[trigger] probe.ensures((p,), answer)
}

/// The file-system answers are what `is_file` and `is_dir` said about the
/// paths a plan asks about: the built `gxi` (when none was asked for), the
/// built Gerbil home (when none was asked for and the `gxi` implies none), the
/// chosen `gxi`, and (when that is a file) the chosen home.
pub open spec fn gate_probes<F: Fn(&str) -> bool, G: Fn(&str) -> bool>(
    is_file: F,
    is_dir: G,
    request: RealGxiGateRequestView,
    env: RealGxiGateEnvironment,
    default_gxi_is_file: bool,
    default_home_is_dir: bool,
    gxi_is_file: bool,
    home_is_dir: bool,
) -> bool {
    let root = gate_workspace_root(request, env);
    let gxi = gate_gxi(request, env, default_gxi_is_file);
    let home = gate_gerbil_home(request, env, gxi, default_home_is_dir);
    &&& request.gxi is None ==> asked(is_file, default_gxi_under(root), default_gxi_is_file)
    &&& request.gerbil_home is None && inferred_gerbil_home(gxi) is None ==> asked(
        is_dir,
        default_gerbil_home_under(root),
        default_home_is_dir,
    )
    &&& asked(is_file, gxi, gxi_is_file)
    &&& gxi_is_file ==> asked(is_dir, home, home_is_dir)
}

/// A copy of an optional string.
fn copy_opt(value: &Option<String>) -> (copy: Option<String>)
    ensures
        opt_text(copy) == opt_text(*value),
{
    match value {
        Some(s) => Some(s.clone()),
        None => None,
    }
}

impl RealGxiGateCommand {
    /// Plans the harness command for a request, asking `is_file` and `is_dir`
    /// about the candidate `gxi` and Gerbil home.
    ///
    /// The command is the one [`gate_command`] gives for what they answered.
    pub fn from_request<F: Fn(&str) -> bool, G: Fn(&str) -> bool>(
        request: &RealGxiGateRequest,
        env: &RealGxiGateEnvironment,
        is_file: F,
        is_dir: G,
    ) -> (result: Result<Self, RealGxiGateError>)
        requires
            forall|path: &str| is_file.requires((path,)),
            forall|path: &str| is_dir.requires((path,)),
        ensures
            exists|a: bool, b: bool, c: bool, d: bool|
                #[trigger] is_gate_outcome(result, request@, *env, a, b, c, d) && gate_probes(
                    is_file,
                    is_dir,
                    request@,
                    *env,
                    a,
                    b,
                    c,
                    d,
                ),
    {
        let workspace_root = match &request.workspace_root {
            Some(root) => root.clone(),
            None => env.default_workspace_root.clone(),
        };
        let data = join_path(workspace_root.as_str(), ".data");
        let gerbil = join_path(data.as_str(), "gerbil");
        let default_home = join_path(gerbil.as_str(), "build");
        let bin = join_path(default_home.as_str(), "bin");
        let default_gxi = join_path(bin.as_str(), "gxi");
        let mut default_gxi_is_file = false;
        let gxi = match &request.gxi {
            Some(gxi) => gxi.clone(),
            None => {
                let probe = default_gxi.as_str();
                default_gxi_is_file = is_file(probe);
                assert(asked(is_file, default_gxi@, default_gxi_is_file));
                if default_gxi_is_file {
                    default_gxi.clone()
                } else if request.workspace_root.is_none() && env.marlin_gerbil_gxi.is_some() {
                    match &env.marlin_gerbil_gxi {
                        Some(g) => g.clone(),
                        None => default_gxi.clone(),
                    }
                } else {
                    default_gxi.clone()
                }
            },
        };
        assert(gxi@ == gate_gxi(request@, *env, default_gxi_is_file));
        let mut default_home_is_dir = false;
        let home = match &request.gerbil_home {
            Some(home) => home.clone(),
            None => match infer_gerbil_home_from_gxi(gxi.as_str()) {
                Some(home) => home,
                None => {
                    let probe = default_home.as_str();
                    default_home_is_dir = is_dir(probe);
                    assert(asked(is_dir, default_home@, default_home_is_dir));
                    if default_home_is_dir {
                        default_home.clone()
                    } else if request.workspace_root.is_none() && env.gerbil_home.is_some() {
                        match &env.gerbil_home {
                            Some(h) => h.clone(),
                            None => default_home.clone(),
                        }
                    } else {
                        default_home.clone()
                    }
                },
            },
        };
        assert(home@ == gate_gerbil_home(request@, *env, gxi@, default_home_is_dir));
        let gxi_probe = gxi.as_str();
        let gxi_is_file = is_file(gxi_probe);
        assert(asked(is_file, gxi@, gxi_is_file));
        let home_is_dir = if gxi_is_file {
            let home_probe = home.as_str();
            let answer = is_dir(home_probe);
            assert(asked(is_dir, home@, answer));
            answer
        } else {
            false
        };
        assert(gate_probes(
            is_file,
            is_dir,
            request@,
            *env,
            default_gxi_is_file,
            default_home_is_dir,
            gxi_is_file,
            home_is_dir,
        ));
        let result = if !gxi_is_file {
            let mut message = "missing gxi executable at ".to_owned();
            message.append(gxi.as_str());
            message.append("; set MARLIN_GERBIL_GXI or pass --gxi");
            Err(RealGxiGateError::new(message))
        } else if !home_is_dir {
            let mut message = "missing Gerbil home at ".to_owned();
            message.append(home.as_str());
            message.append("; set GERBIL_HOME or pass --gerbil-home");
            Err(RealGxiGateError::new(message))
        } else {
            let cargo = match &request.cargo {
                Some(cargo) => cargo.clone(),
                None => match &env.cargo {
                    Some(cargo) => cargo.clone(),
                    None => "cargo".to_owned(),
                },
            };
            let args = vec![
                "test".to_owned(),
                "-p".to_owned(),
                "marlin-gerbil-scheme".to_owned(),
                "--locked".to_owned(),
                "--test".to_owned(),
                "unit_test".to_owned(),
                request.filter.clone(),
                "--".to_owned(),
                "--ignored".to_owned(),
            ];
            let env_vars = vec![
                (GERBIL_HOME_ENV.to_owned(), home),
                ("MARLIN_GERBIL_GXI".to_owned(), gxi),
            ];
            let command = RealGxiGateCommand { cargo, workspace_root, args, env: env_vars };
            assert(command@.args =~= gate_args(request@.filter));
            assert(command@.env =~= seq![
                ("GERBIL_HOME"@, gate_gerbil_home(request@, *env, gate_gxi(request@, *env, default_gxi_is_file), default_home_is_dir)),
                ("MARLIN_GERBIL_GXI"@, gate_gxi(request@, *env, default_gxi_is_file)),
            ]);
            Ok(command)
        };
        assert(is_gate_outcome(
            result,
            request@,
            *env,
            default_gxi_is_file,
            default_home_is_dir,
            gxi_is_file,
            home_is_dir,
        ));
        result
    }

    /// Returns the Cargo executable used by the harness.
    pub fn cargo(&self) -> (cargo: &str)
        ensures
            cargo@ == self@.cargo,
    {
        self.cargo.as_str()
    }

    /// Returns the workspace root where the harness command runs.
    pub fn workspace_root(&self) -> (root: &str)
        ensures
            root@ == self@.workspace_root,
    {
        self.workspace_root.as_str()
    }

    /// Returns the Cargo arguments used by the harness command.
    pub fn args(&self) -> (args: &[String])
        ensures
            args@.map_values(|a: String| a@) == self@.args,
    {
        self.args.as_slice()
    }

    /// Returns the environment variables injected into the harness command, sorted by name.
    pub fn env(&self) -> (env: &[(String, String)])
        ensures
            env@.map_values(|p: (String, String)| (p.0@, p.1@)) == self@.env,
    {
        self.env.as_slice()
    }
}


/// `items` joined by single spaces.
pub open spec fn space_joined(items: Seq<Seq<char>>) -> Seq<char>
    decreases items.len(),
{
    if items.len() == 0 {
        Seq::empty()
    } else if items.len() == 1 {
        items[0]
    } else {
        space_joined(items.drop_last()) + " "@ + items.last()
    }
}

/// `name=value` for each variable.
pub open spec fn env_assignments(env: Seq<(Seq<char>, Seq<char>)>) -> Seq<Seq<char>> {
    env.map_values(|p: (Seq<char>, Seq<char>)| p.0 + "="@ + p.1)
}

/// The dry-run rendering of a harness command.
pub open spec fn describe_text(command: RealGxiGateCommandView) -> Seq<char> {
    "cd "@ + command.workspace_root + " && "@ + space_joined(env_assignments(command.env)) + " "@
        + command.cargo + " "@ + space_joined(command.args)
}

/// `items` joined by single spaces.
fn join_spaced(items: &Vec<String>) -> (joined: String)
    ensures
        joined@ == space_joined(items@.map_values(|a: String| a@)),
{
    let ghost views = items@.map_values(|a: String| a@);
    let mut joined = String::new();
    let mut i: usize = 0;
    while i < items.len()
        invariant
            i <= items.len(),
            views == items@.map_values(|a: String| a@),
            joined@ == space_joined(views.take(i as int)),
        decreases items.len() - i,
    {
        assert(views.take(i + 1).drop_last() =~= views.take(i as int));
        if i > 0 {
            joined.append(" ");
        }
        joined.append(items[i].as_str());
        i += 1;
    }
    assert(views.take(i as int) =~= views);
    joined
}

impl RealGxiGateCommand {
    /// Renders the harness command for dry-run diagnostics.
    pub fn describe(&self) -> (text: String)
        ensures
            text@ == describe_text(self@),
    {
        let mut assignments: Vec<String> = Vec::new();
        let mut i: usize = 0;
        while i < self.env.len()
            invariant
                i <= self.env.len(),
                assignments@.map_values(|a: String| a@) == env_assignments(
                    self@.env,
                ).take(i as int),
            decreases self.env.len() - i,
        {
            let mut assignment = self.env[i].0.clone();
            assignment.append("=");
            assignment.append(self.env[i].1.as_str());
            let ghost before = assignments@.map_values(|a: String| a@);
            assignments.push(assignment);
            assert(assignments@.map_values(|a: String| a@) =~= before.push(
                env_assignments(self@.env)[i as int],
            ));
            assert(env_assignments(self@.env).take(i + 1) =~= env_assignments(self@.env).take(
                i as int,
            ).push(env_assignments(self@.env)[i as int]));
            i += 1;
        }
        assert(env_assignments(self@.env).take(i as int) =~= env_assignments(self@.env));
        let env_text = join_spaced(&assignments);
        let args_text = join_spaced(&self.args);
        let mut text = "cd ".to_owned();
        text.append(self.workspace_root.as_str());
        text.append(" && ");
        text.append(env_text.as_str());
        text.append(" ");
        text.append(self.cargo.as_str());
        text.append(" ");
        text.append(args_text.as_str());
        text
    }

    /// Builds a harness command from a command line (program name first); a
    /// command line that asks for help gives no command.
    pub fn from_args<F: Fn(&str) -> bool, G: Fn(&str) -> bool>(
        args: &Vec<RealGxiGateArg>,
        env: &RealGxiGateEnvironment,
        is_file: F,
        is_dir: G,
    ) -> (result: Result<Self, RealGxiGateError>)
        requires
            forall|path: &str| is_file.requires((path,)),
            forall|path: &str| is_dir.requires((path,)),
        ensures
            match gate_request(args@) {
                Err(message) => result matches Err(e) && e@ == message,
                Ok(request) => if request.help {
                    result matches Err(e) && e@
                        == "help output does not produce a real gxi gate command"@
                } else {
                    exists|a: bool, b: bool, c: bool, d: bool|
                        #[trigger] is_gate_outcome(result, request, *env, a, b, c, d)
                            && gate_probes(is_file, is_dir, request, *env, a, b, c, d)
                },
            },
    {
        let request = match RealGxiGateRequest::parse(args) {
            Ok(request) => request,
            Err(e) => return Err(e),
        };
        if request.help {
            return Err(
                RealGxiGateError::new(
                    "help output does not produce a real gxi gate command".to_owned(),
                ),
            );
        }
        RealGxiGateCommand::from_request(&request, env, is_file, is_dir)
    }
}

/// What a harness run does: print the usage, print the planned command, or run it.
#[derive(Clone, Debug, PartialEq, Eq)]
pub enum RealGxiGateAction {
    PrintUsage(String),
    PrintCommand(String),
    Run(RealGxiGateCommand),
}

/// Decides what a harness run does for a command line (program name first).
pub fn plan_real_gxi_gate_from_args<F: Fn(&str) -> bool, G: Fn(&str) -> bool>(
    args: &Vec<RealGxiGateArg>,
    env: &RealGxiGateEnvironment,
    is_file: F,
    is_dir: G,
) -> (action: Result<RealGxiGateAction, RealGxiGateError>)
    requires
        forall|path: &str| is_file.requires((path,)),
        forall|path: &str| is_dir.requires((path,)),
    ensures
        match gate_request(args@) {
            Err(message) => action matches Err(e) && e@ == message,
            Ok(request) => if request.help {
                action matches Ok(RealGxiGateAction::PrintUsage(text)) && text@ == gate_usage(
                    request.program,
                )
            } else {
                exists|a: bool, b: bool, c: bool, d: bool|
                    #![trigger gate_command(request, *env, a, b, c, d)]
                    gate_probes(is_file, is_dir, request, *env, a, b, c, d) && match gate_command(
                        request,
                        *env,
                        a,
                        b,
                        c,
                        d,
                    ) {
                        Err(message) => action matches Err(e) && e@ == message,
                        Ok(command) => if request.print_command {
                            action matches Ok(RealGxiGateAction::PrintCommand(text)) && text@
                                == describe_text(command)
                        } else {
                            action matches Ok(RealGxiGateAction::Run(c)) && c@ == command
                        },
                    }
            },
        },
{
    let request = match RealGxiGateRequest::parse(args) {
        Ok(request) => request,
        Err(e) => return Err(e),
    };
    if request.help {
        return Ok(RealGxiGateAction::PrintUsage(usage(request.program.as_str())));
    }
    let command = RealGxiGateCommand::from_request(&request, env, is_file, is_dir);
    match command {
        Err(e) => Err(e),
        Ok(command) => {
            if request.print_command {
                Ok(RealGxiGateAction::PrintCommand(command.describe()))
            } else {
                Ok(RealGxiGateAction::Run(command))
            }
        },
    }
}

} // verus!
