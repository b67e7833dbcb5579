use marlin_gerbil_scheme::native_aot_cli::{GerbilNativeAotCliAction, GerbilNativeAotCliConfig};
use marlin_gerbil_scheme::real_gxi_gate::{
    RealGxiGateAction, RealGxiGateArg, RealGxiGateCommand, RealGxiGateEnvironment,
    RealGxiGateRequest, infer_gerbil_home_from_gxi, plan_real_gxi_gate_from_args,
};

fn strings(args: &[&str]) -> Vec<String> {
    args.iter().map(|a| (*a).to_owned()).collect()
}

#[test]
fn native_aot_without_arguments_asks_for_help() {
    let config = GerbilNativeAotCliConfig::from_args(vec![], "/work", None).unwrap();
    assert_eq!(config.action, GerbilNativeAotCliAction::Help);
    assert_eq!(config.root, "/work/target/marlin-gerbil-native-aot");
    assert_eq!(config.c_compiler, None);
}

#[test]
fn native_aot_build_resolves_relative_paths() {
    let config = GerbilNativeAotCliConfig::from_args(
        strings(&[
            "build",
            "--root",
            "out",
            "--gsc",
            "/usr/bin/gsc",
            "--c-compiler",
            "cc",
            "--gambit-link-lib",
            "gambit",
            "--gambit-include",
            "inc",
        ]),
        "/work",
        Some("clang".to_owned()),
    )
    .unwrap();
    assert_eq!(config.action, GerbilNativeAotCliAction::Build);
    assert_eq!(config.root, "/work/out");
    assert_eq!(config.gsc.as_deref(), Some("/usr/bin/gsc"));
    assert_eq!(config.c_compiler.as_deref(), Some("cc"));
    assert_eq!(config.gambit_link_library.as_deref(), Some("gambit"));
    assert_eq!(config.gambit_include_dir.as_deref(), Some("/work/inc"));
    assert_eq!(config.output_dir, None);
}

#[test]
fn native_aot_keeps_the_default_compiler_and_honours_help() {
    let config =
        GerbilNativeAotCliConfig::from_args(strings(&["build", "-h"]), "/w", Some("clang".to_owned())).unwrap();
    assert_eq!(config.action, GerbilNativeAotCliAction::Help);
    assert_eq!(config.c_compiler.as_deref(), Some("clang"));
}

#[test]
fn native_aot_errors_name_the_argument() {
    assert_eq!(
        GerbilNativeAotCliConfig::from_args(strings(&["link"]), "/w", None).unwrap_err(),
        "unknown native AOT action `link`"
    );
    assert_eq!(
        GerbilNativeAotCliConfig::from_args(strings(&["build", "--fast"]), "/w", None).unwrap_err(),
        "unknown native AOT option `--fast`"
    );
    assert_eq!(
        GerbilNativeAotCliConfig::from_args(strings(&["build", "--root"]), "/w", None).unwrap_err(),
        "--root requires a value"
    );
    assert!(GerbilNativeAotCliConfig::usage().starts_with("Usage: marlin-gerbil-native-aot <build>"));
}

fn args(items: &[&str]) -> Vec<RealGxiGateArg> {
    items.iter().map(|a| RealGxiGateArg::Text((*a).to_owned())).collect()
}

fn environment() -> RealGxiGateEnvironment {
    RealGxiGateEnvironment {
        default_workspace_root: "/repo".to_owned(),
        marlin_gerbil_gxi: Some("/env/bin/gxi".to_owned()),
        gerbil_home: Some("/env-home".to_owned()),
        cargo: None,
    }
}

#[test]
fn gate_request_parses_flags() {
    let request = RealGxiGateRequest::parse(&args(&["gate", "--gxi", "/g/bin/gxi", "--filter", "x", "--print-command"])).unwrap();
    assert_eq!(request.program, "gate");
    assert_eq!(request.gxi.as_deref(), Some("/g/bin/gxi"));
    assert_eq!(request.filter, "x");
    assert!(request.print_command);
    assert!(!request.help);
    let defaults = RealGxiGateRequest::parse(&vec![]).unwrap();
    assert_eq!(defaults.program, "marlin-gerbil-real-gxi-gate");
    assert_eq!(defaults.filter, "command::real_gxi");
}

#[test]
fn gate_request_errors() {
    let error = RealGxiGateRequest::parse(&args(&["gate", "--cargo"])).unwrap_err();
    assert_eq!(error.message(), "missing value for --cargo");
    let mut bad = args(&["gate", "--gxi"]);
    bad.push(RealGxiGateArg::NonUtf8 { lossy: "\u{fffd}".to_owned(), debug: "\"\\xFF\"".to_owned() });
    let error = RealGxiGateRequest::parse(&bad).unwrap_err();
    assert_eq!(error.message(), "argument for --gxi is not UTF-8: \"\\xFF\"");
    let error = RealGxiGateRequest::parse(&args(&["gate", "--bogus"])).unwrap_err();
    assert!(error.message().starts_with("unexpected argument \"--bogus\"\n\nusage: gate [--workspace-root <path>]"));
}

#[test]
fn gate_command_prefers_explicit_paths_and_infers_home() {
    let request = RealGxiGateRequest::parse(&args(&["gate", "--gxi", "/opt/gerbil/bin/gxi"])).unwrap();
    let command = RealGxiGateCommand::from_request(&request, &environment(), |_: &str| true, |_: &str| true).unwrap();
    assert_eq!(command.workspace_root(), "/repo");
    assert_eq!(command.cargo(), "cargo");
    assert_eq!(
        command.env(),
        &[
            ("GERBIL_HOME".to_owned(), "/opt/gerbil".to_owned()),
            ("MARLIN_GERBIL_GXI".to_owned(), "/opt/gerbil/bin/gxi".to_owned()),
        ]
    );
    assert_eq!(command.args()[6], "command::real_gxi");
    assert_eq!(
        command.describe(),
        "cd /repo && GERBIL_HOME=/opt/gerbil MARLIN_GERBIL_GXI=/opt/gerbil/bin/gxi cargo test -p marlin-gerbil-scheme --locked --test unit_test command::real_gxi -- --ignored"
    );
}

#[test]
fn gate_command_falls_back_to_the_environment() {
    let request = RealGxiGateRequest::parse(&args(&["gate"])).unwrap();
    let is_file = |path: &str| path == "/env/bin/gxi";
    let command = RealGxiGateCommand::from_request(&request, &environment(), is_file, |_: &str| true).unwrap();
    assert_eq!(command.env()[1].1, "/env/bin/gxi");
    assert_eq!(command.env()[0].1, "/env");

    let explicit_root = RealGxiGateRequest::parse(&args(&["gate", "--workspace-root", "/w"])).unwrap();
    let error = RealGxiGateCommand::from_request(&explicit_root, &environment(), |_: &str| false, |_: &str| true)
        .unwrap_err();
    assert_eq!(
        error.message(),
        "missing gxi executable at /w/.data/gerbil/build/bin/gxi; set MARLIN_GERBIL_GXI or pass --gxi"
    );
    let error = RealGxiGateCommand::from_request(&explicit_root, &environment(), |_: &str| true, |_: &str| false)
        .unwrap_err();
    assert_eq!(
        error.message(),
        "missing Gerbil home at /w/.data/gerbil/build; set GERBIL_HOME or pass --gerbil-home"
    );
}

#[test]
fn gate_run_plan_follows_the_flags() {
    match plan_real_gxi_gate_from_args(&args(&["gate", "-h"]), &environment(), |_: &str| true, |_: &str| true) {
        Ok(RealGxiGateAction::PrintUsage(text)) => assert!(text.starts_with("usage: gate ")),
        other => panic!("unexpected {other:?}"),
    }
    match plan_real_gxi_gate_from_args(&args(&["gate", "--print-command"]), &environment(), |_: &str| true, |_: &str| true) {
        Ok(RealGxiGateAction::PrintCommand(text)) => assert!(text.starts_with("cd /repo && ")),
        other => panic!("unexpected {other:?}"),
    }
    match plan_real_gxi_gate_from_args(&args(&["gate"]), &environment(), |_: &str| true, |_: &str| true) {
        Ok(RealGxiGateAction::Run(command)) => assert_eq!(command.cargo(), "cargo"),
        other => panic!("unexpected {other:?}"),
    }
    let error = RealGxiGateCommand::from_args(&args(&["gate", "--help"]), &environment(), |_: &str| true, |_: &str| true)
        .unwrap_err();
    assert_eq!(error.message(), "help output does not produce a real gxi gate command");
}

#[test]
fn gerbil_home_is_inferred_only_from_a_bin_directory() {
    assert_eq!(infer_gerbil_home_from_gxi("/opt/gerbil/bin/gxi").as_deref(), Some("/opt/gerbil"));
    assert_eq!(infer_gerbil_home_from_gxi("/opt/gerbil/tools/gxi"), None);
    assert_eq!(infer_gerbil_home_from_gxi("gxi"), None);
}
