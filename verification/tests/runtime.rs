use marlin_gerbil_scheme::runtime::{
    GerbilRuntimeAsset, gerbil_runtime_asset_in, gerbil_runtime_loadpath_with_dependencies,
};
use marlin_gerbil_scheme::runtime::{
    GerbilCommandProfile, gerbil_package_build_script, gerbil_runtime_build_script_contract,
    gerbil_runtime_dependency_loadpath, gerbil_runtime_loadpath, join_path,
};

#[test]
fn loadpaths_follow_path_join() {
    assert_eq!(gerbil_runtime_loadpath("/opt/pkg"), "/opt/pkg/src");
    assert_eq!(gerbil_runtime_loadpath("/opt/pkg/"), "/opt/pkg/src");
    assert_eq!(gerbil_runtime_dependency_loadpath("pkg"), "pkg/.gerbil/lib");
    assert_eq!(gerbil_package_build_script(""), "build.ss");
    assert_eq!(join_path("/a", "/b"), "/b");
}

#[test]
fn setting_an_environment_variable_replaces_it_in_place() {
    let mut profile = GerbilCommandProfile::marlin_runtime_module("gxi", "/pkg");
    assert_eq!(profile.env, vec![("GERBIL_LOADPATH".to_owned(), "/pkg/src".to_owned())]);
    profile.set_env("HOME", "/home/a");
    profile.set_env("GERBIL_LOADPATH", "/other/src");
    profile.set_env("HOME", "/home/b");
    assert_eq!(
        profile.env,
        vec![
            ("GERBIL_LOADPATH".to_owned(), "/other/src".to_owned()),
            ("HOME".to_owned(), "/home/b".to_owned()),
        ]
    );
    assert_eq!(profile.args, vec![":marlin/adapter".to_owned()]);
    assert_eq!(profile.clone(), profile);
}

#[test]
fn build_script_contract_lists_the_runtime_package() {
    let contract = gerbil_runtime_build_script_contract();
    assert_eq!(contract.package_name, "marlin-deck-runtime");
    assert!(!contract.stages.is_empty());
}

#[test]
fn runtime_assets_are_found_by_path() {
    let assets = [
        GerbilRuntimeAsset { path: "src/marlin/adapter.ss", source: "(export)" },
        GerbilRuntimeAsset { path: "gerbil.pkg", source: "(package: marlin)" },
        GerbilRuntimeAsset { path: "gerbil.pkg", source: "duplicate" },
    ];
    assert_eq!(gerbil_runtime_asset_in(&assets, "gerbil.pkg").map(|a| a.source), Some("(package: marlin)"));
    assert_eq!(gerbil_runtime_asset_in(&assets, "src/marlin/adapter.ss").map(|a| a.source), Some("(export)"));
    assert!(gerbil_runtime_asset_in(&assets, "missing.ss").is_none());
}

#[test]
fn package_dependencies_come_first_on_the_loadpath() {
    let users = vec!["/home/u/.gerbil/lib".to_owned(), "/home/u/.gerbil/pkg/x/.gerbil/lib".to_owned()];
    assert_eq!(
        gerbil_runtime_loadpath_with_dependencies("/pkg", &users, "/rt", Some("/a:/b")),
        "/pkg/.gerbil/lib:/home/u/.gerbil/lib:/home/u/.gerbil/pkg/x/.gerbil/lib:/rt/src:/a:/b"
    );
    assert_eq!(gerbil_runtime_loadpath_with_dependencies("/pkg", &vec![], "/rt", None), "/pkg/.gerbil/lib:/rt/src");
}
