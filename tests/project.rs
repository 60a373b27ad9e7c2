use napi_cli::build_plan::{
    artifact_names, check_package, feature_args, find_cdylib, intermediate_type_file_name,
    package_args, resolve_output_dir, rust_flags, select_package, type_def_file_name,
};
use napi_cli::names::{package_name_to_binary_name, package_name_to_crate_name};
use napi_cli::new_project::{available_targets, default_targets, NewCommand};
use napi_cli::target::Target;

fn strings(v: &[&str]) -> Vec<String> {
    v.iter().map(|s| s.to_string()).collect()
}

fn command() -> NewCommand {
    NewCommand {
        path: "/tmp/demo".to_string(),
        name: None,
        min_node_api: 4,
        license: "MIT".to_string(),
        targets: None,
        enable_default_targets: false,
        enable_all_targets: false,
        enable_type_def: false,
        enable_github_actions: false,
        yes: true,
    }
}

#[test]
fn crate_names() {
    assert_eq!(package_name_to_crate_name("@napi-rs/cli"), "napi-rs-cli");
    assert_eq!(package_name_to_crate_name("@@scope/a/b"), "scope-a-b");
    assert_eq!(package_name_to_crate_name("plain"), "plain");
    assert_eq!(package_name_to_crate_name(""), "");
}

#[test]
fn binary_names() {
    assert_eq!(package_name_to_binary_name("@napi-rs/cli"), "cli");
    assert_eq!(package_name_to_binary_name("plain"), "plain");
    assert_eq!(package_name_to_binary_name("a/"), "");
}

#[test]
fn use_targets_keeps_order() {
    let mut cmd = command();
    cmd.use_targets(&["b", "a"]);
    assert_eq!(cmd.targets, Some(strings(&["b", "a"])));
    assert_eq!(cmd.license, "MIT");
}

#[test]
fn preset_targets_follow_flags() {
    let mut cmd = command();
    assert_eq!(cmd.preset_targets(), None);
    cmd.enable_all_targets = true;
    assert_eq!(cmd.preset_targets(), Some(available_targets()));
    cmd.enable_default_targets = true;
    assert_eq!(cmd.preset_targets(), Some(default_targets()));
    assert_eq!(available_targets().len(), 13);
    assert_eq!(
        default_targets(),
        vec!["x86_64-apple-darwin", "x86_64-pc-windows-msvc", "x86_64-unknown-linux-gnu"]
    );
}

#[test]
fn default_preset() {
    let mut cmd = command();
    cmd.apply_default_preset("demo".to_string());
    assert_eq!(cmd.name, Some("demo".to_string()));
    assert_eq!(
        cmd.targets,
        Some(strings(&["x86_64-apple-darwin", "x86_64-pc-windows-msvc", "x86_64-unknown-linux-gnu"]))
    );
    assert!(cmd.enable_type_def);
    assert!(cmd.enable_github_actions);
}

#[test]
fn feature_flags() {
    let feats = strings(&["a", "b"]);
    assert_eq!(feature_args(true, true, &feats), strings(&["--all-features"]));
    assert_eq!(feature_args(false, true, &feats), strings(&["--no-default-features"]));
    assert_eq!(feature_args(false, false, &feats), strings(&["--features", "a", "b"]));
    assert!(feature_args(false, false, &vec![]).is_empty());
}

#[test]
fn package_flags() {
    assert_eq!(package_args(&Some("core".to_string()), true), strings(&["-p", "core", "--bin"]));
    assert_eq!(package_args(&None, true), strings(&["--bin"]));
    assert!(package_args(&None, false).is_empty());
}

#[test]
fn rustflags() {
    assert_eq!(
        rust_flags("", "x86_64-unknown-linux-musl", false),
        " -C target-feature=-crt-static"
    );
    assert_eq!(rust_flags("-C target-feature=-crt-static", "aarch64-unknown-linux-musl", false), "-C target-feature=-crt-static");
    assert_eq!(rust_flags("", "x86_64-unknown-linux-gnu", true), " -C link-arg=-s");
    assert_eq!(rust_flags("-C link-arg=-s", "x86_64-unknown-linux-gnu", true), "-C link-arg=-s");
    assert_eq!(rust_flags("", "x86_64-apple-darwin", false), "");
}

#[test]
fn artifact_file_names() {
    let linux = Target::new("x86_64-unknown-linux-gnu");
    let darwin = Target::new("aarch64-apple-darwin");
    let windows = Target::new("x86_64-pc-windows-msvc");
    assert_eq!(
        artifact_names(&linux, false, "pkg", "my-lib", true),
        ("libmy_lib.so".to_string(), "index.linux-x64-gnu.node".to_string())
    );
    assert_eq!(
        artifact_names(&darwin, false, "pkg", "my-lib", false),
        ("libmy_lib.dylib".to_string(), "index.node".to_string())
    );
    assert_eq!(
        artifact_names(&windows, false, "pkg", "my-lib", true),
        ("my_lib.dll".to_string(), "index.win32-x64-msvc.node".to_string())
    );
    assert_eq!(
        artifact_names(&windows, true, "my-pkg", "lib", true),
        ("my-pkg.exe".to_string(), "my-pkg.exe".to_string())
    );
    assert_eq!(
        artifact_names(&linux, true, "my-pkg", "lib", false),
        ("my-pkg".to_string(), "my-pkg".to_string())
    );
}

#[test]
fn package_checks() {
    assert!(check_package(true, false));
    assert!(check_package(false, true));
    assert!(!check_package(false, false));
    let targets = vec![strings(&["bin"]), strings(&["rlib", "cdylib"]), strings(&["cdylib"])];
    assert_eq!(find_cdylib(&targets), Some(1));
    assert_eq!(find_cdylib(&vec![strings(&["lib"])]), None);
    let names = strings(&["a", "b", "b"]);
    assert_eq!(select_package(Some(0), &names, &Some("b".to_string())), Some(0));
    assert_eq!(select_package(None, &names, &Some("b".to_string())), Some(1));
    assert_eq!(select_package(None, &names, &Some("c".to_string())), None);
    assert_eq!(select_package(None, &names, &None), None);
}

#[test]
fn output_dir_fallbacks() {
    assert_eq!(resolve_output_dir(Some("o".into()), Some("c".into()), Some("m".into())), "o");
    assert_eq!(resolve_output_dir(None, Some("c".into()), Some("m".into())), "c");
    assert_eq!(resolve_output_dir(None, None, Some("m".into())), "m");
    assert_eq!(resolve_output_dir(None, None, None), "./");
}

#[test]
fn type_def_names() {
    assert_eq!(type_def_file_name(&vec![0x00, 0xAB, 0x1f]), "type_def.00AB1F.tmp");
    assert_eq!(type_def_file_name(&vec![]), "type_def..tmp");
    let name = intermediate_type_file_name();
    assert_eq!(name.len(), "type_def.".len() + 32 + ".tmp".len());
    assert!(name.starts_with("type_def."));
    assert!(name.ends_with(".tmp"));
    assert!(name["type_def.".len()..name.len() - 4]
        .chars()
        .all(|c| c.is_ascii_digit() || ('A'..='F').contains(&c)));
}
