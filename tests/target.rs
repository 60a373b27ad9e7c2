use napi_cli::new_project::available_targets;
use napi_cli::target::{
    get_github_workflow_config, host_triple, NodeArch, NodePlatform, Target,
};

#[test]
fn test_target_from_str() {
    let targets = available_targets()
        .iter()
        .map(|t| Target::new(t))
        .collect::<Vec<_>>();
    let expected: Vec<(&str, NodePlatform, NodeArch, Option<&str>, &str)> = vec![
        ("aarch64-apple-darwin", NodePlatform::Darwin, NodeArch::arm64, None, "darwin-arm64"),
        ("aarch64-linux-android", NodePlatform::Android, NodeArch::arm64, None, "android-arm64"),
        ("aarch64-unknown-linux-gnu", NodePlatform::Linux, NodeArch::arm64, Some("gnu"), "linux-arm64-gnu"),
        ("aarch64-unknown-linux-musl", NodePlatform::Linux, NodeArch::arm64, Some("musl"), "linux-arm64-musl"),
        ("aarch64-pc-windows-msvc", NodePlatform::Windows, NodeArch::arm64, Some("msvc"), "win32-arm64-msvc"),
        ("x86_64-apple-darwin", NodePlatform::Darwin, NodeArch::x64, None, "darwin-x64"),
        ("x86_64-pc-windows-msvc", NodePlatform::Windows, NodeArch::x64, Some("msvc"), "win32-x64-msvc"),
        ("x86_64-unknown-linux-gnu", NodePlatform::Linux, NodeArch::x64, Some("gnu"), "linux-x64-gnu"),
        ("x86_64-unknown-linux-musl", NodePlatform::Linux, NodeArch::x64, Some("musl"), "linux-x64-musl"),
        ("x86_64-unknown-freebsd", NodePlatform::Freebsd, NodeArch::x64, None, "freebsd-x64"),
        ("i686-pc-windows-msvc", NodePlatform::Windows, NodeArch::ia32, Some("msvc"), "win32-ia32-msvc"),
        ("armv7-unknown-linux-gnueabihf", NodePlatform::Linux, NodeArch::arm, Some("gnueabihf"), "linux-arm-gnueabihf"),
        ("armv7-linux-androideabi", NodePlatform::Android, NodeArch::arm, Some("eabi"), "android-arm-eabi"),
    ];
    assert_eq!(targets.len(), expected.len());
    for (target, (triple, platform, arch, abi, paa)) in targets.iter().zip(expected) {
        assert_eq!(target.triple, triple);
        assert_eq!(target.platform, platform);
        assert_eq!(target.arch, arch);
        assert_eq!(target.abi.as_deref(), abi);
        assert_eq!(target.platform_arch_abi, paa);
    }
}

#[test]
fn two_part_triple_has_no_abi() {
    let t = Target::new("aarch64-fuchsia");
    assert_eq!(t.platform, NodePlatform::Fuchsia);
    assert_eq!(t.arch, NodeArch::arm64);
    assert_eq!(t.abi, None);
    assert_eq!(t.platform_arch_abi, "fuchsia-arm64");
}

#[test]
fn unknown_system_is_kept() {
    let t = Target::new("x86_64-unknown-netbsd");
    assert_eq!(t.platform, NodePlatform::Unknown("netbsd".to_string()));
    assert_eq!(t.platform_arch_abi, "netbsd-x64");
}

#[test]
fn x32_is_named_x86() {
    let t = Target::new("x32-unknown-linux-gnu");
    assert_eq!(t.arch, NodeArch::x32);
    assert_eq!(t.platform_arch_abi, "linux-x86-gnu");
}

#[test]
fn supported_triples() {
    assert!(Target::is_supported("x86_64-unknown-linux-gnu"));
    assert!(Target::is_supported("aarch64-fuchsia"));
    assert!(!Target::is_supported("x86_64"));
    assert!(!Target::is_supported("riscv64gc-unknown-linux-gnu"));
    assert!(!Target::is_supported(""));
}

#[test]
fn targets_compare_by_triple() {
    assert!(Target::new("x86_64-apple-darwin") == Target::new("x86_64-apple-darwin"));
    assert!(Target::new("x86_64-apple-darwin") != Target::new("aarch64-apple-darwin"));
}

#[test]
fn arch_names() {
    assert_eq!(NodeArch::from_str("x86_64"), Some(NodeArch::x64));
    assert_eq!(NodeArch::from_str("i686"), Some(NodeArch::ia32));
    assert_eq!(NodeArch::from_str("armv7"), Some(NodeArch::arm));
    assert_eq!(NodeArch::from_str("s390x"), Some(NodeArch::s390x));
    assert_eq!(NodeArch::from_str("mipsel"), Some(NodeArch::mipsel));
    assert_eq!(NodeArch::from_str("sparc"), None);
    assert_eq!(NodeArch::x32.to_string(), "x86");
    assert_eq!(NodeArch::ppc64.to_string(), "ppc64");
    assert_eq!(NodeArch::x32.as_github_action_arch(), "x86");
    assert_eq!(NodeArch::x64.as_github_action_arch(), "x64");
    assert_eq!(NodeArch::arm64.as_github_action_arch(), "x64");
}

#[test]
fn platform_names() {
    assert_eq!(NodePlatform::from_str("windows"), NodePlatform::Windows);
    assert_eq!(NodePlatform::Windows.to_string(), "win32");
    assert_eq!(NodePlatform::from_str("darwin").to_string(), "darwin");
    assert_eq!(NodePlatform::from_str("haiku"), NodePlatform::Unknown("haiku".to_string()));
    assert_eq!(NodePlatform::Unknown("haiku".to_string()).to_string(), "haiku");
}

#[test]
fn workflow_configs() {
    let mac = get_github_workflow_config("aarch64-apple-darwin");
    assert_eq!(mac.host, "macos-latest");
    assert_eq!(mac.docker_image, None);
    let win = get_github_workflow_config("i686-pc-windows-msvc");
    assert_eq!(win.host, "windows-latest");
    let gnu = get_github_workflow_config("x86_64-unknown-linux-gnu");
    assert_eq!(gnu.host, "ubuntu-latest");
    assert_eq!(gnu.docker_image, Some("napi-rs/nodejs-rust:lts-debian"));
    let musl = get_github_workflow_config("aarch64-unknown-linux-musl");
    assert_eq!(musl.docker_image, Some("napi-rs/nodejs-rust:lts-alpine"));
    let arm = get_github_workflow_config("armv7-unknown-linux-gnueabihf");
    assert_eq!(
        arm.setup,
        Some("sudo apt-get update && sudo apt-get install gcc-arm-linux-gnueabihf g++-arm-linux-gnueabihf -y")
    );
    let other = get_github_workflow_config("wasm32-unknown-unknown");
    assert_eq!(other.host, "ubuntu-latest");
    assert_eq!(other.docker_image, None);
    assert_eq!(other.setup, None);
    let freebsd = get_github_workflow_config("x86_64-unknown-freebsd");
    assert_eq!(freebsd.host, "ubuntu-latest");
    assert_eq!(freebsd.setup, None);
}

#[test]
fn host_triple_from_rustc_output() {
    let output = "rustc 1.70.0 (90c541806 2023-05-31)\nbinary: rustc\nhost: x86_64-unknown-linux-gnu\nrelease: 1.70.0\n";
    assert_eq!(host_triple(output), Some("x86_64-unknown-linux-gnu".to_string()));
    let crlf = "rustc 1.70.0\r\nhost: x86_64-pc-windows-msvc\r\nrelease: 1.70.0\r\n";
    assert_eq!(host_triple(crlf), Some("x86_64-pc-windows-msvc".to_string()));
    assert_eq!(host_triple("rustc 1.70.0\nrelease: 1.70.0\n"), None);
    assert_eq!(host_triple("host:\n"), None);
}
