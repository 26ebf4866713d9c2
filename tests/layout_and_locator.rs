use node_bootstrap::download::{download_percent, download_target, get_node_download_url};
use node_bootstrap::layout::{
    app_config_path, get_config_dir, get_portable_node_dir, marker_path, node_config_path, pid_path,
};
use node_bootstrap::locator::{get_cli_binary, get_node_binary, get_npm_binary, get_windows_cli_wrapper};
use node_bootstrap::platform::{path_join, Arch, Os};

fn s(v: &str) -> Option<String> {
    Some(v.to_string())
}

#[test]
fn config_dir_per_platform() {
    assert_eq!(get_config_dir(Os::Windows, s("C:\\Users\\a\\AppData\\Roaming"), None, None),
        "C:\\Users\\a\\AppData\\Roaming\\remote-clauding");
    assert_eq!(get_config_dir(Os::MacOs, None, None, s("/Users/a")),
        "/Users/a/Library/Application Support/remote-clauding");
    assert_eq!(get_config_dir(Os::Linux, None, s("/x/cfg"), s("/home/a")), "/x/cfg/remote-clauding");
    assert_eq!(get_config_dir(Os::Linux, None, None, s("/home/a/")), "/home/a/.config/remote-clauding");
}

#[test]
fn config_dir_fallback_is_relative() {
    assert_eq!(get_config_dir(Os::Windows, None, s("/x"), s("/h")), "remote-clauding");
    assert_eq!(get_config_dir(Os::MacOs, s("C:\\x"), s("/x"), None), "remote-clauding");
    assert_eq!(get_config_dir(Os::Linux, None, None, None), "remote-clauding");
    assert_eq!(get_config_dir(Os::Other, s("a"), s("b"), s("c")), "remote-clauding");
    assert_eq!(get_config_dir(Os::Linux, None, s(""), None), "remote-clauding");
}

#[test]
fn state_files_under_config_dir() {
    assert_eq!(marker_path(Os::Linux, "/c"), "/c/installed.marker");
    assert_eq!(pid_path(Os::Linux, "/c"), "/c/agent.pid");
    assert_eq!(node_config_path(Os::MacOs, "/c"), "/c/node-config.json");
    assert_eq!(app_config_path(Os::Windows, "C:\\c"), "C:\\c\\config.json");
    assert_eq!(get_portable_node_dir(Os::Windows, "C:\\c"), "C:\\c\\node");
}

#[test]
fn join_keeps_existing_separator() {
    assert_eq!(path_join(Os::Linux, "/a/", "b"), "/a/b");
    assert_eq!(path_join(Os::Windows, "C:\\a\\", "b"), "C:\\a\\b");
    assert_eq!(path_join(Os::Windows, "C:/a/", "b"), "C:/a/b");
    assert_eq!(path_join(Os::Linux, "a\\", "b"), "a\\/b");
    assert_eq!(path_join(Os::Linux, "", "b"), "b");
}

#[test]
fn node_binary_locations() {
    assert_eq!(get_node_binary(Os::Linux, "/c", false), "node");
    assert_eq!(get_node_binary(Os::Windows, "C:\\c", false), "node");
    assert_eq!(get_node_binary(Os::Linux, "/c", true), "/c/node/bin/node");
    assert_eq!(get_node_binary(Os::Windows, "C:\\c", true), "C:\\c\\node\\node.exe");
}

#[test]
fn npm_binary_locations() {
    assert_eq!(get_npm_binary(Os::Linux, "/c", false), ("npm".to_string(), vec![]));
    assert_eq!(get_npm_binary(Os::Windows, "C:\\c", false),
        ("cmd.exe".to_string(), vec!["/C".to_string(), "npm".to_string()]));
    assert_eq!(get_npm_binary(Os::MacOs, "/c", true), ("/c/node/bin/npm".to_string(), vec![]));
    assert_eq!(get_npm_binary(Os::Windows, "C:\\c", true), ("C:\\c\\node\\npm.cmd".to_string(), vec![]));
}

#[test]
fn cli_binary_locations() {
    assert_eq!(get_cli_binary(Os::Linux, "/c", false, false), ("remote-clauding".to_string(), vec![]));
    assert_eq!(get_cli_binary(Os::Windows, "C:\\c", false, true),
        ("cmd.exe".to_string(), vec!["/C".to_string(), "remote-clauding".to_string()]));
    assert_eq!(get_cli_binary(Os::Linux, "/c", true, false),
        ("/c/node/bin/remote-clauding".to_string(), vec![]));
    assert_eq!(get_windows_cli_wrapper(Os::Windows, "C:\\c"), "C:\\c\\node\\remote-clauding.cmd");
    assert_eq!(get_cli_binary(Os::Windows, "C:\\c", true, true),
        ("C:\\c\\node\\remote-clauding.cmd".to_string(), vec![]));
    assert_eq!(get_cli_binary(Os::Windows, "C:\\c", true, false),
        ("C:\\c\\node\\npx.cmd".to_string(), vec!["remote-clauding".to_string()]));
}

#[test]
fn download_url_for_every_platform() {
    let cases = [
        (Os::Windows, Arch::X64, "node-v22.14.0-win-x64.zip"),
        (Os::Windows, Arch::Arm64, "node-v22.14.0-win-arm64.zip"),
        (Os::MacOs, Arch::X64, "node-v22.14.0-darwin-x64.tar.gz"),
        (Os::MacOs, Arch::Arm64, "node-v22.14.0-darwin-arm64.tar.gz"),
        (Os::Linux, Arch::X64, "node-v22.14.0-linux-x64.tar.gz"),
        (Os::Linux, Arch::Arm64, "node-v22.14.0-linux-arm64.tar.gz"),
    ];
    for (os, arch, name) in cases {
        let (url, file) = get_node_download_url(os, arch);
        assert_eq!(file, name);
        assert_eq!(url, format!("https://nodejs.org/dist/v22.14.0/{}", name));
    }
}

#[test]
fn unknown_cpu_falls_back_to_x64() {
    assert_eq!(get_node_download_url(Os::Linux, Arch::Other), get_node_download_url(Os::Linux, Arch::X64));
    assert_eq!(get_node_download_url(Os::Other, Arch::Other).1, "node-v22.14.0-linux-x64.tar.gz");
}

#[test]
fn download_target_uses_given_version() {
    let (url, file) = download_target("v20.1.0", Os::MacOs, Arch::Arm64);
    assert_eq!(file, "node-v20.1.0-darwin-arm64.tar.gz");
    assert_eq!(url, "https://nodejs.org/dist/v20.1.0/node-v20.1.0-darwin-arm64.tar.gz");
}

#[test]
fn percent_of_download() {
    assert_eq!(download_percent(10, 0), None);
    assert_eq!(download_percent(0, 200), Some(0));
    assert_eq!(download_percent(29, 100), Some(29));
    assert_eq!(download_percent(1, 3), Some(33));
    assert_eq!(download_percent(200, 200), Some(100));
    assert_eq!(download_percent(u64::MAX, u64::MAX), Some(100));
    assert_eq!(download_percent(u64::MAX, 1), Some(u32::MAX));
}
