use node_bootstrap::extract::{
    tar_entry_action, tar_relative_path, zip_entry_action, zip_relative_path, zip_top_dir, EntryAction,
};
use node_bootstrap::platform::Os;

fn comps(v: &[&str]) -> Vec<String> {
    v.iter().map(|c| c.to_string()).collect()
}

fn path_of(a: &EntryAction) -> Option<(&str, bool)> {
    match a {
        EntryAction::Skip => None,
        EntryAction::CreateDir(p) => Some((p.as_str(), true)),
        EntryAction::WriteFile(p) => Some((p.as_str(), false)),
    }
}

#[test]
fn zip_top_dir_is_first_segment() {
    assert_eq!(zip_top_dir("node-v22.14.0-win-x64/"), "node-v22.14.0-win-x64");
    assert_eq!(zip_top_dir("node-v22.14.0-win-x64/node.exe"), "node-v22.14.0-win-x64");
    assert_eq!(zip_top_dir("flat.txt"), "flat.txt");
    assert_eq!(zip_top_dir(""), "");
}

#[test]
fn zip_strips_one_segment() {
    let top = "node-v22.14.0-win-x64";
    assert_eq!(zip_relative_path(top, "node-v22.14.0-win-x64/node.exe"), "node.exe");
    assert_eq!(zip_relative_path(top, "node-v22.14.0-win-x64/node_modules/npm/"), "node_modules/npm/");
    assert_eq!(zip_relative_path(top, "node-v22.14.0-win-x64//a"), "a");
    assert_eq!(zip_relative_path(top, "node-v22.14.0-win-x64/"), "");
    assert_eq!(zip_relative_path(top, "node-v22.14.0-win-x64"), "");
    assert_eq!(zip_relative_path(top, "other/file"), "other/file");
    assert_eq!(zip_relative_path("", "a/b"), "a/b");
}

#[test]
fn zip_entry_actions() {
    let top = "node-v22.14.0-win-x64";
    let dest = "C:\\c\\node";
    let a = zip_entry_action(Os::Windows, dest, top, "node-v22.14.0-win-x64/", true);
    assert_eq!(path_of(&a), None);
    let a = zip_entry_action(Os::Windows, dest, top, "node-v22.14.0-win-x64/node.exe", false);
    assert_eq!(path_of(&a), Some(("C:\\c\\node\\node.exe", false)));
    let a = zip_entry_action(Os::Windows, dest, top, "node-v22.14.0-win-x64/node_modules/", true);
    assert_eq!(path_of(&a), Some(("C:\\c\\node\\node_modules/", true)));
}

#[test]
fn tar_strips_one_component() {
    assert_eq!(tar_relative_path(&comps(&[])), None);
    assert_eq!(tar_relative_path(&comps(&["node-v22.14.0-linux-x64"])), None);
    assert_eq!(tar_relative_path(&comps(&["node-v22.14.0-linux-x64", "bin"])), Some("bin".to_string()));
    assert_eq!(tar_relative_path(&comps(&["node-v22.14.0-linux-x64", "bin", "node"])),
        Some("bin/node".to_string()));
    assert_eq!(tar_relative_path(&comps(&["/", "etc", "x"])), Some("etc/x".to_string()));
}

#[test]
fn tar_entry_actions() {
    let dest = "/c/node";
    let a = tar_entry_action(Os::Linux, dest, &comps(&["node-v22.14.0-linux-x64"]), true);
    assert_eq!(path_of(&a), None);
    let a = tar_entry_action(Os::Linux, dest, &comps(&["node-v22.14.0-linux-x64", "lib"]), true);
    assert_eq!(path_of(&a), Some(("/c/node/lib", true)));
    let a = tar_entry_action(Os::Linux, dest, &comps(&["node-v22.14.0-linux-x64", "bin", "node"]), false);
    assert_eq!(path_of(&a), Some(("/c/node/bin/node", false)));
}
